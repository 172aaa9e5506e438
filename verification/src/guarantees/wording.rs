//! What is meant by words: those of the user, those that git reads, and those that are
//! written down for later.

use vstd::prelude::*;

use crate::cache::root_of;
use crate::cli::{
    are_options, decision_among, id_in, is_rehearsable, is_switch, management,
    options_are_told_apart, options_come_first, parsed, unknown_command, CommandModel, Decision,
};
use crate::error::Fault;
use crate::execute::SEQUENCE_EDITOR_ARG;
use crate::paths::{inside, is_absolute};
use crate::refcommands::{command_text, commands_text, RefCommand};
use crate::sandbox::merge_config::{entry_of, key_parts, line_length, EntryModel};
use crate::text::Text;

verus! {

// ---------------------------------------------------------------------------
// What git is told about refs
// ---------------------------------------------------------------------------
/// The text up to the first zero character, and what stands behind that; all of it where
/// there is none.
pub open spec fn field_of(text: Text) -> (Text, Text)
    decreases text.len(),
{
    if text.len() == 0 {
        (Seq::empty(), Seq::empty())
    } else if text[0] == '\0' {
        (Seq::empty(), text.drop_first())
    } else {
        let (field, rest) = field_of(text.drop_first());
        (seq![text[0]] + field, rest)
    }
}

/// The first command in a text and what stands behind it, as git reads its input: a verb
/// and a ref up to the first zero character; then the new commit, unless the ref is to
/// go; then the commit that the ref has to point to, unless it is to be made.
pub open spec fn command_in(text: Text) -> Option<(RefCommand, Text)> {
    let (head, first) = field_of(text);
    let (one, second) = field_of(first);
    let (two, third) = field_of(second);
    if "update "@.is_prefix_of(head) {
        Some((RefCommand::Update { name: head.skip(7), to: one, from: two }, third))
    } else if "create "@.is_prefix_of(head) {
        Some((RefCommand::Create { name: head.skip(7), to: one }, second))
    } else if "delete "@.is_prefix_of(head) {
        Some((RefCommand::Delete { name: head.skip(7), from: one }, second))
    } else {
        None
    }
}

/// Whether a text reads as these commands and nothing else.
pub open spec fn reads_as(text: Text, commands: Seq<RefCommand>) -> bool
    decreases commands.len(),
{
    if commands.len() == 0 {
        text.len() == 0
    } else {
        command_in(text) matches Some((command, rest)) && command == commands[0] && reads_as(
            rest,
            commands.drop_first(),
        )
    }
}

/// Whether no field of a command holds a zero character.
pub open spec fn is_sendable(command: RefCommand) -> bool {
    match command {
        RefCommand::Update { name, to, from } => !name.contains('\0') && !to.contains('\0')
            && !from.contains('\0'),
        RefCommand::Create { name, to } => !name.contains('\0') && !to.contains('\0'),
        RefCommand::Delete { name, from } => !name.contains('\0') && !from.contains('\0'),
    }
}

proof fn fields_are_read(field: Text, rest: Text)
    requires
        !field.contains('\0'),
    ensures
        field_of(field + "\0"@ + rest) == (field, rest),
    decreases field.len(),
{
    reveal_strlit("\0");
    let text = field + "\0"@ + rest;
    if field.len() == 0 {
        assert(text[0] == '\0');
        assert(text.drop_first() =~= rest);
        assert(field =~= Seq::empty());
    } else {
        let tail = field.drop_first();
        assert forall|i: int| 0 <= i < tail.len() implies tail[i] != '\0' by {
            assert(field[i + 1] != '\0') by {
                if field[i + 1] == '\0' {
                    assert(field.contains('\0'));
                }
            }
        }
        assert(field[0] != '\0') by {
            if field[0] == '\0' {
                assert(field.contains('\0'));
            }
        }
        fields_are_read(tail, rest);
        assert(text.drop_first() =~= tail + "\0"@ + rest);
        assert(seq![field[0]] + tail =~= field);
    }
}

proof fn heads_are_read(verb: Text, name: Text)
    requires
        verb == "update "@ || verb == "create "@ || verb == "delete "@,
        !name.contains('\0'),
    ensures
        verb.is_prefix_of(verb + name),
        (verb + name).skip(7) == name,
        !(verb + name).contains('\0'),
        verb == "create "@ ==> !("update "@.is_prefix_of(verb + name)),
        verb == "delete "@ ==> !("update "@.is_prefix_of(verb + name)),
        verb == "delete "@ ==> !("create "@.is_prefix_of(verb + name)),
{
    reveal_strlit("update ");
    reveal_strlit("create ");
    reveal_strlit("delete ");
    let head = verb + name;
    assert(verb.len() == 7);
    assert(head.take(7) =~= verb);
    assert(head.skip(7) =~= name);
    assert("update "@[0] == 'u');
    assert("create "@[0] == 'c');
    assert("delete "@[0] == 'd');
    assert(head[0] == verb[0]);
    assert forall|i: int| 0 <= i < head.len() implies head[i] != '\0' by {
        if i >= 7 {
            assert(head[i] == name[i - 7]);
            if name[i - 7] == '\0' {
                assert(name.contains('\0'));
            }
        }
    }
}

proof fn an_update_is_read(text: Text, name: Text, to: Text, from: Text, rest: Text)
    requires
        is_sendable(RefCommand::Update { name, to, from }),
        text == command_text(RefCommand::Update { name, to, from }) + rest,
    ensures
        command_in(text) matches Some((command, left)) && command == (RefCommand::Update {
            name,
            to,
            from,
        }) && left == rest,
{
    let head = "update "@ + name;
    let second = from + "\0"@ + rest;
    let first = to + "\0"@ + second;
    heads_are_read("update "@, name);
    assert(text =~= head + "\0"@ + first);
    fields_are_read(head, first);
    fields_are_read(to, second);
    fields_are_read(from, rest);
}

proof fn a_command_is_read(command: RefCommand, rest: Text)
    requires
        is_sendable(command),
    ensures
        command_in(command_text(command) + rest) matches Some((read, left)) && read == command
            && left == rest,
{
    let text = command_text(command) + rest;
    match command {
        RefCommand::Update { name, to, from } => {
            an_update_is_read(text, name, to, from, rest);
        },
        RefCommand::Create { name, to } => {
            let head = "create "@ + name;
            heads_are_read("create "@, name);
            let first = to + "\0"@ + rest;
            assert(text =~= head + "\0"@ + first);
            fields_are_read(head, first);
            fields_are_read(to, rest);
        },
        RefCommand::Delete { name, from } => {
            let head = "delete "@ + name;
            heads_are_read("delete "@, name);
            let first = from + "\0"@ + rest;
            assert(text =~= head + "\0"@ + first);
            fields_are_read(head, first);
            fields_are_read(from, rest);
        },
    }
}

proof fn commands_from_the_front(commands: Seq<RefCommand>)
    requires
        commands.len() > 0,
    ensures
        commands_text(commands) == command_text(commands[0]) + commands_text(commands.drop_first()),
    decreases commands.len(),
{
    if commands.len() == 1 {
        assert(commands.drop_last().len() == 0);
        assert(commands.drop_first().len() == 0);
        assert(commands_text(commands.drop_last()) == Seq::<char>::empty());
        assert(commands_text(commands.drop_first()) == Seq::<char>::empty());
        assert(commands_text(commands) =~= command_text(commands[0]) + commands_text(
            commands.drop_first(),
        ));
    } else {
        let init = commands.drop_last();
        commands_from_the_front(init);
        assert(init.drop_first() =~= commands.drop_first().drop_last());
        assert(commands_text(commands) =~= command_text(commands[0]) + (commands_text(
            init.drop_first(),
        ) + command_text(commands.last())));
    }
}

/// Git reads the commands that were meant: which ref, where to and where from, in their
/// order.
pub proof fn git_reads_the_commands_that_were_meant(commands: Seq<RefCommand>)
    requires
        forall|i: int| 0 <= i < commands.len() ==> is_sendable(#[trigger] commands[i]),
    ensures
        reads_as(commands_text(commands), commands),
    decreases commands.len(),
{
    if commands.len() > 0 {
        let rest = commands.drop_first();
        commands_from_the_front(commands);
        assert forall|i: int| 0 <= i < rest.len() implies is_sendable(#[trigger] rest[i]) by {
            assert(rest[i] == commands[i + 1]);
        }
        git_reads_the_commands_that_were_meant(rest);
        a_command_is_read(commands[0], commands_text(rest));
    }
}

// ---------------------------------------------------------------------------
// What the user asks for
// ---------------------------------------------------------------------------
/// Whether this is the rehearsal that the words name: the first of them that is not a
/// flag.
pub open spec fn is_named(id: Option<Text>, words: Seq<Text>) -> bool {
    match id {
        Some(id) => exists|i: int|
            0 <= i < words.len() && #[trigger] words[i] == id && !("-"@.is_prefix_of(id))
                && forall|j: int| 0 <= j < i ==> "-"@.is_prefix_of(#[trigger] words[j]),
        None => forall|j: int| 0 <= j < words.len() ==> "-"@.is_prefix_of(#[trigger] words[j]),
    }
}

proof fn ids_are_named(words: Seq<Text>)
    ensures
        is_named(id_in(words), words),
    decreases words.len(),
{
    if words.len() > 0 {
        let rest = words.drop_first();
        ids_are_named(rest);
        if "-"@.is_prefix_of(words[0]) {
            match id_in(rest) {
                Some(id) => {
                    let i = choose|i: int|
                        0 <= i < rest.len() && #[trigger] rest[i] == id && !("-"@.is_prefix_of(id))
                            && forall|j: int|
                            0 <= j < i ==> "-"@.is_prefix_of(#[trigger] rest[j]);
                    assert(words[i + 1] == id);
                    assert forall|j: int| 0 <= j < i + 1 implies "-"@.is_prefix_of(
                        #[trigger] words[j],
                    ) by {
                        if j > 0 {
                            assert(rest[j - 1] == words[j]);
                        }
                    }
                },
                None => {
                    assert forall|j: int| 0 <= j < words.len() implies "-"@.is_prefix_of(
                        #[trigger] words[j],
                    ) by {
                        if j > 0 {
                            assert(rest[j - 1] == words[j]);
                        }
                    }
                },
            }
        } else {
            assert(words[0] == words[0]);
        }
    }
}

proof fn words_are_told_apart()
    ensures
        forall|word: Text|
            word == "list"@ || word == "show"@ || word == "continue"@ || word == "apply"@ || word
                == "undo"@ || word == "discard"@ ==> !(#[trigger] is_rehearsable(word))
                && !is_switch(word) && word != "-h"@ && word != "--help"@ && word
                != "-V"@ && word != "--version"@ && word != "--todo"@ && word != "--"@ && word
                != SEQUENCE_EDITOR_ARG@,
        "list"@ != "show"@,
        "list"@ != "undo"@,
        "show"@ != "undo"@,
        "list"@ != "apply"@,
        "show"@ != "apply"@,
        "undo"@ != "apply"@,
        "continue"@ != "list"@,
        "continue"@ != "show"@,
        "continue"@ != "undo"@,
        "continue"@ != "apply"@,
        "discard"@ != "list"@,
        "discard"@ != "show"@,
        "discard"@ != "undo"@,
        "discard"@ != "apply"@,
        "discard"@ != "continue"@,
{
    reveal_strlit("list");
    reveal_strlit("show");
    reveal_strlit("undo");
    reveal_strlit("apply");
    reveal_strlit("continue");
    reveal_strlit("discard");
    reveal_strlit("rebase");
    reveal_strlit("merge");
    reveal_strlit("cherry-pick");
    reveal_strlit("--");
    reveal_strlit("-h");
    reveal_strlit("--help");
    reveal_strlit("-V");
    reveal_strlit("--version");
    reveal_strlit("--apply");
    reveal_strlit("--keep");
    reveal_strlit("--json");
    reveal_strlit("--stat-only");
    reveal_strlit("--todo");
    reveal_strlit("__sequence-editor");
    assert("list"@.len() == 4 && "list"@[0] == 'l');
    assert("show"@.len() == 4 && "show"@[0] == 's');
    assert("undo"@.len() == 4 && "undo"@[0] == 'u');
    assert("apply"@.len() == 5 && "apply"@[0] == 'a');
    assert("merge"@.len() == 5 && "merge"@[0] == 'm');
    assert("continue"@.len() == 8 && "continue"@[0] == 'c');
    assert("discard"@.len() == 7 && "discard"@[0] == 'd');
    assert("rebase"@.len() == 6 && "rebase"@[0] == 'r');
    assert("cherry-pick"@.len() == 11);
    assert("--"@[0] == '-');
    assert("-h"@[0] == '-');
    assert("--help"@[0] == '-');
    assert("-V"@[0] == '-');
    assert("--version"@[0] == '-');
    assert("--apply"@[0] == '-');
    assert("--keep"@[0] == '-');
    assert("--json"@[0] == '-');
    assert("--stat-only"@[0] == '-');
    assert("--todo"@[0] == '-');
    assert(SEQUENCE_EDITOR_ARG@[0] == '_');
}

/// Each word means its command, of the rehearsal that is named behind it.
pub proof fn words_mean_their_commands(options: Seq<Text>, rest: Seq<Text>)
    requires
        are_options(options),
    ensures
        parsed(options + (seq!["list"@] + rest)) == Ok::<CommandModel, Fault>(CommandModel::List),
        parsed(options + (seq!["show"@] + rest)) matches Ok(CommandModel::Show { id }) && is_named(
            id,
            rest,
        ),
        parsed(options + (seq!["apply"@] + rest)) matches Ok(CommandModel::Apply { id })
            && is_named(id, rest),
        parsed(options + (seq!["undo"@] + rest)) matches Ok(CommandModel::Undo { id })
            && is_named(id, rest),
        parsed(options + (seq!["continue"@] + rest)) matches Ok(
            CommandModel::Continue { id, decision },
        ) && is_named(id, rest) && decision == decision_among(options, Decision::Ask),
        parsed(options + (seq!["discard"@] + rest)) matches Ok(CommandModel::Discard { id, all })
            && is_named(id, rest) && (all <==> rest.contains("--all"@)),
{
    words_are_told_apart();
    ids_are_named(rest);
    a_word_is_read(options, "list"@, rest);
    a_word_is_read(options, "show"@, rest);
    a_word_is_read(options, "apply"@, rest);
    a_word_is_read(options, "undo"@, rest);
    a_word_is_read(options, "continue"@, rest);
    a_word_is_read(options, "discard"@, rest);
}

proof fn a_word_is_read(options: Seq<Text>, word: Text, rest: Seq<Text>)
    requires
        are_options(options),
        word == "list"@ || word == "show"@ || word == "continue"@ || word == "apply"@ || word
            == "undo"@ || word == "discard"@,
    ensures
        parsed(options + (seq![word] + rest)) == match management(
            word,
            rest,
            decision_among(options, Decision::Ask),
        ) {
            Some(command) => Ok::<CommandModel, Fault>(command),
            None => Err(unknown_command(word)),
        },
{
    words_are_told_apart();
    let args = seq![word] + rest;
    assert(args.drop_first() =~= rest);
    assert(!is_rehearsable(word));
    options_come_first(options, args, None, Decision::Ask);
}

proof fn one_more_is_still_options(options: Seq<Text>, word: Text, earlier: Decision)
    requires
        are_options(options),
        is_switch(word),
    ensures
        are_options(options.push(word)),
        word == "--apply"@ ==> decision_among(options.push(word), earlier) == Decision::Apply,
        word == "--keep"@ ==> decision_among(options.push(word), earlier) == Decision::Keep,
        word != "--apply"@ && word != "--keep"@ ==> decision_among(options.push(word), earlier)
            == decision_among(options, earlier),
    decreases options.len(),
{
    options_are_told_apart();
    let more = options.push(word);
    reveal_with_fuel(decision_among, 2);
    reveal_with_fuel(are_options, 2);
    if options.len() == 0 {
        assert(more[0] == word);
        assert(more.drop_first().len() == 0);
    } else if is_switch(options[0]) && are_options(options.drop_first()) {
        let given = if options[0] == "--apply"@ {
            Decision::Apply
        } else if options[0] == "--keep"@ {
            Decision::Keep
        } else {
            earlier
        };
        one_more_is_still_options(options.drop_first(), word, given);
        assert(more[0] == options[0]);
        assert(more.drop_first() =~= options.drop_first().push(word));
    } else {
        one_more_is_still_options(options.skip(2), word, earlier);
        assert(more[0] == options[0]);
        assert(more.skip(2) =~= options.skip(2).push(word));
    }
}

/// The last option that decides is the one that counts, whatever stands in front of it;
/// the others decide nothing, and neither does their absence.
pub proof fn the_last_option_decides(options: Seq<Text>)
    requires
        are_options(options),
    ensures
        decision_among(Seq::empty(), Decision::Ask) == Decision::Ask,
        decision_among(options.push("--apply"@), Decision::Ask) == Decision::Apply,
        decision_among(options.push("--keep"@), Decision::Ask) == Decision::Keep,
        decision_among(options.push("--json"@), Decision::Ask) == decision_among(
            options,
            Decision::Ask,
        ),
        decision_among(options.push("--stat-only"@), Decision::Ask) == decision_among(
            options,
            Decision::Ask,
        ),
{
    options_are_told_apart();
    one_more_is_still_options(options, "--apply"@, Decision::Ask);
    one_more_is_still_options(options, "--keep"@, Decision::Ask);
    one_more_is_still_options(options, "--json"@, Decision::Ask);
    one_more_is_still_options(options, "--stat-only"@, Decision::Ask);
}

// ---------------------------------------------------------------------------
// Where rehearsals are kept
// ---------------------------------------------------------------------------
/// A directory that was chosen for the cache is taken as it is; elsewhere the cache is a
/// directory of our own, in a cache home that is an absolute path, or else in that of the
/// platform.
pub proof fn the_cache_is_where_it_belongs(
    chosen: Text,
    home: Text,
    xdg: Option<Text>,
    platform: Option<Text>,
)
    requires
        chosen.len() > 0,
    ensures
        root_of(Some(chosen), xdg, platform) == Some(chosen),
        root_of(Some(Seq::empty()), xdg, platform) == root_of(None, xdg, platform),
        is_absolute(home) ==> root_of(None, Some(home), platform) == Some(
            inside(home, "git-rehearse"@),
        ),
        !is_absolute(home) ==> root_of(None, Some(home), platform) == root_of(
            None,
            None,
            platform,
        ),
        root_of(None, None, platform) is None <==> platform is None,
        platform matches Some(base) ==> root_of(None, None, platform) == Some(
            inside(base, "git-rehearse"@),
        ),
{
}

// ---------------------------------------------------------------------------
// How git lists settings
// ---------------------------------------------------------------------------
proof fn lines_are_measured(line: Seq<u8>, rest: Seq<u8>)
    requires
        !line.contains(10u8),
    ensures
        line_length(line) == line.len(),
        line_length(line + seq![10u8] + rest) == line.len(),
    decreases line.len(),
{
    let whole = line + seq![10u8] + rest;
    if line.len() == 0 {
        assert(whole[0] == 10u8);
    } else {
        let tail = line.drop_first();
        assert(line.contains(line[0]));
        assert forall|i: int| 0 <= i < tail.len() implies tail[i] != 10u8 by {
            assert(line.contains(line[i + 1]));
        }
        lines_are_measured(tail, rest);
        assert(whole.drop_first() =~= tail + seq![10u8] + rest);
        assert(whole[0] == line[0]);
    }
}

/// A setting is what git lists: a key, and behind the end of its line a value, which may
/// itself go over several lines; or a key alone.
pub proof fn settings_are_as_git_lists_them(key: Seq<u8>, value: Seq<u8>)
    requires
        !key.contains(10u8),
    ensures
        entry_of(key + seq![10u8] + value) == (EntryModel { key, value: Some(value) }),
        entry_of(key) == (EntryModel { key, value: None }),
{
    lines_are_measured(key, value);
    let whole = key + seq![10u8] + value;
    assert(whole.take(key.len() as int) =~= key);
    assert(whole.skip(key.len() as int + 1) =~= value);
}

/// A key is a section and a variable, whatever dots the section holds.
pub proof fn keys_are_split_at_their_last_dot(section: Seq<u8>, variable: Seq<u8>)
    requires
        !variable.contains(46u8),
    ensures
        key_parts(section + seq![46u8] + variable) == Some((section, variable)),
        key_parts(variable) is None,
    decreases variable.len(),
{
    let key = section + seq![46u8] + variable;
    if variable.len() == 0 {
        assert(key.last() == 46u8);
        assert(key.drop_last() =~= section);
        assert(variable =~= Seq::empty());
    } else {
        let init = variable.drop_last();
        assert(variable.contains(variable.last()));
        assert forall|i: int| 0 <= i < init.len() implies init[i] != 46u8 by {
            assert(variable.contains(variable[i]));
        }
        keys_are_split_at_their_last_dot(section, init);
        assert(key.drop_last() =~= section + seq![46u8] + init);
        assert(init.push(variable.last()) =~= variable);
    }
}

} // verus!
