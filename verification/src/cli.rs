//! The command surface.
//!
//! This tool's whole job is to hand somebody else's git command to git
//! untouched. So there is one rule: our own options come before the command. The
//! first word that is not one of ours starts the git command, and everything
//! after it is git's.

use vstd::prelude::*;

use crate::cli::flow::{Setting, SettingModel};
use crate::compose::{args1, cat2, cat3, cat5, chain};
use crate::error::{Error, Fault};
use crate::execute::{write_todo, write_todo_script, SEQUENCE_EDITOR_ARG};
use crate::json::{failure_of, Document, DocumentModel, Failure};
use crate::parts::starts_with;
use crate::report::{say, say_script, Detail};
use crate::session::{ran, Run, Session, Stop, Tape};
use crate::text::{copy_text, holds, put, same, Text};

pub mod exit;
pub mod flow;
pub mod promises;

verus! {

/// The version of this program.
pub const VERSION: &'static str = "1.2.0";

/// What the user asked for.
#[allow(inconsistent_fields)]
#[derive(Debug, PartialEq, Eq)]
pub enum Command {
    Help,
    Version,
    /// Rehearse a git command.
    Rehearse {
        /// The command, as git will receive it.
        command: Vec<String>,
        /// A prepared rebase todo, from `--todo`.
        todo: Option<String>,
        /// What to do with the result afterwards.
        decision: Decision,
    },
    /// List kept rehearsals.
    List,
    /// Print a rehearsal's report again.
    Show { id: Option<String> },
    /// Carry on a rehearsal that stopped, once its conflicts are resolved.
    Continue {
        id: Option<String>,
        /// What to do with the result: continuing a rehearsal ends where
        /// rehearsing does.
        decision: Decision,
    },
    /// Apply a rehearsal.
    Apply { id: Option<String> },
    /// Put the refs back where the last apply found them.
    Undo { id: Option<String> },
    /// Throw one, or all, away.
    Discard { id: Option<String>, all: bool },
    /// git calling us as its sequence editor. Not user-facing.
    SequenceEditor { todo: String, target: String },
}

/// The model of a [`Command`].
#[allow(inconsistent_fields)]
pub enum CommandModel {
    Help,
    Version,
    Rehearse { command: Seq<Text>, todo: Option<Text>, decision: Decision },
    List,
    Show { id: Option<Text> },
    Continue { id: Option<Text>, decision: Decision },
    Apply { id: Option<Text> },
    Undo { id: Option<Text> },
    Discard { id: Option<Text>, all: bool },
    SequenceEditor { todo: Text, target: Text },
}

impl DeepView for Command {
    type V = CommandModel;

    open spec fn deep_view(&self) -> CommandModel {
        match self {
            Command::Help => CommandModel::Help,
            Command::Version => CommandModel::Version,
            Command::Rehearse { command, todo, decision } => CommandModel::Rehearse {
                command: command.deep_view(),
                todo: todo.deep_view(),
                decision: *decision,
            },
            Command::List => CommandModel::List,
            Command::Show { id } => CommandModel::Show { id: id.deep_view() },
            Command::Continue { id, decision } => CommandModel::Continue {
                id: id.deep_view(),
                decision: *decision,
            },
            Command::Apply { id } => CommandModel::Apply { id: id.deep_view() },
            Command::Undo { id } => CommandModel::Undo { id: id.deep_view() },
            Command::Discard { id, all } => CommandModel::Discard {
                id: id.deep_view(),
                all: *all,
            },
            Command::SequenceEditor { todo, target } => CommandModel::SequenceEditor {
                todo: todo@,
                target: target@,
            },
        }
    }
}

/// How the question at the end of a rehearsal gets answered.
#[derive(Debug, Clone, Copy, PartialEq, Eq, Structural)]
pub enum Decision {
    /// Ask, if there is anybody to ask.
    Ask,
    /// `--apply`.
    Apply,
    /// `--keep`.
    Keep,
}

// ---------------------------------------------------------------------------
// Options
// ---------------------------------------------------------------------------
/// Whether a word is one of our options that stand alone.
pub open spec fn is_switch(word: Text) -> bool {
    word == "--apply"@ || word == "--keep"@ || word == "--json"@ || word == "--stat-only"@
}

/// Whether an option of ours is given, that is before the command.
pub open spec fn has_option(args: Seq<Text>, option: Text) -> bool
    decreases args.len(),
{
    if args.len() == 0 {
        false
    } else if args[0] == option {
        true
    } else if is_switch(args[0]) {
        has_option(args.drop_first(), option)
    } else if args[0] == "--todo"@ && args.len() > 1 {
        has_option(args.skip(2), option)
    } else {
        false
    }
}

fn switch(word: &str) -> (yes: bool)
    ensures
        yes == is_switch(word@),
{
    same(word, "--apply") || same(word, "--keep") || same(word, "--json") || same(
        word,
        "--stat-only",
    )
}

fn given(args: &Vec<String>, option: &str) -> (yes: bool)
    ensures
        yes == has_option(args.deep_view(), option@),
{
    let ghost all = args.deep_view();
    let len = args.len();
    let mut i: usize = 0;
    assert(all.skip(0) =~= all);
    while i < len
        invariant
            i <= len == args@.len(),
            all == args.deep_view(),
            has_option(all, option@) == has_option(all.skip(i as int), option@),
        decreases len - i,
    {
        let arg = &args[i];
        assert(all.skip(i as int)[0] == arg@);
        assert(all.skip(i as int).drop_first() =~= all.skip(i + 1));
        if same(arg, option) {
            return true;
        }
        if switch(arg) {
            i = i + 1;
        } else if same(arg, "--todo") && len - i > 1 {
            assert(all.skip(i as int).skip(2) =~= all.skip(i + 2));
            i = i + 2;
        } else {
            return false;
        }
    }
    false
}

/// Whether the caller asked for JSON. It is read off the arguments rather than
/// the parsed command, because parsing is one of the things that can fail.
pub fn wants_json(args: &Vec<String>) -> (yes: bool)
    ensures
        yes == has_option(args.deep_view(), "--json"@),
{
    given(args, "--json")
}

/// How much of the report the caller wants drawn.
pub fn wanted_detail(args: &Vec<String>) -> (detail: Detail)
    ensures
        detail == (if has_option(args.deep_view(), "--stat-only"@) {
            Detail::StatOnly
        } else {
            Detail::Full
        }),
{
    if given(args, "--stat-only") {
        Detail::StatOnly
    } else {
        Detail::Full
    }
}

// ---------------------------------------------------------------------------
// Commands
// ---------------------------------------------------------------------------
/// Whether a word is a flag.
pub open spec fn is_flag(word: Text) -> bool {
    "-"@.is_prefix_of(word)
}

/// The first argument that is not a flag.
pub open spec fn id_in(args: Seq<Text>) -> Option<Text>
    decreases args.len(),
{
    if args.len() == 0 {
        None
    } else if !is_flag(args[0]) {
        Some(args[0])
    } else {
        id_in(args.drop_first())
    }
}

/// Whether a word is a command that is worth rehearsing.
pub open spec fn is_rehearsable(word: Text) -> bool {
    word == "rebase"@ || word == "merge"@ || word == "cherry-pick"@
}

pub open spec fn todo_needs_a_file() -> Fault {
    Fault::Refused("--todo needs a file.\nUsage: --todo <file>"@)
}

pub open spec fn command_missing() -> Fault {
    Fault::Refused(
        "`--` needs a git command after it.\nFor example: git rehearse -- rebase -i main"@,
    )
}

pub open spec fn editor_misused() -> Fault {
    Fault::Refused(SEQUENCE_EDITOR_ARG@ + " is internal and takes exactly two paths"@)
}

pub open spec fn unknown_command(word: Text) -> Fault {
    Fault::Refused(
        "'"@ + word
            + "' is not a git-rehearse command.\nRehearse rebase, merge or cherry-pick directly, use `--` for anything else (`git rehearse -- "@
            + word + "`), or see --help."@,
    )
}

/// What a management command asks for, given what stands behind it.
pub open spec fn management(word: Text, rest: Seq<Text>, decision: Decision) -> Option<
    CommandModel,
> {
    if word == "list"@ {
        Some(CommandModel::List)
    } else if word == "show"@ {
        Some(CommandModel::Show { id: id_in(rest) })
    } else if word == "continue"@ {
        Some(CommandModel::Continue { id: id_in(rest), decision })
    } else if word == "apply"@ {
        Some(CommandModel::Apply { id: id_in(rest) })
    } else if word == "undo"@ {
        Some(CommandModel::Undo { id: id_in(rest) })
    } else if word == "discard"@ {
        Some(CommandModel::Discard { id: id_in(rest), all: rest.contains("--all"@) })
    } else {
        None
    }
}

/// What a word that is not an option asks for, given what stands behind it.
pub open spec fn commanded(
    word: Text,
    rest: Seq<Text>,
    todo: Option<Text>,
    decision: Decision,
) -> Result<CommandModel, Fault> {
    if word == "--"@ {
        if rest.len() == 0 {
            Err(command_missing())
        } else {
            Ok(CommandModel::Rehearse { command: rest, todo, decision })
        }
    } else if word == SEQUENCE_EDITOR_ARG@ {
        if rest.len() < 2 {
            Err(editor_misused())
        } else {
            Ok(CommandModel::SequenceEditor { todo: rest[0], target: rest[1] })
        }
    } else if is_rehearsable(word) {
        Ok(CommandModel::Rehearse { command: seq![word] + rest, todo, decision })
    } else {
        match management(word, rest, decision) {
            Some(command) => Ok(command),
            None => Err(unknown_command(word)),
        }
    }
}

/// What the arguments ask for, with the options so far.
pub open spec fn parsed_from(args: Seq<Text>, todo: Option<Text>, decision: Decision) -> Result<
    CommandModel,
    Fault,
>
    decreases args.len(),
{
    if args.len() == 0 {
        Ok(CommandModel::Help)
    } else {
        let word = args[0];
        let rest = args.drop_first();
        if word == "-h"@ || word == "--help"@ {
            Ok(CommandModel::Help)
        } else if word == "-V"@ || word == "--version"@ {
            Ok(CommandModel::Version)
        } else if word == "--apply"@ {
            parsed_from(rest, todo, Decision::Apply)
        } else if word == "--keep"@ {
            parsed_from(rest, todo, Decision::Keep)
        } else if word == "--json"@ || word == "--stat-only"@ {
            parsed_from(rest, todo, decision)
        } else if word == "--todo"@ {
            if rest.len() == 0 {
                Err(todo_needs_a_file())
            } else {
                parsed_from(args.skip(2), Some(args[1]), decision)
            }
        } else {
            commanded(word, rest, todo, decision)
        }
    }
}

/// What the arguments ask for.
pub open spec fn parsed(args: Seq<Text>) -> Result<CommandModel, Fault> {
    parsed_from(args, None, Decision::Ask)
}

/// The model of a parse.
pub open spec fn parse_view(outcome: Result<Command, Error>) -> Result<CommandModel, Fault> {
    match outcome {
        Ok(command) => Ok(command.deep_view()),
        Err(error) => Err(error.deep_view()),
    }
}

/// The arguments from one on.
fn from(args: &Vec<String>, first: usize) -> (rest: Vec<String>)
    requires
        first <= args@.len(),
    ensures
        rest.deep_view() == args.deep_view().skip(first as int),
{
    let ghost all = args.deep_view();
    let mut rest: Vec<String> = Vec::new();
    let mut i: usize = first;
    assert(rest.deep_view() =~= all.subrange(first as int, first as int));
    while i < args.len()
        invariant
            first <= i <= args@.len(),
            all == args.deep_view(),
            rest.deep_view() == all.subrange(first as int, i as int),
        decreases args@.len() - i,
    {
        put(&mut rest, args[i].clone());
        i = i + 1;
        assert(all.subrange(first as int, i as int) =~= all.subrange(
            first as int,
            i - 1,
        ).push(args[i - 1]@));
    }
    assert(all.subrange(first as int, all.len() as int) =~= all.skip(first as int));
    rest
}

fn id_from(args: &Vec<String>) -> (id: Option<String>)
    ensures
        id.deep_view() == id_in(args.deep_view()),
{
    let ghost all = args.deep_view();
    let mut i: usize = 0;
    assert(all.skip(0) =~= all);
    while i < args.len()
        invariant
            i <= args@.len(),
            all == args.deep_view(),
            id_in(all) == id_in(all.skip(i as int)),
        decreases args@.len() - i,
    {
        assert(all.skip(i as int).drop_first() =~= all.skip(i + 1));
        assert(all.skip(i as int)[0] == args[i as int]@);
        if !starts_with(&args[i], "-") {
            return Some(args[i].clone());
        }
        i = i + 1;
    }
    None
}

fn manage(word: &str, rest: &Vec<String>, decision: Decision) -> (command: Option<Command>)
    ensures
        command.deep_view() == management(word@, rest.deep_view(), decision),
{
    if same(word, "list") {
        Some(Command::List)
    } else if same(word, "show") {
        Some(Command::Show { id: id_from(rest) })
    } else if same(word, "continue") {
        Some(Command::Continue { id: id_from(rest), decision })
    } else if same(word, "apply") {
        Some(Command::Apply { id: id_from(rest) })
    } else if same(word, "undo") {
        Some(Command::Undo { id: id_from(rest) })
    } else if same(word, "discard") {
        Some(Command::Discard { id: id_from(rest), all: holds(rest, "--all") })
    } else {
        None
    }
}

fn command_of(word: &str, rest: Vec<String>, todo: Option<String>, decision: Decision) -> (outcome:
    Result<Command, Error>)
    ensures
        parse_view(outcome) == commanded(word@, rest.deep_view(), todo.deep_view(), decision),
{
    if same(word, "--") {
        return if rest.len() == 0 {
            Err(
                Error::Refused(
                    "`--` needs a git command after it.\nFor example: git rehearse -- rebase -i main".to_owned(),
                ),
            )
        } else {
            Ok(Command::Rehearse { command: rest, todo, decision })
        };
    }
    if same(word, SEQUENCE_EDITOR_ARG) {
        return if rest.len() < 2 {
            Err(
                Error::Refused(
                    cat2(SEQUENCE_EDITOR_ARG, " is internal and takes exactly two paths"),
                ),
            )
        } else {
            assert(rest.deep_view()[0] == rest[0]@);
            assert(rest.deep_view()[1] == rest[1]@);
            Ok(Command::SequenceEditor { todo: rest[0].clone(), target: rest[1].clone() })
        };
    }
    if same(word, "rebase") || same(word, "merge") || same(word, "cherry-pick") {
        let command = chain(args1(word), &rest);
        return Ok(Command::Rehearse { command, todo, decision });
    }
    match manage(word, &rest, decision) {
        Some(command) => Ok(command),
        None => Err(
            Error::Refused(
                cat5(
                    "'",
                    word,
                    "' is not a git-rehearse command.\nRehearse rebase, merge or cherry-pick directly, use `--` for anything else (`git rehearse -- ",
                    word,
                    "`), or see --help.",
                ),
            ),
        ),
    }
}

/// Parses the argument list. What is not a command that this version understands
/// is refused.
pub fn parse(args: &Vec<String>) -> (outcome: Result<Command, Error>)
    ensures
        parse_view(outcome) == parsed(args.deep_view()),
{
    let ghost all = args.deep_view();
    let len = args.len();
    let mut decision = Decision::Ask;
    let mut todo: Option<String> = None;
    let mut i: usize = 0;
    assert(all.skip(0) =~= all);
    while i < len
        invariant
            i <= len == args@.len(),
            all == args.deep_view(),
            parsed(all) == parsed_from(all.skip(i as int), todo.deep_view(), decision),
        decreases len - i,
    {
        let word = &args[i];
        assert(all.skip(i as int)[0] == word@);
        assert(all.skip(i as int).drop_first() =~= all.skip(i + 1));
        if same(word, "-h") || same(word, "--help") {
            return Ok(Command::Help);
        }
        if same(word, "-V") || same(word, "--version") {
            return Ok(Command::Version);
        }
        if same(word, "--apply") {
            decision = Decision::Apply;
            i = i + 1;
        } else if same(word, "--keep") {
            decision = Decision::Keep;
            i = i + 1;
        } else if same(word, "--json") || same(word, "--stat-only") {
            i = i + 1;
        } else if same(word, "--todo") {
            if len - i == 1 {
                return Err(
                    Error::Refused("--todo needs a file.\nUsage: --todo <file>".to_owned()),
                );
            }
            assert(all.skip(i as int).skip(2) =~= all.skip(i + 2));
            assert(all.skip(i as int)[1] == args[i + 1]@);
            todo = Some(args[i + 1].clone());
            i = i + 2;
        } else {
            return command_of(word, from(args, i + 1), copy_text(&todo), decision);
        }
    }
    Ok(Command::Help)
}

/// Whether these words are options of ours and nothing else.
pub open spec fn are_options(words: Seq<Text>) -> bool
    decreases words.len(),
{
    ||| words.len() == 0
    ||| words.len() > 0 && is_switch(words[0]) && are_options(words.drop_first())
    ||| words.len() > 1 && words[0] == "--todo"@ && are_options(words.skip(2))
}

/// The file that options name as a prepared todo: the last one, or an earlier
/// one where they name none.
pub open spec fn todo_among(options: Seq<Text>, earlier: Option<Text>) -> Option<Text>
    decreases options.len(),
{
    if options.len() == 0 {
        earlier
    } else if options.len() > 1 && options[0] == "--todo"@ {
        todo_among(options.skip(2), Some(options[1]))
    } else {
        todo_among(options.drop_first(), earlier)
    }
}

/// What options decide: the last that decides anything, or what was decided
/// earlier.
pub open spec fn decision_among(options: Seq<Text>, earlier: Decision) -> Decision
    decreases options.len(),
{
    if options.len() == 0 {
        earlier
    } else if options.len() > 1 && options[0] == "--todo"@ {
        decision_among(options.skip(2), earlier)
    } else if options[0] == "--apply"@ {
        decision_among(options.drop_first(), Decision::Apply)
    } else if options[0] == "--keep"@ {
        decision_among(options.drop_first(), Decision::Keep)
    } else {
        decision_among(options.drop_first(), earlier)
    }
}

/// Options in front say what they say, and the rest is read as if it stood alone.
pub proof fn options_come_first(
    options: Seq<Text>,
    rest: Seq<Text>,
    todo: Option<Text>,
    decision: Decision,
)
    requires
        are_options(options),
    ensures
        parsed_from(options + rest, todo, decision) == parsed_from(
            rest,
            todo_among(options, todo),
            decision_among(options, decision),
        ),
    decreases options.len(),
{
    options_are_told_apart();
    let args = options + rest;
    if options.len() == 0 {
        assert(args =~= rest);
    } else if is_switch(options[0]) && are_options(options.drop_first()) {
        let given = if options[0] == "--apply"@ {
            Decision::Apply
        } else if options[0] == "--keep"@ {
            Decision::Keep
        } else {
            decision
        };
        assert(args.drop_first() =~= options.drop_first() + rest);
        options_come_first(options.drop_first(), rest, todo, given);
    } else {
        assert(args.skip(2) =~= options.skip(2) + rest);
        options_come_first(options.skip(2), rest, Some(options[1]), decision);
    }
}

/// An option is given where it stands among the options in front.
proof fn options_are_in_front(options: Seq<Text>, rest: Seq<Text>, option: Text)
    requires
        are_options(options),
        !has_option(rest, option),
    ensures
        has_option(options + rest, option) == has_option(options, option),
    decreases options.len(),
{
    options_are_told_apart();
    let args = options + rest;
    if options.len() == 0 {
        assert(args =~= rest);
    } else if is_switch(options[0]) && are_options(options.drop_first()) {
        assert(args.drop_first() =~= options.drop_first() + rest);
        options_are_in_front(options.drop_first(), rest, option);
    } else {
        assert(args.skip(2) =~= options.skip(2) + rest);
        options_are_in_front(options.skip(2), rest, option);
    }
}

/// Our options come before the command, and everything behind the command belongs
/// to git: whatever follows a command that is worth rehearsing is handed on as it
/// stands, in that order, and what is decided, which todo is meant and how the
/// answer looks is up to the options in front alone.
pub proof fn git_gets_its_arguments_untouched(options: Seq<Text>, word: Text, rest: Seq<Text>)
    requires
        are_options(options),
        is_rehearsable(word),
    ensures
        parsed(options + (seq![word] + rest)) == Ok::<CommandModel, Fault>(
            CommandModel::Rehearse {
                command: seq![word] + rest,
                todo: todo_among(options, None),
                decision: decision_among(options, Decision::Ask),
            },
        ),
        has_option(options + (seq![word] + rest), "--json"@) == has_option(options, "--json"@),
        has_option(options + (seq![word] + rest), "--stat-only"@) == has_option(
            options,
            "--stat-only"@,
        ),
{
    let args = seq![word] + rest;
    assert(args.drop_first() =~= rest);
    rehearsable_is_no_option(word);
    options_come_first(options, args, None, Decision::Ask);
    options_are_in_front(options, args, "--json"@);
    options_are_in_front(options, args, "--stat-only"@);
}

/// Behind `--` everything is git's, whatever it looks like and whatever options of
/// ours stand in front of it.
pub proof fn the_escape_hatch_takes_anything(options: Seq<Text>, rest: Seq<Text>)
    requires
        are_options(options),
        rest.len() > 0,
    ensures
        parsed(options + (seq!["--"@] + rest)) == Ok::<CommandModel, Fault>(
            CommandModel::Rehearse {
                command: rest,
                todo: todo_among(options, None),
                decision: decision_among(options, Decision::Ask),
            },
        ),
        has_option(options + (seq!["--"@] + rest), "--json"@) == has_option(options, "--json"@),
        has_option(options + (seq!["--"@] + rest), "--stat-only"@) == has_option(
            options,
            "--stat-only"@,
        ),
{
    let args = seq!["--"@] + rest;
    assert(args.drop_first() =~= rest);
    options_are_told_apart();
    options_come_first(options, args, None, Decision::Ask);
    options_are_in_front(options, args, "--json"@);
    options_are_in_front(options, args, "--stat-only"@);
}

pub proof fn options_are_told_apart()
    ensures
        forall|word: Text|
            #[trigger] is_switch(word) ==> word != "-h"@ && word != "--help"@ && word != "-V"@
                && word != "--version"@ && word != "--todo"@ && word != "--"@,
        "--apply"@ != "--keep"@,
        "--apply"@ != "--json"@,
        "--apply"@ != "--stat-only"@,
        "--keep"@ != "--json"@,
        "--keep"@ != "--stat-only"@,
        "--json"@ != "--stat-only"@,
        !is_switch("--todo"@),
        "--todo"@ != "-h"@,
        "--todo"@ != "--help"@,
        "--todo"@ != "-V"@,
        "--todo"@ != "--version"@,
        !is_switch("--"@),
        "--"@ != "-h"@,
        "--"@ != "--help"@,
        "--"@ != "-V"@,
        "--"@ != "--version"@,
        "--"@ != "--todo"@,
{
    reveal_strlit("--");
    reveal_strlit("-h");
    reveal_strlit("--help");
    reveal_strlit("-V");
    reveal_strlit("--version");
    reveal_strlit("--apply");
    reveal_strlit("--keep");
    reveal_strlit("--json");
    reveal_strlit("--stat-only");
    reveal_strlit("--todo");
    assert("--"@.len() == 2 && "--"@[1] == '-');
    assert("-h"@.len() == 2 && "-h"@[1] == 'h');
    assert("-V"@.len() == 2 && "-V"@[1] == 'V');
    assert("--help"@.len() == 6 && "--help"@[2] == 'h');
    assert("--version"@.len() == 9);
    assert("--apply"@.len() == 7);
    assert("--keep"@.len() == 6 && "--keep"@[2] == 'k');
    assert("--json"@.len() == 6 && "--json"@[2] == 'j');
    assert("--stat-only"@.len() == 11);
    assert("--todo"@.len() == 6 && "--todo"@[2] == 't');
}

proof fn rehearsable_is_no_option(word: Text)
    requires
        is_rehearsable(word),
    ensures
        word != "-h"@,
        word != "--help"@,
        word != "-V"@,
        word != "--version"@,
        word != "--apply"@,
        word != "--keep"@,
        word != "--json"@,
        word != "--stat-only"@,
        word != "--todo"@,
        word != "--"@,
        word != SEQUENCE_EDITOR_ARG@,
{
    reveal_strlit("rebase");
    reveal_strlit("merge");
    reveal_strlit("cherry-pick");
    reveal_strlit("-h");
    reveal_strlit("--help");
    reveal_strlit("-V");
    reveal_strlit("--version");
    reveal_strlit("--apply");
    reveal_strlit("--keep");
    reveal_strlit("--json");
    reveal_strlit("--stat-only");
    reveal_strlit("--todo");
    reveal_strlit("--");
    reveal_strlit("__sequence-editor");
    assert("rebase"@[0] == 'r');
    assert("merge"@[0] == 'm');
    assert("cherry-pick"@[0] == 'c');
    assert("-h"@[0] == '-');
    assert("--help"@[0] == '-');
    assert("-V"@[0] == '-');
    assert("--version"@[0] == '-');
    assert("--apply"@[0] == '-');
    assert("--keep"@[0] == '-');
    assert("--json"@[0] == '-');
    assert("--stat-only"@[0] == '-');
    assert("--todo"@[0] == '-');
    assert("--"@[0] == '-');
    assert(SEQUENCE_EDITOR_ARG@[0] == '_');
}

// ---------------------------------------------------------------------------
// Running
// ---------------------------------------------------------------------------
/// The usage text.
pub const USAGE: &'static str = "git-rehearse — rehearse dangerous git commands in a shadow clone of your repo\n\nusage:\n  git rehearse [options] rebase|merge|cherry-pick [git args...]\n  git rehearse [options] -- <any git command>\n  git rehearse list\n  git rehearse show [<id>]\n  git rehearse continue [<id>]\n  git rehearse apply [<id>]\n  git rehearse undo [<id>]\n  git rehearse discard [<id>|--all]\n\noptions (before the command; everything after it belongs to git):\n  --apply           apply without asking\n  --keep            keep the rehearsal without asking\n  --json            one JSON document on stdout instead of the report\n  --stat-only       the report without the before/after graphs\n  --todo <file>     drive an interactive rebase from a prepared todo\n  -h, --help        this text\n  -V, --version     version\n\nexit codes:\n  0 rehearsed clean   2 stopped (conflict)   3 command failed\n  4 refused           1 internal error\n\nThe exit code describes the rehearsal, not what became of it: a rehearsal\nthat ran cleanly and was then discarded still exits 0.\n\nWith no terminal on stdin there is nobody to answer the keep/apply/discard\nquestion: a rehearsal that stopped part-way is kept, and any other is\ndiscarded. Pass --apply or --keep to script it.\n";

/// Runs a parsed command and gives the process exit code.
#[verifier::opaque]
pub open spec fn run_script(command: CommandModel, setting: SettingModel, tape: Tape) -> Run<u8> {
    match command {
        CommandModel::Help => say_script(USAGE@, tape).and_then(|done: (), tape: Tape|
            Run::Gives(exit::CLEAN, tape)),
        CommandModel::Version => say_script("git-rehearse "@ + VERSION@ + "\n"@, tape).and_then(
            |done: (), tape: Tape| Run::Gives(exit::CLEAN, tape),
        ),
        CommandModel::SequenceEditor { todo, target } => write_todo_script(
            todo,
            target,
            tape,
        ).and_then(|done: (), tape: Tape| Run::Gives(exit::CLEAN, tape)),
        CommandModel::Rehearse { command, todo, decision } => flow::rehearse_script(
            command,
            todo,
            decision,
            setting,
            tape,
        ),
        CommandModel::List => flow::list_script(setting, tape),
        CommandModel::Show { id } => flow::show_script(id, setting, tape),
        CommandModel::Continue { id, decision } => flow::resume_script(
            id,
            decision,
            setting,
            tape,
        ),
        CommandModel::Apply { id } => flow::apply_script(id, setting, tape),
        CommandModel::Undo { id } => flow::undo_script(id, setting, tape),
        CommandModel::Discard { id, all } => flow::discard_script(id, all, setting, tape),
    }
}

/// Runs a parsed command and returns the process exit code.
pub fn run(session: &mut Session, command: Command, setting: &Setting) -> (outcome: Result<u8, Stop>)
    ensures
        ran(outcome, final(session)@) == run_script(
            command.deep_view(),
            setting.deep_view(),
            old(session)@,
        ),
{
    proof {
        reveal(run_script);
    }
    match command {
        Command::Help => {
            say(session, USAGE.to_owned())?;
            Ok(exit::CLEAN)
        },
        Command::Version => {
            say(session, cat3("git-rehearse ", VERSION, "\n"))?;
            Ok(exit::CLEAN)
        },
        Command::SequenceEditor { todo, target } => {
            write_todo(session, &todo, &target)?;
            Ok(exit::CLEAN)
        },
        Command::Rehearse { command, todo, decision } => flow::rehearse(
            session,
            command,
            todo,
            decision,
            setting,
        ),
        Command::List => flow::list_all(session, setting),
        Command::Show { id } => flow::show_again(session, &id, setting),
        Command::Continue { id, decision } => flow::resume(session, &id, decision, setting),
        Command::Apply { id } => flow::apply_kept(session, &id, setting),
        Command::Undo { id } => flow::undo_last(session, &id, setting),
        Command::Discard { id, all } => flow::discard(session, &id, all, setting),
    }
}

/// The exit code of a result.
pub open spec fn result_code(result: Result<u8, Error>) -> u8 {
    match result {
        Ok(code) => code,
        Err(Error::Refused(_)) => exit::REFUSED,
        Err(_) => exit::INTERNAL,
    }
}

/// The exit code of a result: a refusal is the tool working, anything else that
/// fails is the tool broken.
pub fn code_for(result: &Result<u8, Error>) -> (code: u8)
    ensures
        code == result_code(*result),
{
    match result {
        Ok(code) => *code,
        Err(Error::Refused(_)) => exit::REFUSED,
        Err(_) => exit::INTERNAL,
    }
}

/// Prints the document of a failure.
pub fn write_failure(session: &mut Session, message: &str, code: u8) -> (outcome: Result<(), Stop>)
    ensures
        ran(outcome, final(session)@) == flow::emit_script(
            DocumentModel::Failure(failure_of(message@, code)),
            old(session)@,
        ),
{
    flow::emit(session, Document::Failure(Failure::new(message.to_owned(), code)))
}

} // verus!
