//! That an answer that is a document is nothing but a document.

use vstd::prelude::*;

use crate::carry;
use crate::cli::flow::{
    act_script, apply_script, carry_on_script, decide_script, discard_from, discard_script,
    doomed_script, emit_script, find_script, finish_script, given_todo_script, list_script,
    record_script, rehearse_script, resume_script, root_script, show_script, top_script,
    undo_script, SettingModel,
};
use crate::cli::{self, CommandModel, Decision};
use crate::execute::{self, Outcome};
use crate::guarantees::asking::{
    analyzing_is_tame, carrying_is_tame, executing_is_tame, files_are_tame, git_is_tame, is_silent,
    preflight_is_tame, writing_meta_is_tame,
};
use crate::guarantees::places::Reach;
use crate::guarantees::replay::flow::{
    acting_repeats, analyzing_repeats, carrying_repeats, discarding_repeats, telling_repeats,
    undoing_repeats,
};
use crate::guarantees::replay::store::{
    creating_repeats, finding_repeats, metadata_repeats, pruning_repeats,
};
use crate::guarantees::replay::{
    editing_repeats, executing_repeats, files_repeat, is_onward, is_sound, preflight_repeats,
    repeats, spliced, whole, Splice,
};
use crate::guarantees::transplant::{applying_is_transplant, undoing_is_transplant};
use crate::guarantees::untouched::{
    creating_is_tame, finding_is_tame, listing_is_tame, pruning_is_tame, removing_is_tame,
};
use crate::json::DocumentModel;
use crate::now_script;
use crate::preflight;
use crate::report::Choice;
use crate::sandbox::lifecycle::create_script;
use crate::sandbox::meta;
use crate::sandbox::store::{self, remove_rehearsal_script};
use crate::sandbox::{with_result, worktree_of, SandboxModel, DEFAULT_TTL_SECS};
use crate::session::{Answer, Ask, Run, Tape};
use crate::text::Text;

verus! {

/// Whether a run stops neither to write anything to standard output, nor to read
/// a line, nor to ask who is there.
pub open spec fn is_quiet<T>(run: Run<T>) -> bool {
    run matches Run::Asks(ask, _) ==> is_silent(ask)
}

/// Whether a run writes nothing to standard output but one document, and that
/// last of all: with a reply to the request for it the run is over, and without
/// its last reply a finished run is at that request.
pub open spec fn is_answered(run: Run<u8>, again: Run<u8>, tape: Tape, splice: Splice) -> bool {
    match run {
        Run::Asks(ask, _) => is_silent(ask) || (ask is Emit && (is_sound(tape) && splice.kept
            == tape.log.len() && splice.tail.len() > 0 ==> !(again is Asks))),
        Run::Gives(_, after) => is_sound(tape) ==> tape.next < after.next <= tape.log.len() && (
        splice.kept == after.next - 1 && splice.tail.len() == 0 ==> again is Asks
            && again->Asks_0 is Emit),
        Run::Fails(..) => true,
    }
}

proof fn acting_is_quiet(sandbox: SandboxModel)
    ensures
        forall|choice: Choice, tape: Tape|
            is_quiet(#[trigger] act_script(choice, sandbox, true, tape)),
        forall|tape: Tape|
            #[trigger] act_script(Choice::Apply, sandbox, true, tape) matches Run::Gives(applied, _)
                ==> applied is Some,
{
    files_are_tame(Reach::Anywhere);
    applying_is_transplant();
    removing_is_tame(sandbox.root, Reach::Anywhere);
    writing_meta_is_tame(sandbox.root, Reach::Anywhere);
    reveal(act_script);
}

proof fn finishing_is_answered(
    sandbox: SandboxModel,
    outcome: Outcome,
    decision: Decision,
    setting: SettingModel,
    tape: Tape,
    splice: Splice,
)
    requires
        setting.json,
    ensures
        is_answered(
            finish_script(sandbox, outcome, decision, setting, tape),
            finish_script(sandbox, outcome, decision, setting, spliced(tape, splice)),
            tape,
            splice,
        ),
{
    analyzing_is_tame(worktree_of(sandbox.root), Reach::Anywhere);
    acting_is_quiet(sandbox);
    analyzing_repeats();
    acting_repeats();
    telling_repeats();
    reveal(decide_script);
    reveal(emit_script);
    reveal(finish_script);
}

proof fn recording_is_answered(
    sandbox: SandboxModel,
    outcome: Outcome,
    decision: Decision,
    setting: SettingModel,
    tape: Tape,
    splice: Splice,
)
    requires
        setting.json,
    ensures
        is_answered(
            record_script(sandbox, outcome, decision, setting, tape),
            record_script(sandbox, outcome, decision, setting, spliced(tape, splice)),
            tape,
            splice,
        ),
{
    writing_meta_is_tame(sandbox.root, Reach::Anywhere);
    metadata_repeats();
    reveal(record_script);
    let recorded = SandboxModel { meta: with_result(sandbox.meta, outcome), ..sandbox };
    if let Run::Gives(_, written) = meta::write_script(recorded.meta, recorded.root, tape) {
        finishing_is_answered(recorded, outcome, decision, setting, written, splice);
    }
}

proof fn locating_is_quiet(setting: SettingModel, id: Option<Text>, tape: Tape)
    ensures
        is_quiet(top_script(setting.cwd, tape)),
        is_quiet(find_script(setting, id, tape)),
{
    git_is_tame(Reach::Anywhere);
    reveal(top_script);
    reveal(find_script);
    if let Some(root) = setting.cache_root {
        if let Run::Gives(top, after) = top_script(setting.cwd, tape) {
            finding_is_tame(root, crate::cache::id_of(top), id, Reach::Anywhere, after);
        }
    }
}

/// Where a rehearsal is made and its command run, before anything is written
/// down of how it went.
proof fn trying_is_quiet(
    command: Seq<Text>,
    todo: Option<Text>,
    setting: SettingModel,
    tape: Tape,
)
    ensures
        is_quiet(tried_script(command, todo, setting, tape)),
{
    preflight_is_tame(Reach::Anywhere);
    files_are_tame(Reach::Anywhere);
    if let Run::Gives(found, tape) = preflight::run_script(setting.cwd, tape) {
        if let Run::Gives(root, tape) = root_script(setting, tape) {
            if let Run::Gives(now, tape) = now_script(tape) {
                let plan = preflight::plan_of(found, command);
                creating_is_tame(root, plan, now, Reach::Anywhere, tape);
                if let Run::Gives(sandbox, tape) = create_script(root, plan, now, tape) {
                    executing_is_tame(worktree_of(sandbox.root), Reach::Anywhere);
                    carrying_is_tame(sandbox.root, Reach::Anywhere);
                }
            }
        }
    }
}

/// The part of a rehearsal before it is recorded.
spec fn tried_script(
    command: Seq<Text>,
    todo: Option<Text>,
    setting: SettingModel,
    tape: Tape,
) -> Run<(Outcome, SandboxModel)> {
    preflight::run_script(setting.cwd, tape).and_then(
        |found: preflight::PreflightModel, tape: Tape|
    root_script(setting, tape).and_then(|root: Text, tape: Tape|
    now_script(tape).and_then(|now: u64, tape: Tape|
    create_script(root, preflight::plan_of(found, command), now, tape).and_then(
        |sandbox: SandboxModel, tape: Tape|
    given_todo_script(todo, tape).and_then(|todo: Option<execute::TodoModel>, tape: Tape|
    execute::run_script(worktree_of(sandbox.root), command, todo, tape).and_then(
        |outcome: Outcome, tape: Tape| carry::after_command_script(sandbox, outcome, tape)))))))
}

proof fn trying_repeats(
    command: Seq<Text>,
    todo: Option<Text>,
    setting: SettingModel,
    tape: Tape,
    splice: Splice,
)
    ensures
        is_onward(tried_script(command, todo, setting, tape), tape),
        repeats(
            tried_script(command, todo, setting, tape),
            tried_script(command, todo, setting, spliced(tape, splice)),
            tape,
            splice,
        ),
{
    files_repeat();
    preflight_repeats();
    creating_repeats();
    editing_repeats();
    executing_repeats();
    carrying_repeats();
}

proof fn rehearsing_is_answered(
    command: Seq<Text>,
    todo: Option<Text>,
    decision: Decision,
    setting: SettingModel,
    tape: Tape,
    splice: Splice,
)
    requires
        setting.json,
    ensures
        is_answered(
            rehearse_script(command, todo, decision, setting, tape),
            rehearse_script(command, todo, decision, setting, spliced(tape, splice)),
            tape,
            splice,
        ),
{
    trying_is_quiet(command, todo, setting, tape);
    trying_repeats(command, todo, setting, tape, splice);
    if let Run::Gives(tried, after) = tried_script(command, todo, setting, tape) {
        recording_is_answered(tried.1, tried.0, decision, setting, after, splice);
    }
    reveal(rehearse_script);
}

proof fn continuing_is_answered(
    id: Option<Text>,
    decision: Decision,
    setting: SettingModel,
    tape: Tape,
    splice: Splice,
)
    requires
        setting.json,
    ensures
        is_answered(
            resume_script(id, decision, setting, tape),
            resume_script(id, decision, setting, spliced(tape, splice)),
            tape,
            splice,
        ),
{
    telling_repeats();
    executing_repeats();
    carrying_repeats();
    reveal(carry_on_script);
    reveal(resume_script);
    locating_is_quiet(setting, id, tape);
    if let Run::Gives(sandbox, found) = find_script(setting, id, tape) {
        executing_is_tame(worktree_of(sandbox.root), Reach::Anywhere);
        carrying_is_tame(sandbox.root, Reach::Anywhere);
        if let Run::Gives(run, after) = carry_on_script(sandbox, found) {
            recording_is_answered(run.1, run.0, decision, setting, after, splice);
        }
    }
}

proof fn listing_all_is_answered(setting: SettingModel, tape: Tape, splice: Splice)
    requires
        setting.json,
    ensures
        is_answered(
            list_script(setting, tape),
            list_script(setting, spliced(tape, splice)),
            tape,
            splice,
        ),
{
    files_are_tame(Reach::Anywhere);
    files_repeat();
    telling_repeats();
    finding_repeats();
    pruning_repeats();
    reveal(emit_script);
    reveal(list_script);
    if let Run::Gives(root, tape) = root_script(setting, tape) {
        if let Run::Gives(now, tape) = now_script(tape) {
            pruning_is_tame(root, now, DEFAULT_TTL_SECS, Reach::Anywhere, tape);
            if let Run::Gives(pruned, tape) = store::prune_script(
                root,
                now,
                DEFAULT_TTL_SECS,
                tape,
            ) {
                locating_is_quiet(setting, None, tape);
                if let Run::Gives(top, tape) = top_script(setting.cwd, tape) {
                    listing_is_tame(
                        root,
                        crate::cache::id_of(top),
                        Reach::Anywhere,
                        tape,
                    );
                }
            }
        }
    }
}

proof fn showing_is_answered(
    id: Option<Text>,
    setting: SettingModel,
    tape: Tape,
    splice: Splice,
)
    requires
        setting.json,
    ensures
        is_answered(
            show_script(id, setting, tape),
            show_script(id, setting, spliced(tape, splice)),
            tape,
            splice,
        ),
{
    telling_repeats();
    analyzing_repeats();
    reveal(emit_script);
    reveal(show_script);
    locating_is_quiet(setting, id, tape);
    if let Run::Gives(sandbox, tape) = find_script(setting, id, tape) {
        analyzing_is_tame(worktree_of(sandbox.root), Reach::Anywhere);
    }
}

proof fn applying_it_is_answered(
    id: Option<Text>,
    setting: SettingModel,
    tape: Tape,
    splice: Splice,
)
    requires
        setting.json,
    ensures
        is_answered(
            apply_script(id, setting, tape),
            apply_script(id, setting, spliced(tape, splice)),
            tape,
            splice,
        ),
{
    telling_repeats();
    acting_repeats();
    reveal(emit_script);
    reveal(apply_script);
    locating_is_quiet(setting, id, tape);
    if let Run::Gives(sandbox, tape) = find_script(setting, id, tape) {
        acting_is_quiet(sandbox);
    }
}

proof fn undoing_it_is_answered(
    id: Option<Text>,
    setting: SettingModel,
    tape: Tape,
    splice: Splice,
)
    requires
        setting.json,
    ensures
        is_answered(
            undo_script(id, setting, tape),
            undo_script(id, setting, spliced(tape, splice)),
            tape,
            splice,
        ),
{
    telling_repeats();
    undoing_repeats();
    undoing_is_transplant();
    reveal(emit_script);
    reveal(undo_script);
    locating_is_quiet(setting, id, tape);
}

proof fn discarding_each_is_quiet(found: Seq<SandboxModel>, gone: Seq<Text>, tape: Tape)
    ensures
        is_quiet(discard_from(found, gone, tape)),
    decreases found.len(),
{
    if found.len() > 0 {
        removing_is_tame(found[0].root, Reach::Anywhere);
        if let Run::Gives(_, after) = remove_rehearsal_script(found[0].root, tape) {
            discarding_each_is_quiet(found.drop_first(), gone.push(found[0].meta.id), after);
        }
    }
}

proof fn discarding_is_answered(
    id: Option<Text>,
    all: bool,
    setting: SettingModel,
    tape: Tape,
    splice: Splice,
)
    requires
        setting.json,
    ensures
        is_answered(
            discard_script(id, all, setting, tape),
            discard_script(id, all, setting, spliced(tape, splice)),
            tape,
            splice,
        ),
{
    telling_repeats();
    discarding_repeats();
    reveal(emit_script);
    reveal(discard_script);
    locating_is_quiet(setting, id, tape);
    assert(is_quiet(doomed_script(id, all, setting, tape))) by {
        reveal(doomed_script);
        if let Run::Gives(root, tape) = root_script(setting, tape) {
            if let Run::Gives(top, tape) = top_script(setting.cwd, tape) {
                listing_is_tame(root, crate::cache::id_of(top), Reach::Anywhere, tape);
            }
        }
    }
    if let Run::Gives(found, after) = doomed_script(id, all, setting, tape) {
        discarding_each_is_quiet(found, Seq::empty(), after);
    }
}

/// Whether a command is one that answers with a document where one is wanted.
pub open spec fn gives_a_document(command: CommandModel) -> bool {
    !(command is Help || command is Version || command is SequenceEditor)
}

proof fn commands_are_answered(
    command: CommandModel,
    setting: SettingModel,
    tape: Tape,
    splice: Splice,
)
    requires
        setting.json,
        gives_a_document(command),
    ensures
        is_answered(
            cli::run_script(command, setting, tape),
            cli::run_script(command, setting, spliced(tape, splice)),
            tape,
            splice,
        ),
{
    reveal(cli::run_script);
    match command {
        CommandModel::Rehearse { command, todo, decision } => {
            rehearsing_is_answered(command, todo, decision, setting, tape, splice);
        },
        CommandModel::Continue { id, decision } => {
            continuing_is_answered(id, decision, setting, tape, splice);
        },
        CommandModel::List => listing_all_is_answered(setting, tape, splice),
        CommandModel::Show { id } => showing_is_answered(id, setting, tape, splice),
        CommandModel::Apply { id } => applying_it_is_answered(id, setting, tape, splice),
        CommandModel::Undo { id } => undoing_it_is_answered(id, setting, tape, splice),
        CommandModel::Discard { id, all } => {
            discarding_is_answered(id, all, setting, tape, splice);
        },
        _ => {},
    }
}

/// Where a document is wanted, no command writes anything else to standard
/// output, and none prompts: nothing is read from standard input, and nobody
/// looks whether somebody is there.
pub proof fn documents_stand_alone(
    command: CommandModel,
    setting: SettingModel,
    tape: Tape,
    ask: Ask,
    stopped: Tape,
)
    requires
        setting.json,
        cli::run_script(command, setting, tape) == Run::<u8>::Asks(ask, stopped),
        !(command is Help || command is Version),
    ensures
        !(ask is Print || ask is ReadLine || ask is Terminal),
{
    if gives_a_document(command) {
        commands_are_answered(command, setting, tape, whole(tape));
    } else if let CommandModel::SequenceEditor { todo, target } = command {
            files_are_tame(Reach::Anywhere);
        reveal(cli::run_script);
        reveal(execute::write_todo_script);
    }
}

/// A document is the last word: once there is a reply to the request for it, the
/// command asks for nothing more, so that there is no second one.
pub proof fn a_document_is_the_last_word(
    command: CommandModel,
    setting: SettingModel,
    tape: Tape,
    document: DocumentModel,
    stopped: Tape,
    answer: Answer,
)
    requires
        setting.json,
        gives_a_document(command),
        0 <= tape.next <= tape.log.len(),
        cli::run_script(command, setting, tape) == Run::<u8>::Asks(Ask::Emit(document), stopped),
    ensures
        !(cli::run_script(
            command,
            setting,
            Tape { log: tape.log.push(answer), ..tape },
        ) is Asks),
{
    let splice = Splice { kept: tape.log.len() as int, tail: seq![answer] };
    commands_are_answered(command, setting, tape, splice);
    assert(spliced(tape, splice).log =~= tape.log.push(answer));
}

/// Whoever wants a document gets one: where a command ran to its end, the last
/// thing that it asked for was to write it.
pub proof fn whoever_wants_a_document_gets_one(
    command: CommandModel,
    setting: SettingModel,
    tape: Tape,
    code: u8,
    after: Tape,
)
    requires
        setting.json,
        gives_a_document(command),
        0 <= tape.next <= tape.log.len(),
        cli::run_script(command, setting, tape) == Run::<u8>::Gives(code, after),
    ensures
        tape.next < after.next,
        cli::run_script(
            command,
            setting,
            Tape { log: tape.log.take(after.next - 1), ..tape },
        ) matches Run::Asks(ask, _) && ask is Emit,
{
    let splice = Splice { kept: after.next - 1, tail: Seq::empty() };
    commands_are_answered(command, setting, tape, splice);
    assert(spliced(tape, splice).log =~= tape.log.take(after.next - 1));
}

} // verus!
