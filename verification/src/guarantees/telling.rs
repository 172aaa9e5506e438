//! That only a command to apply or to undo, or a rehearsal that the user wants
//! applied, changes anything but what the cache holds of the repository.

use vstd::prelude::*;

use crate::analyze;
use crate::cache::id_of;
use crate::carry;
use crate::cli::flow::{
    act_script, attended_script, carry_on_script, decide_script, discard_from, discard_script,
    doomed_script, emit_script, find_script, finish_script, given_todo_script, list_script,
    record_script, rehearse_script, report_script, resume_script, root_script, show_script,
    top_script, SettingModel,
};
use crate::cli::promises::only_a_result_is_applied;
use crate::cli::{self, CommandModel, Decision};
use crate::execute::{self, Outcome};
use crate::guarantees::asking::{
    analyzing_is_tame, carrying_is_tame, disturbs, drawing_is_tame, executing_is_tame,
    files_are_tame, git_is_tame, is_apart, lists_names, preflight_is_tame, spares, tame,
    what_is_spared_is_not_disturbed, writing_meta_is_tame,
};
use crate::guarantees::places::{inside_is_within, names_stay, Reach};
use crate::guarantees::untouched::{
    are_home, cache_names_are_names, creating_is_tame, finding_is_tame, is_home, listing_is_tame, pruning_is_tame,
    removing_is_tame,
};
use crate::json::DocumentModel;
use crate::now_script;
use crate::parts::trimmed;
use crate::paths::inside;
use crate::preflight;
use crate::report::{
    ask_from, choice_in, is_applicable, options, read_line_advances, read_line_script,
    say_advances, say_script, Choice, Detail,
};
use crate::sandbox::lifecycle::create_script;
use crate::sandbox::store::{self, remove_rehearsal_script};
use crate::sandbox::{with_result, worktree_of, SandboxModel, DEFAULT_TTL_SECS};
use crate::session::{Ask, Run, Tape};
use crate::text::Text;

verus! {

/// Whether a run made no request on its way that changes anything that is
/// not within reach.
pub open spec fn confined<T>(run: Run<T>, reach: Reach, tape: Tape) -> bool {
    match run {
        Run::Gives(_, after) => after.log == tape.log,
        Run::Fails(_, after) => after.log == tape.log,
        Run::Asks(ask, _) => spares(ask, reach),
    }
}

proof fn speaking_is_confined(reach: Reach)
    ensures
        forall|text: Text, tape: Tape| confined(#[trigger] say_script(text, tape), reach, tape),
        forall|tape: Tape| confined(#[trigger] read_line_script(tape), reach, tape),
        forall|tape: Tape| confined(#[trigger] attended_script(tape), reach, tape),
        forall|document: DocumentModel, tape: Tape|
            confined(#[trigger] emit_script(document, tape), reach, tape),
{
    reveal(say_script);
    reveal(read_line_script);
    reveal(attended_script);
    reveal(emit_script);
}

proof fn asking_is_confined(can_apply: bool, reach: Reach, tape: Tape)
    ensures
        confined(ask_from(can_apply, tape), reach, tape),
    decreases tape.log.len() - tape.next,
{
    speaking_is_confined(reach);
    let question = options(can_apply) + "? "@;
    if let Run::Gives(_, asked) = say_script(question, tape) {
        if let Run::Gives(line, heard) = read_line_script(asked) {
            if line.len() != 0 && choice_in(trimmed(line), can_apply) is None {
                let again = "please answer with one of "@ + options(can_apply) + "\n"@;
                if let Run::Gives(_, told) = say_script(again, heard) {
                    say_advances(question, tape, asked);
                    read_line_advances(asked, line, heard);
                    say_advances(again, heard, told);
                    asking_is_confined(can_apply, reach, told);
                }
            }
        }
    }
}

proof fn deciding_is_confined(reach: Reach)
    ensures
        forall|decision: Decision, can_apply: bool, outcome: Outcome, json: bool, tape: Tape|
            confined(
                #[trigger] decide_script(decision, can_apply, outcome, json, tape),
                reach,
                tape,
            ),
{
    speaking_is_confined(reach);
    reveal(decide_script);
    assert forall|can_apply: bool, tape: Tape| confined(
        #[trigger] ask_from(can_apply, tape),
        reach,
        tape,
    ) by {
        asking_is_confined(can_apply, reach, tape);
    }
}

proof fn reporting_is_confined(sandbox: SandboxModel, reach: Reach)
    requires
        is_home(sandbox, reach),
    ensures
        forall|
            analysis: analyze::AnalysisModel,
            outcome: Outcome,
            decision: Decision,
            detail: Detail,
            tape: Tape,
        |
            confined(
                #[trigger] report_script(sandbox, analysis, outcome, decision, detail, tape),
                reach,
                tape,
            ),
{
    speaking_is_confined(reach);
    drawing_is_tame(worktree_of(sandbox.root), reach);
    reveal(report_script);
}

proof fn leaving_it_is_confined(sandbox: SandboxModel, reach: Reach)
    requires
        is_home(sandbox, reach),
    ensures
        forall|choice: Choice, json: bool, tape: Tape|
            choice != Choice::Apply ==> confined(
                #[trigger] act_script(choice, sandbox, json, tape),
                reach,
                tape,
            ),
{
    speaking_is_confined(reach);
    removing_is_tame(sandbox.root, reach);
    writing_meta_is_tame(sandbox.root, reach);
    reveal(act_script);
}

// ---------------------------------------------------------------------------
// How far a command may reach
// ---------------------------------------------------------------------------
/// The directory that the cache keeps for a repository, once that is known.
pub open spec fn own_directory(cache_root: Option<Text>, repo: Option<Text>) -> Reach {
    match (cache_root, repo) {
        (Some(root), Some(repo)) => Reach::Below(inside(root, id_of(repo))),
        _ => Reach::Nowhere,
    }
}

/// How far a fresh rehearsal may reach.
pub open spec fn rehearsal_reach(setting: SettingModel, tape: Tape) -> Reach {
    own_directory(
        setting.cache_root,
        match preflight::run_script(setting.cwd, tape) {
            Run::Gives(found, _) => Some(found.repo),
            _ => None,
        },
    )
}

/// How far a command on a rehearsal that was kept may reach.
pub open spec fn kept_reach(setting: SettingModel, tape: Tape) -> Reach {
    own_directory(
        setting.cache_root,
        match top_script(setting.cwd, tape) {
            Run::Gives(top, _) => Some(top),
            _ => None,
        },
    )
}

/// The whole of the cache.
pub open spec fn cache_reach(setting: SettingModel) -> Reach {
    match setting.cache_root {
        Some(root) => Reach::Below(root),
        None => Reach::Nowhere,
    }
}

/// How far a command may reach that nobody told to apply or to undo.
pub open spec fn reach_of(command: CommandModel, setting: SettingModel, tape: Tape) -> Reach {
    match command {
        CommandModel::Rehearse { .. } => rehearsal_reach(setting, tape),
        CommandModel::Continue { .. } => kept_reach(setting, tape),
        CommandModel::Show { .. } => kept_reach(setting, tape),
        CommandModel::Discard { .. } => kept_reach(setting, tape),
        CommandModel::List => cache_reach(setting),
        _ => Reach::Nowhere,
    }
}

// ---------------------------------------------------------------------------
// What counts as being told
// ---------------------------------------------------------------------------
/// Whether a finished rehearsal is to be applied: the command line says so, or
/// that is what was answered.
pub open spec fn is_to_be_applied(
    sandbox: SandboxModel,
    outcome: Outcome,
    decision: Decision,
    setting: SettingModel,
    tape: Tape,
) -> bool {
    &&& analyze::run_script(
        worktree_of(sandbox.root),
        sandbox.meta.pre_state,
        sandbox.meta.command,
        outcome,
        tape,
    ) matches Run::Gives(analysis, tape)
    &&& (if setting.json {
        Run::Gives((), tape)
    } else {
        report_script(sandbox, analysis, outcome, decision, setting.detail, tape)
    }) matches Run::Gives(_, tape)
    &&& decide_script(
        decision,
        is_applicable(analysis, outcome),
        outcome,
        setting.json,
        tape,
    ) matches Run::Gives(choice, _)
    &&& choice == Choice::Apply
}

/// Whether a rehearsal is to be applied once its result is written down.
pub open spec fn is_to_be_applied_then(
    sandbox: SandboxModel,
    outcome: Outcome,
    decision: Decision,
    setting: SettingModel,
    tape: Tape,
) -> bool {
    let recorded = SandboxModel { meta: with_result(sandbox.meta, outcome), ..sandbox };
    &&& crate::sandbox::meta::write_script(
        recorded.meta,
        recorded.root,
        tape,
    ) matches Run::Gives(_, tape)
    &&& is_to_be_applied(recorded, outcome, decision, setting, tape)
}

/// Whether a fresh rehearsal is to be applied at its end.
pub open spec fn rehearsal_is_to_be_applied(
    command: Seq<Text>,
    todo: Option<Text>,
    decision: Decision,
    setting: SettingModel,
    tape: Tape,
) -> bool {
    &&& preflight::run_script(setting.cwd, tape) matches Run::Gives(found, tape)
    &&& root_script(setting, tape) matches Run::Gives(root, tape)
    &&& now_script(tape) matches Run::Gives(now, tape)
    &&& create_script(root, preflight::plan_of(found, command), now, tape) matches Run::Gives(
        sandbox,
        tape,
    )
    &&& given_todo_script(todo, tape) matches Run::Gives(todo, tape)
    &&& execute::run_script(worktree_of(sandbox.root), command, todo, tape) matches Run::Gives(
        outcome,
        tape,
    )
    &&& carry::after_command_script(sandbox, outcome, tape) matches Run::Gives(after, tape)
    &&& is_to_be_applied_then(after.1, after.0, decision, setting, tape)
}

/// Whether a rehearsal that is carried on is to be applied at its end.
pub open spec fn continuation_is_to_be_applied(
    id: Option<Text>,
    decision: Decision,
    setting: SettingModel,
    tape: Tape,
) -> bool {
    &&& find_script(setting, id, tape) matches Run::Gives(sandbox, tape)
    &&& carry_on_script(sandbox, tape) matches Run::Gives(after, tape)
    &&& is_to_be_applied_then(after.1, after.0, decision, setting, tape)
}

// ---------------------------------------------------------------------------
// The commands
// ---------------------------------------------------------------------------
proof fn finishing_is_confined(
    sandbox: SandboxModel,
    outcome: Outcome,
    decision: Decision,
    setting: SettingModel,
    reach: Reach,
    tape: Tape,
)
    requires
        is_home(sandbox, reach),
    ensures
        confined(finish_script(sandbox, outcome, decision, setting, tape), reach, tape)
            || is_to_be_applied(sandbox, outcome, decision, setting, tape),
{
    speaking_is_confined(reach);
    analyzing_is_tame(worktree_of(sandbox.root), reach);
    reporting_is_confined(sandbox, reach);
    deciding_is_confined(reach);
    leaving_it_is_confined(sandbox, reach);
    reveal(finish_script);
}

proof fn recording_is_confined(
    sandbox: SandboxModel,
    outcome: Outcome,
    decision: Decision,
    setting: SettingModel,
    reach: Reach,
    tape: Tape,
)
    requires
        is_home(sandbox, reach),
    ensures
        confined(record_script(sandbox, outcome, decision, setting, tape), reach, tape)
            || is_to_be_applied_then(sandbox, outcome, decision, setting, tape),
{
    writing_meta_is_tame(sandbox.root, reach);
    reveal(record_script);
    let recorded = SandboxModel { meta: with_result(sandbox.meta, outcome), ..sandbox };
    if let Run::Gives(_, after) = crate::sandbox::meta::write_script(
        recorded.meta,
        recorded.root,
        tape,
    ) {
        finishing_is_confined(recorded, outcome, decision, setting, reach, after);
    }
}

proof fn sandboxes_stay_where_they_are(sandbox: SandboxModel, outcome: Outcome, tape: Tape)
    ensures
        carry::after_command_script(sandbox, outcome, tape) matches Run::Gives(after, _)
            ==> after.1.root == sandbox.root,
        carry::resume_script(sandbox, tape) matches Run::Gives(after, _) ==> after.1.root
            == sandbox.root,
{
    reveal(carry::after_command_script);
    reveal(carry::resume_script);
    reveal(carry::settle_script);
}

proof fn rehearsing_is_confined(
    command: Seq<Text>,
    todo: Option<Text>,
    decision: Decision,
    setting: SettingModel,
    reach: Reach,
    tape: Tape,
)
    requires
        reach == rehearsal_reach(setting, tape),
        lists_names(tape.log, reach),
    ensures
        confined(rehearse_script(command, todo, decision, setting, tape), reach, tape)
            || rehearsal_is_to_be_applied(command, todo, decision, setting, tape),
{
    reveal(rehearse_script);
    preflight_is_tame(reach);
    files_are_tame(reach);
    if let (Some(root), Run::Gives(found, tape)) = (
        setting.cache_root,
        preflight::run_script(setting.cwd, tape),
    ) {
        if let Run::Gives(now, tape) = now_script(tape) {
            let plan = preflight::plan_of(found, command);
            creating_is_tame(root, plan, now, reach, tape);
            if let Run::Gives(sandbox, tape) = create_script(root, plan, now, tape) {
                let worktree = worktree_of(sandbox.root);
                executing_is_tame(worktree, reach);
                carrying_is_tame(sandbox.root, reach);
                if let Run::Gives(todo, tape) = given_todo_script(todo, tape) {
                    if let Run::Gives(outcome, tape) = execute::run_script(
                        worktree,
                        command,
                        todo,
                        tape,
                    ) {
                        sandboxes_stay_where_they_are(sandbox, outcome, tape);
                        if let Run::Gives(after, tape) = carry::after_command_script(
                            sandbox,
                            outcome,
                            tape,
                        ) {
                            recording_is_confined(after.1, after.0, decision, setting, reach, tape);
                        }
                    }
                }
            }
        }
    }
}

proof fn locating_is_tame(cwd: Text, reach: Reach)
    ensures
        forall|tape: Tape| tame(#[trigger] top_script(cwd, tape), reach, tape),
{
    git_is_tame(reach);
    reveal(top_script);
}

proof fn choosing_is_tame(setting: SettingModel, id: Option<Text>, reach: Reach, tape: Tape)
    requires
        reach == kept_reach(setting, tape),
        lists_names(tape.log, reach),
    ensures
        tame(find_script(setting, id, tape), reach, tape),
        find_script(setting, id, tape) matches Run::Gives(sandbox, _) ==> is_home(sandbox, reach),
{
    locating_is_tame(setting.cwd, reach);
    reveal(find_script);
    if let (Some(root), Run::Gives(top, after)) = (
        setting.cache_root,
        top_script(setting.cwd, tape),
    ) {
        finding_is_tame(root, id_of(top), id, reach, after);
    }
}

proof fn carrying_on_is_tame(sandbox: SandboxModel, reach: Reach, tape: Tape)
    requires
        is_home(sandbox, reach),
    ensures
        tame(carry_on_script(sandbox, tape), reach, tape),
        carry_on_script(sandbox, tape) matches Run::Gives(after, _) ==> is_home(after.1, reach),
{
    executing_is_tame(worktree_of(sandbox.root), reach);
    carrying_is_tame(sandbox.root, reach);
    reveal(carry_on_script);
    sandboxes_stay_where_they_are(sandbox, Outcome::Clean, tape);
    if let Run::Gives(outcome, after) = execute::resume_script(worktree_of(sandbox.root), tape) {
        sandboxes_stay_where_they_are(sandbox, outcome, after);
    }
}

proof fn continuing_is_confined(
    id: Option<Text>,
    decision: Decision,
    setting: SettingModel,
    reach: Reach,
    tape: Tape,
)
    requires
        reach == kept_reach(setting, tape),
        lists_names(tape.log, reach),
    ensures
        confined(resume_script(id, decision, setting, tape), reach, tape)
            || continuation_is_to_be_applied(id, decision, setting, tape),
{
    reveal(resume_script);
    choosing_is_tame(setting, id, reach, tape);
    if let Run::Gives(sandbox, tape) = find_script(setting, id, tape) {
        carrying_on_is_tame(sandbox, reach, tape);
        if let Run::Gives(after, tape) = carry_on_script(sandbox, tape) {
            recording_is_confined(after.1, after.0, decision, setting, reach, tape);
        }
    }
}

proof fn listing_all_is_confined(setting: SettingModel, reach: Reach, tape: Tape)
    requires
        reach == cache_reach(setting),
        lists_names(tape.log, reach),
    ensures
        confined(list_script(setting, tape), reach, tape),
{
    reveal(list_script);
    speaking_is_confined(reach);
    files_are_tame(reach);
    locating_is_tame(setting.cwd, reach);
    if let (Some(root), Run::Gives(now, tape)) = (setting.cache_root, now_script(tape)) {
        pruning_is_tame(root, now, DEFAULT_TTL_SECS, reach, tape);
        if let Run::Gives(pruned, tape) = store::prune_script(root, now, DEFAULT_TTL_SECS, tape) {
            if let Run::Gives(top, tape) = top_script(setting.cwd, tape) {
                cache_names_are_names(top);
                names_stay(id_of(top), reach);
                inside_is_within(root, id_of(top), reach);
                listing_is_tame(root, id_of(top), reach, tape);
            }
        }
    }
}

proof fn showing_is_confined(id: Option<Text>, setting: SettingModel, reach: Reach, tape: Tape)
    requires
        reach == kept_reach(setting, tape),
        lists_names(tape.log, reach),
    ensures
        confined(show_script(id, setting, tape), reach, tape),
{
    reveal(show_script);
    speaking_is_confined(reach);
    choosing_is_tame(setting, id, reach, tape);
    if let Run::Gives(sandbox, tape) = find_script(setting, id, tape) {
        analyzing_is_tame(worktree_of(sandbox.root), reach);
        drawing_is_tame(worktree_of(sandbox.root), reach);
    }
}

proof fn discarding_each_is_tame(
    found: Seq<SandboxModel>,
    gone: Seq<Text>,
    reach: Reach,
    tape: Tape,
)
    requires
        are_home(found, reach),
    ensures
        tame(discard_from(found, gone, tape), reach, tape),
    decreases found.len(),
{
    if found.len() > 0 {
        let rest = found.drop_first();
        assert(is_home(found[0], reach));
        assert forall|i: int| 0 <= i < rest.len() implies is_home(#[trigger] rest[i], reach) by {
            assert(rest[i] == found[i + 1]);
        }
        removing_is_tame(found[0].root, reach);
        if let Run::Gives(_, after) = remove_rehearsal_script(found[0].root, tape) {
            discarding_each_is_tame(rest, gone.push(found[0].meta.id), reach, after);
        }
    }
}

proof fn discarding_is_confined(
    id: Option<Text>,
    all: bool,
    setting: SettingModel,
    reach: Reach,
    tape: Tape,
)
    requires
        reach == kept_reach(setting, tape),
        lists_names(tape.log, reach),
    ensures
        confined(discard_script(id, all, setting, tape), reach, tape),
{
    reveal(discard_script);
    reveal(doomed_script);
    speaking_is_confined(reach);
    locating_is_tame(setting.cwd, reach);
    choosing_is_tame(setting, id, reach, tape);
    if let (Some(root), Run::Gives(top, after)) = (
        setting.cache_root,
        top_script(setting.cwd, tape),
    ) {
        listing_is_tame(root, id_of(top), reach, after);
    }
    if let Run::Gives(found, after) = doomed_script(id, all, setting, tape) {
        assert(are_home(found, reach));
        discarding_each_is_tame(found, Seq::empty(), reach, after);
    }
}

/// Whether a command ends in an apply that was asked for.
pub open spec fn is_told_to_apply(
    command: CommandModel,
    setting: SettingModel,
    tape: Tape,
) -> bool {
    match command {
        CommandModel::Rehearse { command, todo, decision } => rehearsal_is_to_be_applied(
            command,
            todo,
            decision,
            setting,
            tape,
        ),
        CommandModel::Continue { id, decision } => continuation_is_to_be_applied(
            id,
            decision,
            setting,
            tape,
        ),
        _ => false,
    }
}

/// The repository is left alone until the user says otherwise: unless the
/// command is to apply or to undo, or a rehearsal was reported and is to be
/// applied, every request leaves everything as it is but what the cache holds of
/// the repository. A listing prunes, so that it reaches the whole of the cache.
/// (The sequence editor is what git runs on its own todo list.)
pub proof fn the_repository_is_left_alone(
    command: CommandModel,
    setting: SettingModel,
    tape: Tape,
    ask: Ask,
    stopped: Tape,
)
    requires
        lists_names(tape.log, reach_of(command, setting, tape)),
        cli::run_script(command, setting, tape) == Run::<u8>::Asks(ask, stopped),
        !(command is Apply || command is Undo || command is SequenceEditor),
    ensures
        spares(ask, reach_of(command, setting, tape)) || is_told_to_apply(command, setting, tape),
{
    reveal(cli::run_script);
    let reach = reach_of(command, setting, tape);
    speaking_is_confined(reach);
    match command {
        CommandModel::Rehearse { command, todo, decision } => {
            rehearsing_is_confined(command, todo, decision, setting, reach, tape);
        },
        CommandModel::Continue { id, decision } => {
            continuing_is_confined(id, decision, setting, reach, tape);
        },
        CommandModel::List => listing_all_is_confined(setting, reach, tape),
        CommandModel::Show { id } => showing_is_confined(id, setting, reach, tape),
        CommandModel::Discard { id, all } => {
            discarding_is_confined(id, all, setting, reach, tape);
        },
        _ => {},
    }
}

/// So a directory that stands apart from what the cache holds of the repository is
/// not disturbed until the user says otherwise: no file below it is written, and
/// git is told to do no more there than to look.
pub proof fn nothing_elsewhere_is_disturbed(
    command: CommandModel,
    setting: SettingModel,
    tape: Tape,
    ask: Ask,
    stopped: Tape,
    place: Text,
)
    requires
        lists_names(tape.log, reach_of(command, setting, tape)),
        cli::run_script(command, setting, tape) == Run::<u8>::Asks(ask, stopped),
        !(command is Apply || command is Undo || command is SequenceEditor),
        place.len() > 0,
        is_apart(place, reach_of(command, setting, tape)),
    ensures
        !disturbs(ask, place) || is_told_to_apply(command, setting, tape),
{
    the_repository_is_left_alone(command, setting, tape, ask, stopped);
    if spares(ask, reach_of(command, setting, tape)) {
        what_is_spared_is_not_disturbed(ask, reach_of(command, setting, tape), place);
    }
}

/// Being told means being told: only a rehearsal that finished is ever to be
/// applied, and only where the command line says `--apply`, or says nothing and
/// does not want a document.
pub proof fn applying_takes_a_word(
    sandbox: SandboxModel,
    outcome: Outcome,
    decision: Decision,
    setting: SettingModel,
    tape: Tape,
)
    requires
        is_to_be_applied(sandbox, outcome, decision, setting, tape),
    ensures
        decision == Decision::Apply || (decision == Decision::Ask && !setting.json),
        outcome == Outcome::Clean,
{
    reveal(decide_script);
    if let Run::Gives(analysis, tape) = analyze::run_script(
        worktree_of(sandbox.root),
        sandbox.meta.pre_state,
        sandbox.meta.command,
        outcome,
        tape,
    ) {
        let said = if setting.json {
            Run::Gives((), tape)
        } else {
            report_script(sandbox, analysis, outcome, decision, setting.detail, tape)
        };
        if let Run::Gives(_, tape) = said {
            let applicable = is_applicable(analysis, outcome);
            if let Run::Gives(choice, after) = decide_script(
                decision,
                applicable,
                outcome,
                setting.json,
                tape,
            ) {
                only_a_result_is_applied(decision, applicable, outcome, setting.json, tape, after);
            }
        }
    }
}

} // verus!
