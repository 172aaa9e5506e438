//! That whole commands can be run again.

use vstd::prelude::*;

use crate::analyze::{self, AnalysisModel, ConflictModel, DriftModel, RefMoveModel};
use crate::apply;
use crate::carry;
use crate::cli::flow::{
    act_script, apply_script, attended_script, carry_on_script, decide_script, discard_from,
    discard_script, doomed_script, emit_script, find_script, finish_script, list_script,
    record_script, rehearse_script, report_script, resume_script, show_script, top_script,
    undo_script, SettingModel,
};
use crate::cli::{self, CommandModel, Decision};
use crate::execute::Outcome;
use crate::files::read_bytes_script;
use crate::guarantees::replay::store::{
    creating_repeats, finding_repeats, looking_repeats, metadata_repeats, pruning_repeats,
};
use crate::guarantees::replay::{
    classifying_repeats, editing_repeats, executing_repeats, files_repeat, git_repeats, is_onward,
    preflight_repeats, repeats, requests_repeat, spliced, whole, Splice,
};
use crate::json::DocumentModel;
use crate::paths::{inside, path_named};
use crate::refs::Entries;
use crate::report::{
    self, ask_from, graphs_from, graphs_script, log_graph_script, Choice, Detail, GraphModel,
};
use crate::sandbox::store::remove_rehearsal_script;
use crate::sandbox::SandboxModel;
use crate::session::{Run, Tape};
use crate::text::Text;
use crate::undo;

verus! {

// ---------------------------------------------------------------------------
// In the sandbox
// ---------------------------------------------------------------------------
proof fn replaying_repeats()
    ensures
        forall|worktree: Text, tape: Tape|
            is_onward(#[trigger] carry::capture_script(worktree, tape), tape),
        forall|worktree: Text, tape: Tape, splice: Splice|
            repeats(
                carry::capture_script(worktree, tape),
                #[trigger] carry::capture_script(worktree, spliced(tape, splice)),
                tape,
                splice,
            ),
        forall|worktree: Text, tape: Tape|
            is_onward(#[trigger] carry::replay_script(worktree, tape), tape),
        forall|worktree: Text, tape: Tape, splice: Splice|
            repeats(
                carry::replay_script(worktree, tape),
                #[trigger] carry::replay_script(worktree, spliced(tape, splice)),
                tape,
                splice,
            ),
{
    git_repeats();
    classifying_repeats();
    reveal(carry::replay_failed_script);
    reveal(carry::capture_script);
    reveal(carry::replay_script);
}

proof fn putting_back_repeats()
    ensures
        forall|sandbox: SandboxModel, tape: Tape|
            is_onward(#[trigger] carry::replay_if_moved_script(sandbox, tape), tape),
        forall|sandbox: SandboxModel, tape: Tape, splice: Splice|
            repeats(
                carry::replay_if_moved_script(sandbox, tape),
                #[trigger] carry::replay_if_moved_script(sandbox, spliced(tape, splice)),
                tape,
                splice,
            ),
        forall|sandbox: SandboxModel, tape: Tape|
            is_onward(#[trigger] carry::finish_replay_script(sandbox, tape), tape),
        forall|sandbox: SandboxModel, tape: Tape, splice: Splice|
            repeats(
                carry::finish_replay_script(sandbox, tape),
                #[trigger] carry::finish_replay_script(sandbox, spliced(tape, splice)),
                tape,
                splice,
            ),
{
    git_repeats();
    classifying_repeats();
    replaying_repeats();
    reveal(carry::moves_the_worktree_script);
    reveal(carry::replay_if_moved_script);
    reveal(carry::finish_replay_script);
}

proof fn settling_repeats()
    ensures
        forall|sandbox: SandboxModel, replay: carry::ReplayModel, tape: Tape|
            is_onward(#[trigger] carry::settle_script(sandbox, replay, tape), tape),
        forall|sandbox: SandboxModel, replay: carry::ReplayModel, tape: Tape, splice: Splice|
            repeats(
                carry::settle_script(sandbox, replay, tape),
                #[trigger] carry::settle_script(sandbox, replay, spliced(tape, splice)),
                tape,
                splice,
            ),
{
    metadata_repeats();
    reveal(carry::settle_script);
}

pub proof fn carrying_repeats()
    ensures
        forall|sandbox: SandboxModel, outcome: Outcome, tape: Tape|
            is_onward(#[trigger] carry::after_command_script(sandbox, outcome, tape), tape),
        forall|sandbox: SandboxModel, outcome: Outcome, tape: Tape, splice: Splice|
            repeats(
                carry::after_command_script(sandbox, outcome, tape),
                #[trigger] carry::after_command_script(sandbox, outcome, spliced(tape, splice)),
                tape,
                splice,
            ),
        forall|sandbox: SandboxModel, tape: Tape|
            is_onward(#[trigger] carry::resume_script(sandbox, tape), tape),
        forall|sandbox: SandboxModel, tape: Tape, splice: Splice|
            repeats(
                carry::resume_script(sandbox, tape),
                #[trigger] carry::resume_script(sandbox, spliced(tape, splice)),
                tape,
                splice,
            ),
{
    putting_back_repeats();
    settling_repeats();
    reveal(carry::after_command_script);
    reveal(carry::resume_script);
}

proof fn counting_conflicts_repeats(
    worktree: Text,
    paths: Seq<Text>,
    done: Seq<ConflictModel>,
    tape: Tape,
    splice: Splice,
)
    ensures
        is_onward(analyze::conflicts_from(worktree, paths, done, tape), tape),
        repeats(
            analyze::conflicts_from(worktree, paths, done, tape),
            analyze::conflicts_from(worktree, paths, done, spliced(tape, splice)),
            tape,
            splice,
        ),
    decreases paths.len(),
{
    files_repeat();
    if paths.len() > 0 {
        if let Run::Gives(content, after) = read_bytes_script(inside(worktree, path_named(paths[0])), tape) {
            if let Ok(hunks) = analyze::hunks_of(content) {
                counting_conflicts_repeats(
                    worktree,
                    paths.drop_first(),
                    done.push(ConflictModel { path: paths[0], hunks }),
                    after,
                    splice,
                );
            }
        }
    }
}

proof fn looking_for_the_commit_repeats()
    ensures
        forall|worktree: Text, tape: Tape|
            is_onward(#[trigger] analyze::stopped_at_script(worktree, tape), tape),
        forall|worktree: Text, tape: Tape, splice: Splice|
            repeats(
                analyze::stopped_at_script(worktree, tape),
                #[trigger] analyze::stopped_at_script(worktree, spliced(tape, splice)),
                tape,
                splice,
            ),
{
    git_repeats();
    files_repeat();
    reveal(analyze::recorded_stop_script);
    reveal(analyze::pending_head_script);
    reveal(analyze::described_script);
    reveal(analyze::stopped_at_script);
}

proof fn listing_conflicts_repeats()
    ensures
        forall|worktree: Text, tape: Tape|
            is_onward(#[trigger] analyze::conflicts_script(worktree, tape), tape),
        forall|worktree: Text, tape: Tape, splice: Splice|
            repeats(
                analyze::conflicts_script(worktree, tape),
                #[trigger] analyze::conflicts_script(worktree, spliced(tape, splice)),
                tape,
                splice,
            ),
{
    git_repeats();
    reveal(analyze::conflicts_script);
    assert forall|worktree: Text, paths: Seq<Text>, done: Seq<ConflictModel>, tape: Tape| is_onward(
        #[trigger] analyze::conflicts_from(worktree, paths, done, tape),
        tape,
    ) by {
        counting_conflicts_repeats(worktree, paths, done, tape, whole(tape));
    }
    assert forall|
        worktree: Text,
        paths: Seq<Text>,
        done: Seq<ConflictModel>,
        tape: Tape,
        splice: Splice,
    | repeats(
        analyze::conflicts_from(worktree, paths, done, tape),
        #[trigger] analyze::conflicts_from(worktree, paths, done, spliced(tape, splice)),
        tape,
        splice,
    ) by {
        counting_conflicts_repeats(worktree, paths, done, tape, splice);
    }
}

proof fn finding_the_stop_repeats()
    ensures
        forall|worktree: Text, outcome: Outcome, tape: Tape|
            is_onward(#[trigger] analyze::stop_script(worktree, outcome, tape), tape),
        forall|worktree: Text, outcome: Outcome, tape: Tape, splice: Splice|
            repeats(
                analyze::stop_script(worktree, outcome, tape),
                #[trigger] analyze::stop_script(worktree, outcome, spliced(tape, splice)),
                tape,
                splice,
            ),
{
    looking_for_the_commit_repeats();
    listing_conflicts_repeats();
    reveal(analyze::stop_script);
}

proof fn comparing_ranges_repeats()
    ensures
        forall|worktree: Text, reference: Text, before: Text, after: Text, tape: Tape|
            is_onward(
                #[trigger] analyze::drift_of_script(worktree, reference, before, after, tape),
                tape,
            ),
        forall|
            worktree: Text,
            reference: Text,
            before: Text,
            after: Text,
            tape: Tape,
            splice: Splice,
        |
            repeats(
                analyze::drift_of_script(worktree, reference, before, after, tape),
                #[trigger] analyze::drift_of_script(
                    worktree,
                    reference,
                    before,
                    after,
                    spliced(tape, splice),
                ),
                tape,
                splice,
            ),
{
    git_repeats();
    reveal(analyze::name_status_script);
    reveal(analyze::commit_counts_script);
    reveal(analyze::replay_script);
    reveal(analyze::drift_of_script);
}

proof fn measuring_drift_repeats(
    worktree: Text,
    moves: Seq<RefMoveModel>,
    done: Seq<DriftModel>,
    tape: Tape,
    splice: Splice,
)
    ensures
        is_onward(analyze::drift_from(worktree, moves, done, tape), tape),
        repeats(
            analyze::drift_from(worktree, moves, done, tape),
            analyze::drift_from(worktree, moves, done, spliced(tape, splice)),
            tape,
            splice,
        ),
    decreases moves.len(),
{
    comparing_ranges_repeats();
    if moves.len() > 0 {
        let rest = moves.drop_first();
        measuring_drift_repeats(worktree, rest, done, tape, splice);
        if let (Some(before), Some(after)) = (moves[0].before, moves[0].after) {
            if let Run::Gives(drift, later) = analyze::drift_of_script(
                worktree,
                moves[0].name,
                before,
                after,
                tape,
            ) {
                let more = match drift {
                    Some(drift) => done.push(drift),
                    None => done,
                };
                measuring_drift_repeats(worktree, rest, more, later, splice);
            }
        }
    }
}

pub proof fn analyzing_repeats()
    ensures
        forall|worktree: Text, pre_state: Entries, command: Seq<Text>, outcome: Outcome, tape: Tape|
            is_onward(
                #[trigger] analyze::run_script(worktree, pre_state, command, outcome, tape),
                tape,
            ),
        forall|
            worktree: Text,
            pre_state: Entries,
            command: Seq<Text>,
            outcome: Outcome,
            tape: Tape,
            splice: Splice,
        |
            repeats(
                analyze::run_script(worktree, pre_state, command, outcome, tape),
                #[trigger] analyze::run_script(
                    worktree,
                    pre_state,
                    command,
                    outcome,
                    spliced(tape, splice),
                ),
                tape,
                splice,
            ),
{
    git_repeats();
    finding_the_stop_repeats();
    reveal(analyze::current_state_script);
    reveal(analyze::run_script);
    assert forall|
        worktree: Text,
        moves: Seq<RefMoveModel>,
        done: Seq<DriftModel>,
        tape: Tape,
    | is_onward(
        #[trigger] analyze::drift_from(worktree, moves, done, tape),
        tape,
    ) by {
        measuring_drift_repeats(worktree, moves, done, tape, whole(tape));
    }
    assert forall|
        worktree: Text,
        moves: Seq<RefMoveModel>,
        done: Seq<DriftModel>,
        tape: Tape,
        splice: Splice,
    | repeats(
        analyze::drift_from(worktree, moves, done, tape),
        #[trigger] analyze::drift_from(worktree, moves, done, spliced(tape, splice)),
        tape,
        splice,
    ) by {
        measuring_drift_repeats(worktree, moves, done, tape, splice);
    }
}

proof fn drawing_one_repeats()
    ensures
        forall|worktree: Text, tip: Text, other: Text, tape: Tape|
            is_onward(#[trigger] log_graph_script(worktree, tip, other, tape), tape),
        forall|worktree: Text, tip: Text, other: Text, tape: Tape, splice: Splice|
            repeats(
                log_graph_script(worktree, tip, other, tape),
                #[trigger] log_graph_script(worktree, tip, other, spliced(tape, splice)),
                tape,
                splice,
            ),
{
    git_repeats();
    reveal(log_graph_script);
}

proof fn drawing_each_repeats(
    worktree: Text,
    moves: Seq<RefMoveModel>,
    done: Seq<GraphModel>,
    tape: Tape,
    splice: Splice,
)
    ensures
        is_onward(graphs_from(worktree, moves, done, tape), tape),
        repeats(
            graphs_from(worktree, moves, done, tape),
            graphs_from(worktree, moves, done, spliced(tape, splice)),
            tape,
            splice,
        ),
    decreases moves.len(),
{
    drawing_one_repeats();
    if moves.len() > 0 {
        let rest = moves.drop_first();
        drawing_each_repeats(worktree, rest, done, tape, splice);
        if let (Some(before), Some(after)) = (moves[0].before, moves[0].after) {
            if let Run::Gives(old_graph, drawn) = log_graph_script(worktree, before, after, tape) {
                if let Run::Gives(new_graph, later) = log_graph_script(
                    worktree,
                    after,
                    before,
                    drawn,
                ) {
                    let graph = GraphModel {
                        reference: moves[0].name,
                        before: old_graph,
                        after: new_graph,
                    };
                    drawing_each_repeats(worktree, rest, done.push(graph), later, splice);
                }
            }
        }
    }
}

pub proof fn drawing_repeats()
    ensures
        forall|worktree: Text, analysis: AnalysisModel, detail: Detail, tape: Tape|
            is_onward(#[trigger] graphs_script(worktree, analysis, detail, tape), tape),
        forall|worktree: Text, analysis: AnalysisModel, detail: Detail, tape: Tape, splice: Splice|
            repeats(
                graphs_script(worktree, analysis, detail, tape),
                #[trigger] graphs_script(worktree, analysis, detail, spliced(tape, splice)),
                tape,
                splice,
            ),
{
    reveal(graphs_script);
    assert forall|
        worktree: Text,
        moves: Seq<RefMoveModel>,
        done: Seq<GraphModel>,
        tape: Tape,
    | is_onward(
        #[trigger] graphs_from(worktree, moves, done, tape),
        tape,
    ) by {
        drawing_each_repeats(worktree, moves, done, tape, whole(tape));
    }
    assert forall|
        worktree: Text,
        moves: Seq<RefMoveModel>,
        done: Seq<GraphModel>,
        tape: Tape,
        splice: Splice,
    | repeats(
        graphs_from(worktree, moves, done, tape),
        #[trigger] graphs_from(worktree, moves, done, spliced(tape, splice)),
        tape,
        splice,
    ) by {
        drawing_each_repeats(worktree, moves, done, tape, splice);
    }
}

proof fn prompting_repeats(can_apply: bool, tape: Tape, splice: Splice)
    ensures
        is_onward(ask_from(can_apply, tape), tape),
        repeats(
            ask_from(can_apply, tape),
            ask_from(can_apply, spliced(tape, splice)),
            tape,
            splice,
        ),
    decreases tape.log.len() - tape.next,
{
    files_repeat();
    if let Run::Gives(_, asked) = report::say_script(report::options(can_apply) + "? "@, tape) {
        report::say_advances(report::options(can_apply) + "? "@, tape, asked);
        if let Run::Gives(line, heard) = report::read_line_script(asked) {
            report::read_line_advances(asked, line, heard);
            let advice = "please answer with one of "@ + report::options(can_apply) + "\n"@;
            if let Run::Gives(_, told) = report::say_script(advice, heard) {
                report::say_advances(advice, heard, told);
                prompting_repeats(can_apply, told, splice);
            }
        }
    }
}

// ---------------------------------------------------------------------------
// In the repository
// ---------------------------------------------------------------------------
proof fn moving_refs_repeats()
    ensures
        forall|repo: Text, commands: Text, message: Text, tape: Tape|
            is_onward(#[trigger] undo::move_refs_script(repo, commands, message, tape), tape),
        forall|repo: Text, commands: Text, message: Text, tape: Tape, splice: Splice|
            repeats(
                undo::move_refs_script(repo, commands, message, tape),
                #[trigger] undo::move_refs_script(repo, commands, message, spliced(tape, splice)),
                tape,
                splice,
            ),
        forall|repo: Text, wanted: bool, tape: Tape|
            is_onward(#[trigger] undo::reset_worktree_script(repo, wanted, tape), tape),
        forall|repo: Text, wanted: bool, tape: Tape, splice: Splice|
            repeats(
                undo::reset_worktree_script(repo, wanted, tape),
                #[trigger] undo::reset_worktree_script(repo, wanted, spliced(tape, splice)),
                tape,
                splice,
            ),
        forall|repo: Text, tape: Tape|
            is_onward(#[trigger] undo::current_branch_script(repo, tape), tape),
        forall|repo: Text, tape: Tape, splice: Splice|
            repeats(
                undo::current_branch_script(repo, tape),
                #[trigger] undo::current_branch_script(repo, spliced(tape, splice)),
                tape,
                splice,
            ),
        forall|repo: Text, tape: Tape|
            is_onward(#[trigger] undo::has_changes_script(repo, tape), tape),
        forall|repo: Text, tape: Tape, splice: Splice|
            repeats(
                undo::has_changes_script(repo, tape),
                #[trigger] undo::has_changes_script(repo, spliced(tape, splice)),
                tape,
                splice,
            ),
        forall|repo: Text, tape: Tape|
            is_onward(#[trigger] undo::record_path_script(repo, tape), tape),
        forall|repo: Text, tape: Tape, splice: Splice|
            repeats(
                undo::record_path_script(repo, tape),
                #[trigger] undo::record_path_script(repo, spliced(tape, splice)),
                tape,
                splice,
            ),
        forall|repo: Text, record: undo::RecordModel, tape: Tape|
            is_onward(#[trigger] undo::write_script(repo, record, tape), tape),
        forall|repo: Text, record: undo::RecordModel, tape: Tape, splice: Splice|
            repeats(
                undo::write_script(repo, record, tape),
                #[trigger] undo::write_script(repo, record, spliced(tape, splice)),
                tape,
                splice,
            ),
        forall|worktree: Text, tape: Tape|
            is_onward(#[trigger] analyze::current_state_script(worktree, tape), tape),
        forall|worktree: Text, tape: Tape, splice: Splice|
            repeats(
                analyze::current_state_script(worktree, tape),
                #[trigger] analyze::current_state_script(worktree, spliced(tape, splice)),
                tape,
                splice,
            ),
{
    git_repeats();
    files_repeat();
    reveal(undo::move_refs_script);
    reveal(undo::reset_worktree_script);
    reveal(undo::current_branch_script);
    reveal(undo::has_changes_script);
    reveal(undo::record_path_script);
    reveal(undo::write_script);
    reveal(analyze::current_state_script);
}

proof fn checking_repeats()
    ensures
        forall|
            repo: Text,
            rehearsed: Text,
            branch: Text,
            carry: Option<carry::CarryModel>,
            id: Text,
            tape: Tape,
        |
            is_onward(
                #[trigger] apply::check_worktree_script(repo, rehearsed, branch, carry, id, tape),
                tape,
            ),
        forall|
            repo: Text,
            rehearsed: Text,
            branch: Text,
            carry: Option<carry::CarryModel>,
            id: Text,
            tape: Tape,
            splice: Splice,
        |
            repeats(
                apply::check_worktree_script(repo, rehearsed, branch, carry, id, tape),
                #[trigger] apply::check_worktree_script(
                    repo,
                    rehearsed,
                    branch,
                    carry,
                    id,
                    spliced(tape, splice),
                ),
                tape,
                splice,
            ),
{
    git_repeats();
    moving_refs_repeats();
    reveal(apply::check_clean_script);
    reveal(apply::check_untracked_script);
    reveal(carry::trees_of_script);
    reveal(carry::check_unchanged_script);
    reveal(apply::check_worktree_script);
}

proof fn transplanting_repeats()
    ensures
        forall|
            sandbox: SandboxModel,
            now_unix: u64,
            moved: Seq<RefMoveModel>,
            reset: Option<Text>,
            carried: Option<apply::CarriedModel>,
            tape: Tape,
        |
            is_onward(
                #[trigger] apply::transplant_script(sandbox, now_unix, moved, reset, carried, tape),
                tape,
            ),
        forall|
            sandbox: SandboxModel,
            now_unix: u64,
            moved: Seq<RefMoveModel>,
            reset: Option<Text>,
            carried: Option<apply::CarriedModel>,
            tape: Tape,
            splice: Splice,
        |
            repeats(
                apply::transplant_script(sandbox, now_unix, moved, reset, carried, tape),
                #[trigger] apply::transplant_script(
                    sandbox,
                    now_unix,
                    moved,
                    reset,
                    carried,
                    spliced(tape, splice),
                ),
                tape,
                splice,
            ),
{
    git_repeats();
    moving_refs_repeats();
    reveal(apply::put_back_script);
    reveal(carry::restore_script);
    reveal(apply::transplant_script);
}

pub proof fn applying_repeats()
    ensures
        forall|sandbox: SandboxModel, now_unix: u64, tape: Tape|
            is_onward(#[trigger] apply::run_script(sandbox, now_unix, tape), tape),
        forall|sandbox: SandboxModel, now_unix: u64, tape: Tape, splice: Splice|
            repeats(
                apply::run_script(sandbox, now_unix, tape),
                #[trigger] apply::run_script(sandbox, now_unix, spliced(tape, splice)),
                tape,
                splice,
            ),
{
    moving_refs_repeats();
    checking_repeats();
    transplanting_repeats();
    reveal(apply::apply_script);
    reveal(apply::run_script);
}

proof fn restoring_repeats()
    ensures
        forall|repo: Text, refs: Seq<RefMoveModel>, tape: Tape|
            is_onward(#[trigger] undo::reset_script(repo, refs, tape), tape),
        forall|repo: Text, refs: Seq<RefMoveModel>, tape: Tape, splice: Splice|
            repeats(
                undo::reset_script(repo, refs, tape),
                #[trigger] undo::reset_script(repo, refs, spliced(tape, splice)),
                tape,
                splice,
            ),
        forall|repo: Text, path: Text, record: undo::RecordModel, reset: Option<Text>, tape: Tape|
            is_onward(#[trigger] undo::restore_script(repo, path, record, reset, tape), tape),
        forall|
            repo: Text,
            path: Text,
            record: undo::RecordModel,
            reset: Option<Text>,
            tape: Tape,
            splice: Splice,
        |
            repeats(
                undo::restore_script(repo, path, record, reset, tape),
                #[trigger] undo::restore_script(repo, path, record, reset, spliced(tape, splice)),
                tape,
                splice,
            ),
{
    files_repeat();
    moving_refs_repeats();
    reveal(undo::reset_script);
    reveal(undo::restore_script);
}

proof fn taking_back_repeats()
    ensures
        forall|repo: Text, path: Text, id: Option<Text>, record: undo::RecordModel, tape: Tape|
            is_onward(#[trigger] undo::undo_script(repo, path, id, record, tape), tape),
        forall|
            repo: Text,
            path: Text,
            id: Option<Text>,
            record: undo::RecordModel,
            tape: Tape,
            splice: Splice,
        |
            repeats(
                undo::undo_script(repo, path, id, record, tape),
                #[trigger] undo::undo_script(repo, path, id, record, spliced(tape, splice)),
                tape,
                splice,
            ),
{
    git_repeats();
    restoring_repeats();
    reveal(undo::undo_script);
}

pub proof fn undoing_repeats()
    ensures
        forall|repo: Text, id: Option<Text>, tape: Tape|
            is_onward(#[trigger] undo::run_script(repo, id, tape), tape),
        forall|repo: Text, id: Option<Text>, tape: Tape, splice: Splice|
            repeats(
                undo::run_script(repo, id, tape),
                #[trigger] undo::run_script(repo, id, spliced(tape, splice)),
                tape,
                splice,
            ),
{
    files_repeat();
    moving_refs_repeats();
    taking_back_repeats();
    reveal(undo::run_script);
}

// ---------------------------------------------------------------------------
// Commands
// ---------------------------------------------------------------------------
pub proof fn telling_repeats()
    ensures
        forall|document: DocumentModel, tape: Tape|
            is_onward(#[trigger] emit_script(document, tape), tape),
        forall|document: DocumentModel, tape: Tape, splice: Splice|
            repeats(
                emit_script(document, tape),
                #[trigger] emit_script(document, spliced(tape, splice)),
                tape,
                splice,
            ),
        forall|tape: Tape| is_onward(#[trigger] attended_script(tape), tape),
        forall|tape: Tape, splice: Splice|
            repeats(
                attended_script(tape),
                #[trigger] attended_script(spliced(tape, splice)),
                tape,
                splice,
            ),
        forall|cwd: Text, tape: Tape| is_onward(#[trigger] top_script(cwd, tape), tape),
        forall|cwd: Text, tape: Tape, splice: Splice|
            repeats(
                top_script(cwd, tape),
                #[trigger] top_script(cwd, spliced(tape, splice)),
                tape,
                splice,
            ),
        forall|setting: SettingModel, id: Option<Text>, tape: Tape|
            is_onward(#[trigger] find_script(setting, id, tape), tape),
        forall|setting: SettingModel, id: Option<Text>, tape: Tape, splice: Splice|
            repeats(
                find_script(setting, id, tape),
                #[trigger] find_script(setting, id, spliced(tape, splice)),
                tape,
                splice,
            ),
{
    requests_repeat();
    git_repeats();
    finding_repeats();
    reveal(emit_script);
    reveal(attended_script);
    reveal(top_script);
    reveal(find_script);
}

proof fn deciding_repeats()
    ensures
        forall|decision: Decision, can_apply: bool, outcome: Outcome, json: bool, tape: Tape|
            is_onward(#[trigger] decide_script(decision, can_apply, outcome, json, tape), tape),
        forall|
            decision: Decision,
            can_apply: bool,
            outcome: Outcome,
            json: bool,
            tape: Tape,
            splice: Splice,
        |
            repeats(
                decide_script(decision, can_apply, outcome, json, tape),
                #[trigger] decide_script(decision, can_apply, outcome, json, spliced(tape, splice)),
                tape,
                splice,
            ),
        forall|
            sandbox: SandboxModel,
            analysis: AnalysisModel,
            outcome: Outcome,
            decision: Decision,
            detail: Detail,
            tape: Tape,
        |
            is_onward(
                #[trigger] report_script(sandbox, analysis, outcome, decision, detail, tape),
                tape,
            ),
        forall|
            sandbox: SandboxModel,
            analysis: AnalysisModel,
            outcome: Outcome,
            decision: Decision,
            detail: Detail,
            tape: Tape,
            splice: Splice,
        |
            repeats(
                report_script(sandbox, analysis, outcome, decision, detail, tape),
                #[trigger] report_script(
                    sandbox,
                    analysis,
                    outcome,
                    decision,
                    detail,
                    spliced(tape, splice),
                ),
                tape,
                splice,
            ),
{
    files_repeat();
    telling_repeats();
    drawing_repeats();
    reveal(decide_script);
    reveal(report_script);
    assert forall|can_apply: bool, tape: Tape| is_onward(
        #[trigger] ask_from(can_apply, tape),
        tape,
    ) by {
        prompting_repeats(can_apply, tape, whole(tape));
    }
    assert forall|can_apply: bool, tape: Tape, splice: Splice| repeats(
        ask_from(can_apply, tape),
        #[trigger] ask_from(can_apply, spliced(tape, splice)),
        tape,
        splice,
    ) by {
        prompting_repeats(can_apply, tape, splice);
    }
}

pub proof fn acting_repeats()
    ensures
        forall|choice: Choice, sandbox: SandboxModel, json: bool, tape: Tape|
            is_onward(#[trigger] act_script(choice, sandbox, json, tape), tape),
        forall|choice: Choice, sandbox: SandboxModel, json: bool, tape: Tape, splice: Splice|
            repeats(
                act_script(choice, sandbox, json, tape),
                #[trigger] act_script(choice, sandbox, json, spliced(tape, splice)),
                tape,
                splice,
            ),
{
    files_repeat();
    metadata_repeats();
    looking_repeats();
    applying_repeats();
    reveal(act_script);
}

proof fn finishing_repeats()
    ensures
        forall|
            sandbox: SandboxModel,
            outcome: Outcome,
            decision: Decision,
            setting: SettingModel,
            tape: Tape,
        |
            is_onward(#[trigger] finish_script(sandbox, outcome, decision, setting, tape), tape),
        forall|
            sandbox: SandboxModel,
            outcome: Outcome,
            decision: Decision,
            setting: SettingModel,
            tape: Tape,
            splice: Splice,
        |
            repeats(
                finish_script(sandbox, outcome, decision, setting, tape),
                #[trigger] finish_script(
                    sandbox,
                    outcome,
                    decision,
                    setting,
                    spliced(tape, splice),
                ),
                tape,
                splice,
            ),
{
    analyzing_repeats();
    telling_repeats();
    deciding_repeats();
    acting_repeats();
    reveal(finish_script);
}

proof fn recording_repeats()
    ensures
        forall|
            sandbox: SandboxModel,
            outcome: Outcome,
            decision: Decision,
            setting: SettingModel,
            tape: Tape,
        |
            is_onward(#[trigger] record_script(sandbox, outcome, decision, setting, tape), tape),
        forall|
            sandbox: SandboxModel,
            outcome: Outcome,
            decision: Decision,
            setting: SettingModel,
            tape: Tape,
            splice: Splice,
        |
            repeats(
                record_script(sandbox, outcome, decision, setting, tape),
                #[trigger] record_script(
                    sandbox,
                    outcome,
                    decision,
                    setting,
                    spliced(tape, splice),
                ),
                tape,
                splice,
            ),
{
    metadata_repeats();
    finishing_repeats();
    reveal(record_script);
}

proof fn rehearsing_repeats()
    ensures
        forall|
            command: Seq<Text>,
            todo: Option<Text>,
            decision: Decision,
            setting: SettingModel,
            tape: Tape,
        |
            is_onward(#[trigger] rehearse_script(command, todo, decision, setting, tape), tape),
        forall|
            command: Seq<Text>,
            todo: Option<Text>,
            decision: Decision,
            setting: SettingModel,
            tape: Tape,
            splice: Splice,
        |
            repeats(
                rehearse_script(command, todo, decision, setting, tape),
                #[trigger] rehearse_script(command, todo, decision, setting, spliced(tape, splice)),
                tape,
                splice,
            ),
{
    files_repeat();
    preflight_repeats();
    creating_repeats();
    editing_repeats();
    executing_repeats();
    carrying_repeats();
    recording_repeats();
    reveal(rehearse_script);
}

proof fn resuming_repeats()
    ensures
        forall|id: Option<Text>, decision: Decision, setting: SettingModel, tape: Tape|
            is_onward(#[trigger] resume_script(id, decision, setting, tape), tape),
        forall|
            id: Option<Text>,
            decision: Decision,
            setting: SettingModel,
            tape: Tape,
            splice: Splice,
        |
            repeats(
                resume_script(id, decision, setting, tape),
                #[trigger] resume_script(id, decision, setting, spliced(tape, splice)),
                tape,
                splice,
            ),
{
    telling_repeats();
    executing_repeats();
    carrying_repeats();
    recording_repeats();
    reveal(carry_on_script);
    reveal(resume_script);
}

proof fn showing_repeats()
    ensures
        forall|setting: SettingModel, tape: Tape|
            is_onward(#[trigger] list_script(setting, tape), tape),
        forall|setting: SettingModel, tape: Tape, splice: Splice|
            repeats(
                list_script(setting, tape),
                #[trigger] list_script(setting, spliced(tape, splice)),
                tape,
                splice,
            ),
        forall|id: Option<Text>, setting: SettingModel, tape: Tape|
            is_onward(#[trigger] show_script(id, setting, tape), tape),
        forall|id: Option<Text>, setting: SettingModel, tape: Tape, splice: Splice|
            repeats(
                show_script(id, setting, tape),
                #[trigger] show_script(id, setting, spliced(tape, splice)),
                tape,
                splice,
            ),
{
    files_repeat();
    telling_repeats();
    finding_repeats();
    pruning_repeats();
    analyzing_repeats();
    drawing_repeats();
    reveal(list_script);
    reveal(show_script);
}

proof fn changing_repeats()
    ensures
        forall|id: Option<Text>, setting: SettingModel, tape: Tape|
            is_onward(#[trigger] apply_script(id, setting, tape), tape),
        forall|id: Option<Text>, setting: SettingModel, tape: Tape, splice: Splice|
            repeats(
                apply_script(id, setting, tape),
                #[trigger] apply_script(id, setting, spliced(tape, splice)),
                tape,
                splice,
            ),
        forall|id: Option<Text>, setting: SettingModel, tape: Tape|
            is_onward(#[trigger] undo_script(id, setting, tape), tape),
        forall|id: Option<Text>, setting: SettingModel, tape: Tape, splice: Splice|
            repeats(
                undo_script(id, setting, tape),
                #[trigger] undo_script(id, setting, spliced(tape, splice)),
                tape,
                splice,
            ),
{
    files_repeat();
    telling_repeats();
    acting_repeats();
    undoing_repeats();
    reveal(apply_script);
    reveal(undo_script);
}

proof fn discarding_each_repeats(
    found: Seq<SandboxModel>,
    gone: Seq<Text>,
    tape: Tape,
    splice: Splice,
)
    ensures
        is_onward(discard_from(found, gone, tape), tape),
        repeats(
            discard_from(found, gone, tape),
            discard_from(found, gone, spliced(tape, splice)),
            tape,
            splice,
        ),
    decreases found.len(),
{
    looking_repeats();
    if found.len() > 0 {
        if let Run::Gives(_, after) = remove_rehearsal_script(found[0].root, tape) {
            discarding_each_repeats(
                found.drop_first(),
                gone.push(found[0].meta.id),
                after,
                splice,
            );
        }
    }
}

pub proof fn discarding_repeats()
    ensures
        forall|id: Option<Text>, all: bool, setting: SettingModel, tape: Tape|
            is_onward(#[trigger] doomed_script(id, all, setting, tape), tape),
        forall|id: Option<Text>, all: bool, setting: SettingModel, tape: Tape, splice: Splice|
            repeats(
                doomed_script(id, all, setting, tape),
                #[trigger] doomed_script(id, all, setting, spliced(tape, splice)),
                tape,
                splice,
            ),
        forall|found: Seq<SandboxModel>, gone: Seq<Text>, tape: Tape|
            is_onward(#[trigger] discard_from(found, gone, tape), tape),
        forall|found: Seq<SandboxModel>, gone: Seq<Text>, tape: Tape, splice: Splice|
            repeats(
                discard_from(found, gone, tape),
                #[trigger] discard_from(found, gone, spliced(tape, splice)),
                tape,
                splice,
            ),
        forall|id: Option<Text>, all: bool, setting: SettingModel, tape: Tape|
            is_onward(#[trigger] discard_script(id, all, setting, tape), tape),
        forall|id: Option<Text>, all: bool, setting: SettingModel, tape: Tape, splice: Splice|
            repeats(
                discard_script(id, all, setting, tape),
                #[trigger] discard_script(id, all, setting, spliced(tape, splice)),
                tape,
                splice,
            ),
{
    files_repeat();
    telling_repeats();
    finding_repeats();
    reveal(doomed_script);
    reveal(discard_script);
    assert forall|found: Seq<SandboxModel>, gone: Seq<Text>, tape: Tape| is_onward(
        #[trigger] discard_from(found, gone, tape),
        tape,
    ) by {
        discarding_each_repeats(found, gone, tape, whole(tape));
    }
    assert forall|found: Seq<SandboxModel>, gone: Seq<Text>, tape: Tape, splice: Splice| repeats(
        discard_from(found, gone, tape),
        #[trigger] discard_from(found, gone, spliced(tape, splice)),
        tape,
        splice,
    ) by {
        discarding_each_repeats(found, gone, tape, splice);
    }
}

/// A command can be run again from the start: as long as the replies that it
/// used are there, it does what it did before, whatever follows them.
pub proof fn commands_repeat(
    command: CommandModel,
    setting: SettingModel,
    tape: Tape,
    splice: Splice,
)
    requires
        0 <= tape.next <= tape.log.len(),
        0 <= splice.kept <= tape.log.len(),
    ensures
        is_onward(cli::run_script(command, setting, tape), tape),
        repeats(
            cli::run_script(command, setting, tape),
            cli::run_script(command, setting, spliced(tape, splice)),
            tape,
            splice,
        ),
{
    reveal(cli::run_script);
    files_repeat();
    editing_repeats();
    rehearsing_repeats();
    resuming_repeats();
    showing_repeats();
    changing_repeats();
    discarding_repeats();
}

} // verus!
