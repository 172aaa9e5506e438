//! That recovery is a transplant as well: it finishes or takes back what was
//! recorded, and never runs the rehearsed command again.

use vstd::prelude::*;

use crate::carry;
use crate::files::kind_script;
use crate::git;
use crate::guarantees::probing::probing_is_transplant;
use crate::guarantees::transplant::{
    files_are_files, git_is_captured, is_transplant, moving_refs_is_transplant,
};
use crate::paths::{inside, text_of_bytes};
use crate::recovery::compare::{
    compare_script, copied_tree_script, deleted_from, deletions_match_script, files_are_in_script,
    files_are_script, git_dir_script, index_is_script, index_tree_script, mark_script,
    probe_files_script, result_matches_script, runs_script, sparse_excluded_script, sparse_from,
    worktree_at_script,
};
use crate::recovery::journal::{
    atomic_bytes_script, checksum_script, encode_script, for_journal_script, read_script,
    remove_script, sync_parent_script, write_owned_script, JournalModel, LockModel,
};
use crate::recovery::observe::{
    belongs_script, completion_safe_script, ensure_checkout_script, ensure_known_script,
    ensure_not_moved_script, ensure_rollback_script, in_transit_script, inspect_script,
    observe_script, read_undo_script, rollback_safe_script, some_at_script, state_of_script,
    undo_matches_script, worktree_matches_script, InspectionModel,
};
use crate::recovery::state::{Endpoint, Phase, State};
use crate::recovery::{
    acquire_script, bring_worktree_script, complete_script, delete_from, drop_snapshot_script,
    finish_script, forget_script, path_script, recover_locked_script, recover_script,
    recover_there_script, remove_anchor_script, remove_undo_script, restore_previous_script,
    roll_refs_back_script, roll_worktree_back_script, rollback_script, turn_back_script,
    update_phase_script, update_worktree_script, write_phase_script, Action,
    RecoveredModel,
};
use crate::session::{Ask, Run, Tape};
use crate::text::Text;

verus! {

proof fn finding_sparse_is_transplant(
    records: Seq<Seq<u8>>,
    repo: Text,
    done: Seq<Text>,
    tape: Tape,
)
    ensures
        is_transplant(sparse_from(records, repo, done, tape)),
    decreases records.len(),
{
    files_are_files();
    if records.len() > 0 {
        let rest = records.drop_first();
        finding_sparse_is_transplant(rest, repo, done, tape);
        let path = text_of_bytes(records[0].skip(2));
        if let Run::Gives(found, after) = kind_script(inside(repo, path), tape) {
            finding_sparse_is_transplant(rest, repo, done, after);
            finding_sparse_is_transplant(rest, repo, done.push(path), after);
        }
    }
}

proof fn checking_deletions_is_transplant(
    deleted: Seq<Seq<u8>>,
    leaves: Seq<Seq<u8>>,
    repo: Text,
    tape: Tape,
)
    ensures
        is_transplant(deleted_from(deleted, leaves, repo, tape)),
    decreases deleted.len(),
{
    files_are_files();
    if deleted.len() > 0 {
        let rest = deleted.drop_first();
        checking_deletions_is_transplant(rest, leaves, repo, tape);
        if let Run::Gives(found, after) = kind_script(
            inside(repo, text_of_bytes(deleted[0])),
            tape,
        ) {
            checking_deletions_is_transplant(rest, leaves, repo, after);
        }
    }
}

proof fn comparing_is_transplant()
    ensures
        forall|repo: Text, tape: Tape| is_transplant(#[trigger] git_dir_script(repo, tape)),
        forall|repo: Text, commit: Text, tape: Tape|
            is_transplant(#[trigger] index_is_script(repo, commit, tape)),
        forall|repo: Text, commit: Text, tape: Tape|
            is_transplant(#[trigger] files_are_script(repo, commit, tape)),
{
    git_is_captured();
    files_are_files();
    reveal(git_dir_script);
    reveal(copied_tree_script);
    reveal(index_tree_script);
    reveal(index_is_script);
    reveal(sparse_excluded_script);
    reveal(runs_script);
    reveal(mark_script);
    reveal(compare_script);
    reveal(probe_files_script);
    reveal(files_are_in_script);
    reveal(files_are_script);
    assert forall|records: Seq<Seq<u8>>, repo: Text, done: Seq<Text>, tape: Tape| is_transplant(
        #[trigger] sparse_from(records, repo, done, tape),
    ) by {
        finding_sparse_is_transplant(records, repo, done, tape);
    }
}

proof fn matching_is_transplant()
    ensures
        forall|repo: Text, commit: Text, tape: Tape|
            is_transplant(#[trigger] worktree_at_script(repo, commit, tape)),
        forall|repo: Text, expected: Text, head: Option<Text>, tape: Tape|
            is_transplant(#[trigger] result_matches_script(repo, expected, head, tape)),
{
    git_is_captured();
    comparing_is_transplant();
    reveal(worktree_at_script);
    reveal(deletions_match_script);
    reveal(result_matches_script);
    assert forall|deleted: Seq<Seq<u8>>, leaves: Seq<Seq<u8>>, repo: Text, tape: Tape|
        is_transplant(#[trigger] deleted_from(deleted, leaves, repo, tape)) by {
        checking_deletions_is_transplant(deleted, leaves, repo, tape);
    }
}

proof fn observing_is_transplant()
    ensures
        forall|repo: Text, expected: Text, tape: Tape|
            is_transplant(#[trigger] ensure_checkout_script(repo, expected, tape)),
        forall|repo: Text, journal: JournalModel, tape: Tape|
            is_transplant(#[trigger] ensure_not_moved_script(repo, journal, tape)),
        forall|repo: Text, journal: JournalModel, endpoint: Endpoint, tape: Tape|
            is_transplant(#[trigger] worktree_matches_script(repo, journal, endpoint, tape)),
        forall|repo: Text, journal: JournalModel, tape: Tape|
            is_transplant(#[trigger] in_transit_script(repo, journal, tape)),
        forall|repo: Text, journal: JournalModel, tape: Tape|
            is_transplant(#[trigger] ensure_known_script(repo, journal, tape)),
        forall|repo: Text, tape: Tape| is_transplant(#[trigger] state_of_script(repo, tape)),
{
    git_is_captured();
    moving_refs_is_transplant();
    matching_is_transplant();
    reveal(ensure_checkout_script);
    reveal(ensure_not_moved_script);
    reveal(some_at_script);
    reveal(worktree_matches_script);
    reveal(in_transit_script);
    reveal(ensure_known_script);
    reveal(state_of_script);
}

proof fn weighing_is_transplant()
    ensures
        forall|repo: Text, journal: JournalModel, tape: Tape|
            is_transplant(#[trigger] ensure_rollback_script(repo, journal, tape)),
        forall|repo: Text, journal: JournalModel, tape: Tape|
            is_transplant(#[trigger] completion_safe_script(repo, journal, tape)),
        forall|repo: Text, journal: JournalModel, state: State, tape: Tape|
            is_transplant(#[trigger] rollback_safe_script(repo, journal, state, tape)),
        forall|repo: Text, tape: Tape| is_transplant(#[trigger] read_undo_script(repo, tape)),
        forall|repo: Text, journal: JournalModel, state: State, tape: Tape|
            is_transplant(#[trigger] undo_matches_script(repo, journal, state, tape)),
{
    files_are_files();
    probing_is_transplant();
    comparing_is_transplant();
    observing_is_transplant();
    reveal(ensure_rollback_script);
    reveal(completion_safe_script);
    reveal(rollback_safe_script);
    reveal(read_undo_script);
    reveal(undo_matches_script);
}

proof fn inspecting_is_transplant()
    ensures
        forall|repo: Text, journal: JournalModel, path: Text, tape: Tape|
            is_transplant(#[trigger] inspect_script(repo, journal, path, tape)),
{
    git_is_captured();
    observing_is_transplant();
    weighing_is_transplant();
    reveal(belongs_script);
    reveal(observe_script);
    reveal(inspect_script);
}

proof fn journalling_is_transplant()
    ensures
        forall|path: Text, tape: Tape| is_transplant(#[trigger] for_journal_script(path, tape)),
        forall|path: Text, tape: Tape| is_transplant(#[trigger] read_script(path, tape)),
        forall|path: Text, bytes: Seq<u8>, tape: Tape|
            is_transplant(#[trigger] atomic_bytes_script(path, bytes, tape)),
        forall|path: Text, lock: LockModel, journal: JournalModel, tape: Tape|
            is_transplant(#[trigger] write_phase_script(path, lock, journal, tape)),
        forall|path: Text, lock: LockModel, phase: Phase, tape: Tape|
            is_transplant(#[trigger] update_phase_script(path, lock, phase, tape)),
        forall|path: Text, tape: Tape| is_transplant(#[trigger] forget_script(path, tape)),
{
    git_is_captured();
    files_are_files();
    reveal(for_journal_script);
    reveal(checksum_script);
    reveal(read_script);
    reveal(encode_script);
    reveal(sync_parent_script);
    reveal(atomic_bytes_script);
    reveal(write_owned_script);
    reveal(remove_script);
    reveal(write_phase_script);
    reveal(update_phase_script);
    reveal(forget_script);
}

proof fn completing_is_transplant()
    ensures
        forall|repo: Text, lock: LockModel, inspection: InspectionModel, tape: Tape|
            is_transplant(#[trigger] complete_script(repo, lock, inspection, tape)),
{
    git_is_captured();
    files_are_files();
    probing_is_transplant();
    moving_refs_is_transplant();
    comparing_is_transplant();
    observing_is_transplant();
    weighing_is_transplant();
    inspecting_is_transplant();
    journalling_is_transplant();
    reveal(carry::restore_script);
    reveal(carry::restore_snapshot_script);
    reveal(remove_undo_script);
    reveal(update_worktree_script);
    reveal(bring_worktree_script);
    reveal(finish_script);
    reveal(complete_script);
}

proof fn deleting_is_transplant(repo: Text, names: Seq<Text>, tape: Tape)
    ensures
        is_transplant(delete_from(repo, names, tape)),
    decreases names.len(),
{
    git_is_captured();
    if names.len() > 0 {
        if let Run::Gives(output, after) = git::run_script(
            repo,
            seq!["update-ref"@, "-d"@, names[0]],
            tape,
        ) {
            deleting_is_transplant(repo, names.drop_first(), after);
        }
    }
}

proof fn turning_back_is_transplant()
    ensures
        forall|
            repo: Text,
            lock: LockModel,
            journal: JournalModel,
            inspection: InspectionModel,
            tape: Tape,
        |
            is_transplant(#[trigger] turn_back_script(repo, lock, journal, inspection, tape)),
        forall|repo: Text, journal: JournalModel, inspection: InspectionModel, tape: Tape|
            is_transplant(#[trigger] roll_refs_back_script(repo, journal, inspection, tape)),
        forall|repo: Text, journal: JournalModel, inspection: InspectionModel, tape: Tape|
            is_transplant(#[trigger] roll_worktree_back_script(repo, journal, inspection, tape)),
{
    git_is_captured();
    moving_refs_is_transplant();
    observing_is_transplant();
    weighing_is_transplant();
    journalling_is_transplant();
    reveal(carry::restore_snapshot_script);
    reveal(turn_back_script);
    reveal(roll_refs_back_script);
    reveal(roll_worktree_back_script);
}

proof fn rolling_back_is_transplant()
    ensures
        forall|
            repo: Text,
            lock: LockModel,
            journal: JournalModel,
            inspection: InspectionModel,
            tape: Tape,
        |
            is_transplant(#[trigger] rollback_script(repo, lock, journal, inspection, tape)),
{
    git_is_captured();
    files_are_files();
    comparing_is_transplant();
    weighing_is_transplant();
    journalling_is_transplant();
    turning_back_is_transplant();
    reveal(restore_previous_script);
    reveal(drop_snapshot_script);
    reveal(remove_anchor_script);
    reveal(rollback_script);
    assert forall|repo: Text, names: Seq<Text>, tape: Tape| is_transplant(
        #[trigger] delete_from(repo, names, tape),
    ) by {
        deleting_is_transplant(repo, names, tape);
    }
}

/// Recovery is a transplant: whether it only looks, completes what was begun or
/// takes it back, it never runs the rehearsed command again.
pub proof fn recovering_never_runs_the_command(
    repo: Text,
    action: Action,
    expected: Option<Text>,
    tape: Tape,
    ask: Ask,
    stopped: Tape,
)
    requires
        recover_script(repo, action, expected, tape) == Run::<RecoveredModel>::Asks(ask, stopped),
    ensures
        !(ask is Spawn),
{
    comparing_is_transplant();
    inspecting_is_transplant();
    journalling_is_transplant();
    completing_is_transplant();
    rolling_back_is_transplant();
    reveal(path_script);
    reveal(acquire_script);
    reveal(recover_locked_script);
    reveal(recover_there_script);
}

} // verus!
