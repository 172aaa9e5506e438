//! That a conversation only goes on: looking for collisions, looking at an interrupted
//! operation and finishing it or taking it back leave said what was said.

use vstd::prelude::*;

use crate::carry;
use crate::collision::walk::{
    act_script, clear_from, clear_worktree_script, copy_entry_advances, copy_entry_script,
    copy_from, copy_link_script, copy_worktree_script, empty_directories_script, empty_from,
    entries_of, files_from, ignore_entry_advances, ignore_entry_script, ignore_from,
    make_dir_script, removal, remove_existing_script, remove_ignore_file_script,
    remove_ignore_files_script, worktree_file_script, worktree_files_script, EntryModel,
    FileStateModel,
};
use crate::collision::{
    attempt_script, build_probe_script, check_operation_script, copy_index_script,
    copy_setting_script, copy_sparse_config_script, directory_gone_script, file_changed_script,
    git_path_script, git_path_with_env_script, make_parent_script, probe_script, shared_from,
    subject_script, tracked_paths_script, Operation,
};
use crate::files::{
    do_script, kind_script, leads_to_script, list_script, present_script, read_bytes_script,
    read_text_script,
};
use crate::git;
use crate::guarantees::conversation::{
    continues, going_on_adds_up, is_complete, left_by, requests_are_exchanges,
};
use crate::paths::{inside, text_of_bytes};
use crate::recovery::compare::{
    compare_script, copied_tree_script, deleted_from, deletions_match_script, files_are_in_script,
    files_are_script, git_dir_script, index_is_script, index_tree_script, mark_script,
    probe_files_script, result_matches_script, runs_script, sparse_excluded_script, sparse_from,
    worktree_at_script,
};
use crate::recovery::journal::{
    atomic_bytes_script, checksum_script, encode_script, for_journal_script, read_script,
    remove_script, sync_parent_script, write_owned_script, JournalModel, LockModel,
};
use crate::recovery::observe::{
    belongs_script, completion_safe_script, ensure_checkout_script, ensure_known_script,
    ensure_not_moved_script, ensure_rollback_script, in_transit_script, inspect_script,
    observe_script, read_undo_script, rollback_safe_script, some_at_script, state_of_script,
    undo_matches_script, worktree_matches_script, InspectionModel,
};
use crate::recovery::state::{Endpoint, Phase, State};
use crate::recovery::{
    bring_worktree_script, complete_script, delete_from, drop_snapshot_script,
    finish_script, forget_script, 
    remove_anchor_script, remove_undo_script, restore_previous_script,
    roll_refs_back_script, roll_worktree_back_script, rollback_script, turn_back_script,
    update_phase_script, update_worktree_script, write_phase_script,};
use crate::session::{further, Answer, Ask, Kind, Run, Tape};
use crate::text::Text;
use crate::undo;

verus! {

/// Whether a run goes on with the conversation.
pub open spec fn goes_on<T>(run: Run<T>, tape: Tape) -> bool {
    is_complete(tape) ==> continues(left_by(run), tape)
}

pub proof fn git_goes_on()
    ensures
        forall|dir: Text, args: Seq<Text>, tape: Tape|
            goes_on(#[trigger] git::run_script(dir, args, tape), tape),
        forall|dir: Text, args: Seq<Text>, input: Text, tape: Tape|
            goes_on(#[trigger] git::run_with_stdin_script(dir, args, input, tape), tape),
        forall|dir: Text, args: Seq<Text>, tape: Tape|
            goes_on(#[trigger] git::run_bytes_script(dir, args, tape), tape),
        forall|dir: Text, args: Seq<Text>, env: Seq<(Text, Text)>, tape: Tape|
            goes_on(#[trigger] git::run_with_clean_env_script(dir, args, env, tape), tape),
        forall|dir: Text, args: Seq<Text>, env: Seq<(Text, Text)>, tape: Tape|
            goes_on(#[trigger] git::run_bytes_with_clean_env_script(dir, args, env, tape), tape),
        forall|dir: Text, pattern: Text, strip: u8, tape: Tape|
            goes_on(#[trigger] git::refs_script(dir, pattern, strip, tape), tape),
        forall|path: Text, tape: Tape|
            goes_on(#[trigger] git::canonicalize_script(path, tape), tape),
{
    going_on_adds_up();
    requests_are_exchanges();
    reveal(git::captured);
    reveal(git::run_with_clean_env_script);
    reveal(git::run_bytes_with_clean_env_script);
    reveal(git::refs_script);
}

pub proof fn files_go_on()
    ensures
        forall|path: Text, tape: Tape| goes_on(#[trigger] read_text_script(path, tape), tape),
        forall|path: Text, tape: Tape| goes_on(#[trigger] read_bytes_script(path, tape), tape),
        forall|path: Text, tape: Tape| goes_on(#[trigger] kind_script(path, tape), tape),
        forall|path: Text, tape: Tape| goes_on(#[trigger] present_script(path, tape), tape),
        forall|path: Text, kind: Kind, tape: Tape|
            goes_on(#[trigger] leads_to_script(path, kind, tape), tape),
        forall|dir: Text, path: Text, tape: Tape|
            goes_on(#[trigger] list_script(dir, path, tape), tape),
        forall|ask: Ask, path: Text, tape: Tape|
            goes_on(#[trigger] do_script(ask, path, tape), tape),
{
    going_on_adds_up();
    requests_are_exchanges();
}

pub proof fn moving_refs_goes_on()
    ensures
        forall|repo: Text, commands: Text, message: Text, tape: Tape|
            goes_on(#[trigger] undo::move_refs_script(repo, commands, message, tape), tape),
        forall|repo: Text, wanted: bool, tape: Tape|
            goes_on(#[trigger] undo::reset_worktree_script(repo, wanted, tape), tape),
        forall|repo: Text, tape: Tape|
            goes_on(#[trigger] undo::current_branch_script(repo, tape), tape),
{
    going_on_adds_up();
    git_goes_on();
    reveal(undo::move_refs_script);
    reveal(undo::reset_worktree_script);
    reveal(undo::current_branch_script);
}

// ---------------------------------------------------------------------------
// Looking for collisions
// ---------------------------------------------------------------------------
proof fn reading_files_goes_on(
    stack: Seq<Text>,
    done: Seq<(Text, FileStateModel)>,
    about: Text,
    tape: Tape,
)
    ensures
        goes_on(files_from(stack, done, about, tape), tape),
    decreases tape.log.len() - tape.next,
{
    going_on_adds_up();
    if stack.len() > 0 && 0 <= tape.next < tape.log.len() {
        let path = stack.last();
        let rest = stack.drop_last();
        let looked = further(tape, Ask::Kind(path));
        if 0 <= looked.next < looked.log.len() {
            match looked.log[looked.next] {
                Answer::Names(names) => {
                    reading_files_goes_on(
                        rest + entries_of(path, names, true),
                        done,
                        about,
                        further(looked, Ask::List(path)),
                    );
                },
                Answer::Text(target) => {
                    reading_files_goes_on(
                        rest,
                        done.push((path, FileStateModel::Symlink(target))),
                        about,
                        further(looked, Ask::ReadLink(path)),
                    );
                },
                Answer::Bytes(bytes) => {
                    reading_files_goes_on(
                        rest,
                        done.push((path, FileStateModel::File(bytes))),
                        about,
                        further(looked, Ask::ReadBytes(path)),
                    );
                },
                _ => {},
            }
        }
    }
}

proof fn finding_empty_goes_on(
    stack: Seq<Text>,
    done: Seq<Text>,
    about: Text,
    tape: Tape,
)
    ensures
        goes_on(empty_from(stack, done, about, tape), tape),
    decreases tape.log.len() - tape.next,
{
    going_on_adds_up();
    if stack.len() > 0 && 0 <= tape.next < tape.log.len() {
        let path = stack.last();
        let rest = stack.drop_last();
        let looked = further(tape, Ask::Kind(path));
        finding_empty_goes_on(rest, done, about, looked);
        if 0 <= looked.next < looked.log.len() {
            let read = further(looked, Ask::List(path));
            if let Answer::Names(names) = looked.log[looked.next] {
                finding_empty_goes_on(rest, done.push(path), about, read);
                finding_empty_goes_on(rest, done, about, read);
                finding_empty_goes_on(
                    rest + entries_of(path, names, false),
                    done,
                    about,
                    read,
                );
            }
        }
    }
}

proof fn acting_goes_on()
    ensures
        forall|ask: Ask, about: Text, tape: Tape|
            goes_on(#[trigger] act_script(ask, about, tape), tape),
{
    going_on_adds_up();
    reveal(act_script);
}

proof fn clearing_goes_on(stack: Seq<Text>, about: Text, tape: Tape)
    ensures
        goes_on(clear_from(stack, about, tape), tape),
    decreases stack.len(),
{
    going_on_adds_up();
    acting_goes_on();
    if stack.len() > 0 && 0 <= tape.next < tape.log.len() {
        let path = stack.last();
        let looked = further(tape, Ask::Kind(path));
        if let Answer::Kind(kind) = tape.log[tape.next] {
            if let Run::Gives(removed, after) = act_script(removal(path, kind), about, looked) {
                clearing_goes_on(stack.drop_last(), about, after);
            }
        }
    }
}

proof fn copying_one_goes_on()
    ensures
        forall|from: Text, to: Text, about: Text, tape: Tape|
            goes_on(#[trigger] copy_entry_script(from, to, about, tape), tape),
{
    going_on_adds_up();
    acting_goes_on();
    reveal(remove_existing_script);
    reveal(make_dir_script);
    reveal(copy_link_script);
    reveal(copy_entry_script);
}

proof fn copying_goes_on(stack: Seq<(Text, Text)>, about: Text, tape: Tape)
    ensures
        goes_on(copy_from(stack, about, tape), tape),
    decreases tape.log.len() - tape.next,
{
    going_on_adds_up();
    copying_one_goes_on();
    if stack.len() > 0 {
        let (from, to) = stack.last();
        copy_entry_advances(from, to, about, tape);
        if let Run::Gives(below, after) = copy_entry_script(from, to, about, tape) {
            copying_goes_on(stack.drop_last() + below, about, after);
        }
    }
}

proof fn ignoring_one_goes_on()
    ensures
        forall|entry: EntryModel, repo: Text, rehearsed: Text, target: Text, tape: Tape|
            goes_on(#[trigger] ignore_entry_script(entry, repo, rehearsed, target, tape), tape),
{
    acting_goes_on();
    going_on_adds_up();
    git_goes_on();
    reveal(remove_ignore_file_script);
    reveal(ignore_entry_script);
}

proof fn ignoring_goes_on(
    stack: Seq<EntryModel>,
    repo: Text,
    rehearsed: Text,
    target: Text,
    tape: Tape,
)
    ensures
        goes_on(ignore_from(stack, repo, rehearsed, target, tape), tape),
    decreases tape.log.len() - tape.next,
{
    going_on_adds_up();
    ignoring_one_goes_on();
    if stack.len() > 0 {
        ignore_entry_advances(stack.last(), repo, rehearsed, target, tape);
        if let Run::Gives(below, after) = ignore_entry_script(
            stack.last(),
            repo,
            rehearsed,
            target,
            tape,
        ) {
            ignoring_goes_on(stack.drop_last() + below, repo, rehearsed, target, after);
        }
    }
}

pub proof fn walking_goes_on()
    ensures
        forall|root: Text, tape: Tape|
            goes_on(#[trigger] worktree_files_script(root, tape), tape),
        forall|path: Text, tape: Tape| goes_on(#[trigger] worktree_file_script(path, tape), tape),
        forall|root: Text, tape: Tape|
            goes_on(#[trigger] empty_directories_script(root, tape), tape),
        forall|root: Text, tape: Tape|
            goes_on(#[trigger] clear_worktree_script(root, tape), tape),
        forall|source: Text, destination: Text, tape: Tape|
            goes_on(#[trigger] copy_worktree_script(source, destination, tape), tape),
        forall|root: Text, repo: Text, rehearsed: Text, target: Text, tape: Tape|
            goes_on(
                #[trigger] remove_ignore_files_script(root, repo, rehearsed, target, tape),
                tape,
            ),
{
    going_on_adds_up();
    reveal(worktree_files_script);
    reveal(worktree_file_script);
    reveal(empty_directories_script);
    reveal(clear_worktree_script);
    reveal(copy_worktree_script);
    reveal(remove_ignore_files_script);
    assert forall|stack: Seq<Text>, done: Seq<(Text, FileStateModel)>, about: Text, tape: Tape|
        goes_on(#[trigger] files_from(stack, done, about, tape), tape) by {
        reading_files_goes_on(stack, done, about, tape);
    }
    assert forall|stack: Seq<Text>, done: Seq<Text>, about: Text, tape: Tape| goes_on(
        #[trigger] empty_from(stack, done, about, tape),
        tape,
    ) by {
        finding_empty_goes_on(stack, done, about, tape);
    }
    assert forall|stack: Seq<Text>, about: Text, tape: Tape| goes_on(
        #[trigger] clear_from(stack, about, tape),
        tape,
    ) by {
        clearing_goes_on(stack, about, tape);
    }
    assert forall|stack: Seq<(Text, Text)>, about: Text, tape: Tape| goes_on(
        #[trigger] copy_from(stack, about, tape),
        tape,
    ) by {
        copying_goes_on(stack, about, tape);
    }
    assert forall|
        stack: Seq<EntryModel>,
        repo: Text,
        rehearsed: Text,
        target: Text,
        tape: Tape,
    | goes_on(#[trigger] ignore_from(stack, repo, rehearsed, target, tape), tape) by {
        ignoring_goes_on(stack, repo, rehearsed, target, tape);
    }
}

proof fn sharing_goes_on(from: Text, to: Text, names: Seq<Text>, tape: Tape)
    ensures
        goes_on(shared_from(from, to, names, tape), tape),
    decreases names.len(),
{
    going_on_adds_up();
    files_go_on();
    if names.len() > 0 {
        let rest = names.drop_first();
        sharing_goes_on(from, to, rest, tape);
        let copy = Ask::Copy(inside(from, names[0]), inside(to, names[0]));
        if let Run::Gives(copied, after) = do_script(copy, inside(to, names[0]), tape) {
            sharing_goes_on(from, to, rest, after);
        }
    }
}

pub proof fn missing_directories_goes_on(paths: Seq<Text>, tape: Tape)
    ensures
        goes_on(directory_gone_script(paths, tape), tape),
    decreases paths.len(),
{
    going_on_adds_up();
    files_go_on();
    if paths.len() > 0 {
        if let Run::Gives(there, after) = leads_to_script(paths[0], Kind::Directory, tape) {
            missing_directories_goes_on(paths.drop_first(), after);
        }
    }
}

proof fn comparing_files_goes_on(
    files: Seq<(Text, FileStateModel)>,
    known: Seq<Text>,
    probe: Text,
    tape: Tape,
)
    ensures
        goes_on(file_changed_script(files, known, probe, tape), tape),
    decreases files.len(),
{
    going_on_adds_up();
    walking_goes_on();
    if files.len() > 0 {
        let rest = files.drop_first();
        comparing_files_goes_on(rest, known, probe, tape);
        if let Run::Gives(state, after) = worktree_file_script(files[0].0, tape) {
            comparing_files_goes_on(rest, known, probe, after);
        }
    }
}

pub proof fn configuring_goes_on()
    ensures
        forall|source: Text, destination: Text, tape: Tape|
            goes_on(#[trigger] copy_index_script(source, destination, tape), tape),
        forall|repo: Text, probe: Text, env: Seq<(Text, Text)>, tape: Tape|
            goes_on(#[trigger] copy_sparse_config_script(repo, probe, env, tape), tape),
        forall|repo: Text, rehearsed: Text, target: Text, tape: Tape|
            goes_on(#[trigger] subject_script(repo, rehearsed, target, tape), tape),
        forall|probe: Text, name: Text, env: Seq<(Text, Text)>, tape: Tape|
            goes_on(#[trigger] git_path_with_env_script(probe, name, env, tape), tape),
{
    going_on_adds_up();
    git_goes_on();
    files_go_on();
    reveal(git_path_script);
    reveal(git_path_with_env_script);
    reveal(copy_index_script);
    reveal(copy_setting_script);
    reveal(make_parent_script);
    reveal(copy_sparse_config_script);
    reveal(subject_script);
    assert forall|from: Text, to: Text, names: Seq<Text>, tape: Tape| goes_on(
        #[trigger] shared_from(from, to, names, tape),
        tape,
    ) by {
        sharing_goes_on(from, to, names, tape);
    }
}

pub proof fn attempting_goes_on()
    ensures
        forall|
            probe: Text,
            target: Text,
            operation: Operation,
            env: Seq<(Text, Text)>,
            tape: Tape,
        |
            goes_on(#[trigger] attempt_script(probe, target, operation, env, tape), tape),
{
    going_on_adds_up();
    git_goes_on();
    walking_goes_on();
    reveal(tracked_paths_script);
    reveal(attempt_script);
    assert forall|paths: Seq<Text>, tape: Tape| goes_on(
        #[trigger] directory_gone_script(paths, tape),
        tape,
    ) by {
        missing_directories_goes_on(paths, tape);
    }
    assert forall|
        files: Seq<(Text, FileStateModel)>,
        known: Seq<Text>,
        probe: Text,
        tape: Tape,
    | goes_on(#[trigger] file_changed_script(files, known, probe, tape), tape) by {
        comparing_files_goes_on(files, known, probe, tape);
    }
}

/// Looking for collisions runs git on a copy and nothing on the terminal.
pub proof fn probing_goes_on()
    ensures
        forall|repo: Text, rehearsed: Text, target: Text, operation: Operation, tape: Tape|
            goes_on(
                #[trigger] check_operation_script(repo, rehearsed, target, operation, tape),
                tape,
            ),
{
    going_on_adds_up();
    git_goes_on();
    files_go_on();
    walking_goes_on();
    configuring_goes_on();
    attempting_goes_on();
    reveal(build_probe_script);
    reveal(probe_script);
    reveal(check_operation_script);
}

// ---------------------------------------------------------------------------
// Recovering
// ---------------------------------------------------------------------------
proof fn finding_sparse_goes_on(
    records: Seq<Seq<u8>>,
    repo: Text,
    done: Seq<Text>,
    tape: Tape,
)
    ensures
        goes_on(sparse_from(records, repo, done, tape), tape),
    decreases records.len(),
{
    going_on_adds_up();
    files_go_on();
    if records.len() > 0 {
        let rest = records.drop_first();
        finding_sparse_goes_on(rest, repo, done, tape);
        let path = text_of_bytes(records[0].skip(2));
        if let Run::Gives(found, after) = kind_script(inside(repo, path), tape) {
            finding_sparse_goes_on(rest, repo, done, after);
            finding_sparse_goes_on(rest, repo, done.push(path), after);
        }
    }
}

proof fn checking_deletions_goes_on(
    deleted: Seq<Seq<u8>>,
    leaves: Seq<Seq<u8>>,
    repo: Text,
    tape: Tape,
)
    ensures
        goes_on(deleted_from(deleted, leaves, repo, tape), tape),
    decreases deleted.len(),
{
    going_on_adds_up();
    files_go_on();
    if deleted.len() > 0 {
        let rest = deleted.drop_first();
        checking_deletions_goes_on(rest, leaves, repo, tape);
        if let Run::Gives(found, after) = kind_script(
            inside(repo, text_of_bytes(deleted[0])),
            tape,
        ) {
            checking_deletions_goes_on(rest, leaves, repo, after);
        }
    }
}

pub proof fn sparse_goes_on()
    ensures
        forall|repo: Text, env: Seq<(Text, Text)>, tape: Tape|
            goes_on(#[trigger] sparse_excluded_script(repo, env, tape), tape),
{
    going_on_adds_up();
    git_goes_on();
    reveal(sparse_excluded_script);
    assert forall|records: Seq<Seq<u8>>, repo: Text, done: Seq<Text>, tape: Tape| goes_on(
        #[trigger] sparse_from(records, repo, done, tape),
        tape,
    ) by {
        finding_sparse_goes_on(records, repo, done, tape);
    }
}

pub proof fn comparing_goes_on()
    ensures
        forall|repo: Text, tape: Tape| goes_on(#[trigger] git_dir_script(repo, tape), tape),
        forall|repo: Text, commit: Text, tape: Tape|
            goes_on(#[trigger] index_is_script(repo, commit, tape), tape),
        forall|repo: Text, commit: Text, tape: Tape|
            goes_on(#[trigger] files_are_script(repo, commit, tape), tape),
{
    going_on_adds_up();
    git_goes_on();
    files_go_on();
    reveal(git_dir_script);
    reveal(copied_tree_script);
    reveal(index_tree_script);
    reveal(index_is_script);
    reveal(sparse_excluded_script);
    reveal(runs_script);
    reveal(mark_script);
    reveal(compare_script);
    reveal(probe_files_script);
    reveal(files_are_in_script);
    reveal(files_are_script);
    assert forall|records: Seq<Seq<u8>>, repo: Text, done: Seq<Text>, tape: Tape| goes_on(
        #[trigger] sparse_from(records, repo, done, tape),
        tape,
    ) by {
        finding_sparse_goes_on(records, repo, done, tape);
    }
}

pub proof fn matching_goes_on()
    ensures
        forall|repo: Text, commit: Text, tape: Tape|
            goes_on(#[trigger] worktree_at_script(repo, commit, tape), tape),
        forall|repo: Text, expected: Text, head: Option<Text>, tape: Tape|
            goes_on(#[trigger] result_matches_script(repo, expected, head, tape), tape),
{
    going_on_adds_up();
    git_goes_on();
    comparing_goes_on();
    reveal(worktree_at_script);
    reveal(deletions_match_script);
    reveal(result_matches_script);
    assert forall|deleted: Seq<Seq<u8>>, leaves: Seq<Seq<u8>>, repo: Text, tape: Tape|
        goes_on(#[trigger] deleted_from(deleted, leaves, repo, tape), tape) by {
        checking_deletions_goes_on(deleted, leaves, repo, tape);
    }
}

pub proof fn observing_goes_on()
    ensures
        forall|repo: Text, expected: Text, tape: Tape|
            goes_on(#[trigger] ensure_checkout_script(repo, expected, tape), tape),
        forall|repo: Text, journal: JournalModel, tape: Tape|
            goes_on(#[trigger] ensure_not_moved_script(repo, journal, tape), tape),
        forall|repo: Text, journal: JournalModel, endpoint: Endpoint, tape: Tape|
            goes_on(#[trigger] worktree_matches_script(repo, journal, endpoint, tape), tape),
        forall|repo: Text, journal: JournalModel, tape: Tape|
            goes_on(#[trigger] in_transit_script(repo, journal, tape), tape),
        forall|repo: Text, journal: JournalModel, tape: Tape|
            goes_on(#[trigger] ensure_known_script(repo, journal, tape), tape),
        forall|repo: Text, tape: Tape| goes_on(#[trigger] state_of_script(repo, tape), tape),
{
    going_on_adds_up();
    git_goes_on();
    moving_refs_goes_on();
    matching_goes_on();
    reveal(ensure_checkout_script);
    reveal(ensure_not_moved_script);
    reveal(some_at_script);
    reveal(worktree_matches_script);
    reveal(in_transit_script);
    reveal(ensure_known_script);
    reveal(state_of_script);
}

pub proof fn weighing_goes_on()
    ensures
        forall|repo: Text, journal: JournalModel, tape: Tape|
            goes_on(#[trigger] ensure_rollback_script(repo, journal, tape), tape),
        forall|repo: Text, journal: JournalModel, tape: Tape|
            goes_on(#[trigger] completion_safe_script(repo, journal, tape), tape),
        forall|repo: Text, journal: JournalModel, state: State, tape: Tape|
            goes_on(#[trigger] rollback_safe_script(repo, journal, state, tape), tape),
        forall|repo: Text, tape: Tape| goes_on(#[trigger] read_undo_script(repo, tape), tape),
        forall|repo: Text, journal: JournalModel, state: State, tape: Tape|
            goes_on(#[trigger] undo_matches_script(repo, journal, state, tape), tape),
{
    going_on_adds_up();
    files_go_on();
    probing_goes_on();
    comparing_goes_on();
    observing_goes_on();
    reveal(ensure_rollback_script);
    reveal(completion_safe_script);
    reveal(rollback_safe_script);
    reveal(read_undo_script);
    reveal(undo_matches_script);
}

pub proof fn inspecting_goes_on()
    ensures
        forall|repo: Text, journal: JournalModel, path: Text, tape: Tape|
            goes_on(#[trigger] inspect_script(repo, journal, path, tape), tape),
{
    going_on_adds_up();
    git_goes_on();
    observing_goes_on();
    weighing_goes_on();
    reveal(belongs_script);
    reveal(observe_script);
    reveal(inspect_script);
}

pub proof fn journalling_goes_on()
    ensures
        forall|path: Text, tape: Tape| goes_on(#[trigger] for_journal_script(path, tape), tape),
        forall|path: Text, tape: Tape| goes_on(#[trigger] read_script(path, tape), tape),
        forall|path: Text, bytes: Seq<u8>, tape: Tape|
            goes_on(#[trigger] atomic_bytes_script(path, bytes, tape), tape),
        forall|path: Text, lock: LockModel, journal: JournalModel, tape: Tape|
            goes_on(#[trigger] write_phase_script(path, lock, journal, tape), tape),
        forall|path: Text, lock: LockModel, phase: Phase, tape: Tape|
            goes_on(#[trigger] update_phase_script(path, lock, phase, tape), tape),
        forall|path: Text, tape: Tape| goes_on(#[trigger] forget_script(path, tape), tape),
{
    going_on_adds_up();
    git_goes_on();
    files_go_on();
    reveal(for_journal_script);
    reveal(checksum_script);
    reveal(read_script);
    reveal(encode_script);
    reveal(sync_parent_script);
    reveal(atomic_bytes_script);
    reveal(write_owned_script);
    reveal(remove_script);
    reveal(write_phase_script);
    reveal(update_phase_script);
    reveal(forget_script);
}

pub proof fn completing_goes_on()
    ensures
        forall|repo: Text, lock: LockModel, inspection: InspectionModel, tape: Tape|
            goes_on(#[trigger] complete_script(repo, lock, inspection, tape), tape),
{
    going_on_adds_up();
    git_goes_on();
    files_go_on();
    probing_goes_on();
    moving_refs_goes_on();
    comparing_goes_on();
    observing_goes_on();
    weighing_goes_on();
    inspecting_goes_on();
    journalling_goes_on();
    reveal(carry::restore_script);
    reveal(carry::restore_snapshot_script);
    reveal(remove_undo_script);
    reveal(update_worktree_script);
    reveal(bring_worktree_script);
    reveal(finish_script);
    reveal(complete_script);
}

pub proof fn deleting_goes_on(repo: Text, names: Seq<Text>, tape: Tape)
    ensures
        goes_on(delete_from(repo, names, tape), tape),
    decreases names.len(),
{
    going_on_adds_up();
    git_goes_on();
    if names.len() > 0 {
        if let Run::Gives(output, after) = git::run_script(
            repo,
            seq!["update-ref"@, "-d"@, names[0]],
            tape,
        ) {
            deleting_goes_on(repo, names.drop_first(), after);
        }
    }
}

pub proof fn turning_back_goes_on()
    ensures
        forall|
            repo: Text,
            lock: LockModel,
            journal: JournalModel,
            inspection: InspectionModel,
            tape: Tape,
        |
            goes_on(#[trigger] turn_back_script(repo, lock, journal, inspection, tape), tape),
        forall|repo: Text, journal: JournalModel, inspection: InspectionModel, tape: Tape|
            goes_on(#[trigger] roll_refs_back_script(repo, journal, inspection, tape), tape),
        forall|repo: Text, journal: JournalModel, inspection: InspectionModel, tape: Tape|
            goes_on(#[trigger] roll_worktree_back_script(repo, journal, inspection, tape), tape),
{
    going_on_adds_up();
    git_goes_on();
    moving_refs_goes_on();
    observing_goes_on();
    weighing_goes_on();
    journalling_goes_on();
    reveal(carry::restore_snapshot_script);
    reveal(turn_back_script);
    reveal(roll_refs_back_script);
    reveal(roll_worktree_back_script);
}

pub proof fn rolling_back_goes_on()
    ensures
        forall|
            repo: Text,
            lock: LockModel,
            journal: JournalModel,
            inspection: InspectionModel,
            tape: Tape,
        |
            goes_on(#[trigger] rollback_script(repo, lock, journal, inspection, tape), tape),
{
    going_on_adds_up();
    git_goes_on();
    files_go_on();
    comparing_goes_on();
    weighing_goes_on();
    journalling_goes_on();
    turning_back_goes_on();
    reveal(restore_previous_script);
    reveal(drop_snapshot_script);
    reveal(remove_anchor_script);
    reveal(rollback_script);
    assert forall|repo: Text, names: Seq<Text>, tape: Tape| goes_on(
        #[trigger] delete_from(repo, names, tape),
        tape,
    ) by {
        deleting_goes_on(repo, names, tape);
    }
}

} // verus!
