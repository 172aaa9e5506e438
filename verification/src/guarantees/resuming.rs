//! What recovery was told about an interrupted operation, and what it did then.

use vstd::prelude::*;

use crate::analyze::RefMoveModel;
use crate::carry;
use crate::collision;
use crate::files::read_bytes_script;
use crate::git;
use crate::guarantees::continuing::{
    comparing_goes_on, files_go_on, git_goes_on, journalling_goes_on, observing_goes_on,
    probing_goes_on, sparse_goes_on, weighing_goes_on,
};
use crate::guarantees::conversation::{
    continues, git_fed, git_in, going_on_adds_up, is_complete, left_by, requests_are_exchanges,
    spoken, was_asked,
};
use crate::guarantees::undoing::{branch_words, moving_words, record_in, reset_words};
use crate::parts::lines_of;
use crate::paths::{inside, path_named};
use crate::recovery::compare::{
    compare_script, copied_tree_script, files_are_in_script, files_are_script, git_dir_script,
    index_is_script, index_tree_script, mark_script, populate_env, probe_files_script, runs_script,
    sparse_excluded_script, worktree_at_script,
};
use crate::recovery::journal::{
    atomic_bytes_script, remove_script, sync_parent_script, JournalModel, LockModel, Operation,
};
use crate::recovery::observe::{
    belongs_script, ensure_checkout_script, ensure_known_script, ensure_not_moved_script,
    ensure_rollback_script, inspect_script, observe_script, read_undo_script, state_of_script,
    undo_matches_script, worktree_matches_script, InspectionModel,
};
use crate::recovery::state::{Endpoint, Phase, State};
use crate::recovery::{
    bring_worktree_script, complete_script, delete_from, drop_snapshot_script, forget_script,
    recover_locked_script, recover_there_script, remove_anchor_script, restore_previous_script,
    roll_refs_back_script, roll_worktree_back_script, rollback_script, update_worktree_script,
    Action, RecoveredModel,
};
use crate::refcommands::{commands_text, every_command_of, reversed_moves};
use crate::refs::{lookup, names_of, Entries};
use crate::session::{further, Answer, Ask, Run, Tape};
use crate::text::Text;
use crate::undo;

verus! {

// ---------------------------------------------------------------------------
// What is looked at
// ---------------------------------------------------------------------------
/// Whether git was asked for its branches with request number `i`, and named these.
pub open spec fn branches_were_told(
    repo: Text,
    branches: Entries,
    tape: Tape,
    later: Tape,
    i: int,
) -> bool {
    &&& was_asked(git_in(repo, git::refs_args("refs/heads/"@, 0)), tape, later, i)
    &&& spoken(later.log[i]) matches Some(listing) && branches == git::refs_in(lines_of(listing))
}

/// Whether every recorded branch is where the operation found it.
pub open spec fn all_stand_before(branches: Entries, moves: Seq<RefMoveModel>) -> bool {
    forall|k: int|
        0 <= k < moves.len() ==> lookup(branches, (#[trigger] moves[k]).name) == moves[k].before
}

/// Whether every recorded branch is where the operation put it.
pub open spec fn all_stand_after(branches: Entries, moves: Seq<RefMoveModel>) -> bool {
    forall|k: int|
        0 <= k < moves.len() ==> lookup(branches, (#[trigger] moves[k]).name) == moves[k].after
}

/// Whether the record of the last apply was read with request number `i`, where
/// git's own directory was asked for just before, and held this.
pub open spec fn record_was_read(
    repo: Text,
    content: Option<Seq<u8>>,
    tape: Tape,
    later: Tape,
    i: int,
) -> bool {
    &&& was_asked(git_in(repo, seq!["rev-parse"@, "--absolute-git-dir"@]), tape, later, i - 1)
    &&& spoken(later.log[i - 1]) matches Some(dir) && was_asked(
        Ask::ReadBytes(record_in(dir)),
        tape,
        later,
        i,
    )
    &&& match content {
        Some(bytes) => later.log[i] == Answer::Bytes(bytes),
        None => !(later.log[i] is Bytes),
    }
}

/// Whether a record is one that an operation in this state can have left: that of the
/// operation itself, or that from before it as long as it is not replaced.
pub open spec fn record_agrees(
    journal: JournalModel,
    state: State,
    content: Option<Seq<u8>>,
) -> bool {
    match state {
        State::RollingBack => content == journal.rollback_undo || content == journal.previous_undo,
        State::BeforeRefChange => content == journal.previous_undo || (journal.operation
            == Operation::Apply && content == journal.expected_undo),
        State::AfterRefChange => match journal.operation {
            Operation::Apply => content == journal.expected_undo || (journal.refs.len() == 0
                && journal.phase == Phase::Prepared && content == journal.previous_undo),
            Operation::Undo => content == journal.previous_undo,
        },
        State::Complete => match journal.operation {
            Operation::Apply => content == journal.expected_undo || (journal.refs.len() == 0
                && journal.phase == Phase::Prepared && content == journal.previous_undo),
            Operation::Undo => content == journal.previous_undo || content is None,
        },
        State::Ambiguous => true,
    }
}

/// Whether the branches are where a state says that they are.
pub open spec fn state_agrees(journal: JournalModel, state: State, branches: Entries) -> bool {
    match state {
        State::BeforeRefChange => journal.phase != Phase::RollingBack && all_stand_before(
            branches,
            journal.refs,
        ),
        State::AfterRefChange => journal.phase != Phase::RollingBack && all_stand_after(
            branches,
            journal.refs,
        ),
        State::Complete => journal.phase != Phase::RollingBack && all_stand_after(
            branches,
            journal.refs,
        ),
        State::RollingBack => journal.phase == Phase::RollingBack && (all_stand_before(
            branches,
            journal.refs,
        ) || all_stand_after(branches, journal.refs)),
        State::Ambiguous => true,
    }
}

/// Whether the record was read with request number `i` and agrees with a state.
pub open spec fn record_was_found(
    repo: Text,
    journal: JournalModel,
    state: State,
    tape: Tape,
    later: Tape,
    i: int,
) -> bool {
    exists|content: Option<Seq<u8>>| #[trigger]
        record_was_read(repo, content, tape, later, i) && record_agrees(journal, state, content)
}

proof fn observing_is_told(repo: Text, journal: JournalModel, tape: Tape)
    requires
        is_complete(tape),
    ensures
        continues(left_by(observe_script(repo, journal, tape)), tape),
        observe_script(repo, journal, tape) matches Run::Gives(state, later) ==> exists|
            branches: Entries,
        | #[trigger]
            branches_were_told(repo, branches, tape, later, tape.next) && state_agrees(
                journal,
                state,
                branches,
            ),
{
    going_on_adds_up();
    git_goes_on();
    requests_are_exchanges();
    observing_goes_on();
    reveal(observe_script);
    reveal(state_of_script);
    reveal(git::refs_script);
    if let Run::Gives(state, later) = observe_script(repo, journal, tape) {
        if let Run::Gives(branches, t1) = state_of_script(repo, tape) {
            assert(continues(t1, tape));
            assert(continues(later, t1));
            reveal(continues);
            assert(later.asks[tape.next] == t1.asks[tape.next]);
            assert(branches_were_told(repo, branches, tape, later, tape.next));
        }
    }
}

proof fn reading_the_record_is_told(repo: Text, tape: Tape)
    requires
        is_complete(tape),
    ensures
        continues(left_by(read_undo_script(repo, tape)), tape),
        read_undo_script(repo, tape) matches Run::Gives(content, later) ==> later.next == tape.next
            + 2 && record_was_read(repo, content, tape, later, tape.next + 1),
{
    going_on_adds_up();
    requests_are_exchanges();
    reveal(read_undo_script);
    reveal(git_dir_script);
    reveal(read_bytes_script);
}

/// Whether an inspection is of what was told: the journal is one of this repository,
/// its branches are where the state says, and the record of the last apply is one that
/// this state can have left.
pub open spec fn is_inspected_so(
    repo: Text,
    journal: JournalModel,
    inspection: InspectionModel,
    tape: Tape,
    later: Tape,
) -> bool {
    let first = tape.next;
    &&& journal.schema == 1
    &&& was_asked(Ask::Canonicalize(path_named(journal.origin)), tape, later, first)
    &&& was_asked(Ask::Canonicalize(repo), tape, later, first + 1)
    &&& later.log[first] is Text
    &&& later.log[first] == later.log[first + 1]
    &&& exists|branches: Entries| #[trigger]
        branches_were_told(repo, branches, tape, later, first + 2) && state_agrees(
            journal,
            inspection.state,
            branches,
        )
    &&& exists|i: int| #[trigger]
        record_was_found(repo, journal, inspection.state, tape, later, i)
}

/// An inspection is of what was told.
pub proof fn an_inspection_is_of_what_was_told(
    repo: Text,
    journal: JournalModel,
    path: Text,
    tape: Tape,
    inspection: InspectionModel,
    later: Tape,
)
    requires
        is_complete(tape),
        inspect_script(repo, journal, path, tape) == Run::Gives(inspection, later),
    ensures
        continues(later, tape),
        is_inspected_so(repo, journal, inspection, tape, later),
{
    going_on_adds_up();
    requests_are_exchanges();
    weighing_goes_on();
    reveal(inspect_script);
    reveal(belongs_script);
    reveal(git::canonicalize_script);
    reveal(undo_matches_script);
    if let Run::Gives(_, t2) = belongs_script(repo, journal, path, tape) {
        assert(t2.next == tape.next + 2);
        assert(continues(t2, tape));
        observing_is_told(repo, journal, t2);
        if let Run::Gives(observed, t3) = observe_script(repo, journal, t2) {
            reading_the_record_is_told(repo, t3);
            if let Run::Gives(content, t4) = read_undo_script(repo, t3) {
                assert(continues(t4, t3));
                assert(continues(later, t4));
                assert(continues(later, t3));
                assert(continues(later, t2));
                let branches = choose|branches: Entries| #[trigger]
                    branches_were_told(repo, branches, t2, t3, t2.next) && state_agrees(
                        journal,
                        observed,
                        branches,
                    );
                reveal(continues);
                assert(later.asks[tape.next] == t2.asks[tape.next]);
                assert(later.asks[tape.next + 1] == t2.asks[tape.next + 1]);
                assert(later.asks[t2.next] == t3.asks[t2.next]);
                assert(branches_were_told(repo, branches, tape, later, tape.next + 2));
                assert(later.asks[t3.next] == t4.asks[t3.next]);
                assert(later.asks[t3.next + 1] == t4.asks[t3.next + 1]);
                assert(record_was_read(repo, content, tape, later, t3.next + 1));
                assert(record_agrees(journal, inspection.state, content));
                assert(record_was_found(
                    repo,
                    journal,
                    inspection.state,
                    tape,
                    later,
                    t3.next + 1,
                ));
            }
        }
    }
}

/// Git run in a directory with another index and without the variables of the caller.
pub open spec fn git_with_index(dir: Text, args: Seq<Text>, index: Text) -> Ask {
    Ask::Git { dir, args, env: seq![("GIT_INDEX_FILE"@, index)], clean: true, input: None }
}

/// Whether git was asked, from request number `i` on, for the tree of a commit and for
/// that of a copy of the index, and they are the same.
pub open spec fn index_has_the_tree_of(
    repo: Text,
    commit: Text,
    tape: Tape,
    later: Tape,
    i: int,
) -> bool {
    &&& was_asked(git_in(repo, seq!["rev-parse"@, commit + "^{tree}"@]), tape, later, i)
    &&& was_asked(git_in(repo, seq!["rev-parse"@, "--absolute-git-dir"@]), tape, later, i + 1)
    &&& spoken(later.log[i + 1]) matches Some(dir) && {
        &&& was_asked(Ask::TempDir(path_named(dir), ".tmp"@), tape, later, i + 2)
        &&& later.log[i + 2] matches Answer::Text(temporary) && {
            let copy = inside(temporary, "index"@);
            &&& was_asked(Ask::Copy(inside(path_named(dir), "index"@), copy), tape, later, i + 3)
            &&& later.log[i + 3] is Done
            &&& was_asked(git_with_index(repo, seq!["write-tree"@], copy), tape, later, i + 4)
        }
    }
    &&& spoken(later.log[i]) is Some
    &&& spoken(later.log[i]) == spoken(later.log[i + 4])
}

/// Whether git read a commit into an index with request number `i`.
pub open spec fn commit_was_loaded(
    repo: Text,
    commit: Text,
    index: Text,
    tape: Tape,
    later: Tape,
    i: int,
) -> bool {
    &&& was_asked(
        git_with_index(repo, seq!["read-tree"@, "--reset"@, commit], index),
        tape,
        later,
        i,
    )
    &&& spoken(later.log[i]) is Some
}

/// Whether git compared the files of the worktree with a commit, ending with request
/// number `i`, and found no difference: it read the commit into an index of its own and
/// held the files against it.
pub open spec fn files_were_found_equal(
    repo: Text,
    commit: Text,
    index: Text,
    tape: Tape,
    later: Tape,
    i: int,
) -> bool {
    &&& was_asked(git_with_index(repo, seq!["diff-files"@, "--quiet"@], index), tape, later, i)
    &&& spoken(later.log[i]) is Some
    &&& was_asked(
        git_with_index(repo, seq!["update-index"@, "--refresh"@], index),
        tape,
        later,
        i - 1,
    )
    &&& exists|j: int|
        i - 3 <= j < i - 1 && #[trigger] commit_was_loaded(repo, commit, index, tape, later, j)
}

proof fn comparing_is_told(repo: Text, commit: Text, tape: Tape)
    requires
        is_complete(tape),
    ensures
        continues(left_by(index_is_script(repo, commit, tape)), tape),
        index_is_script(repo, commit, tape) matches Run::Gives(same, later) ==> (same
            ==> index_has_the_tree_of(repo, commit, tape, later, tape.next)),
{
    going_on_adds_up();
    requests_are_exchanges();
    comparing_goes_on();
    reveal(index_is_script);
    reveal(index_tree_script);
    reveal(git_dir_script);
    reveal(copied_tree_script);
    reveal(git::run_with_clean_env_script);
    reveal(git::captured);
    reveal(continues);
}

proof fn a_comparison_is_told(
    repo: Text,
    commit: Text,
    index: Text,
    left_out: Seq<Text>,
    tape: Tape,
)
    requires
        is_complete(tape),
    ensures
        continues(left_by(compare_script(repo, commit, index, left_out, tape)), tape),
        compare_script(repo, commit, index, left_out, tape) matches Run::Gives(same, later) ==> (
        same ==> files_were_found_equal(repo, commit, index, tape, later, later.next - 1)),
{
    going_on_adds_up();
    reveal(compare_script);
    reveal(mark_script);
    reveal(runs_script);
    reveal(git::run_with_clean_env_script);
    reveal(git::captured);
    reveal(continues);
    if let Run::Gives(same, later) = compare_script(repo, commit, index, left_out, tape) {
        if same {
            assert(commit_was_loaded(repo, commit, index, tape, later, tape.next));
        }
    }
}

/// A worktree is said to be at a commit only where git says so: the index has the tree
/// of the commit, and the files are those of the commit.
pub proof fn a_worktree_is_at_a_commit_where_git_says_so(repo: Text, commit: Text, tape: Tape)
    requires
        is_complete(tape),
    ensures
        worktree_at_script(repo, commit, tape) matches Run::Gives(at, later) ==> (at
            ==> index_has_the_tree_of(repo, commit, tape, later, tape.next) && exists|index: Text|
            #[trigger] files_were_found_equal(repo, commit, index, tape, later, later.next - 3)),
{
    going_on_adds_up();
    requests_are_exchanges();
    comparing_goes_on();
    comparing_is_told(repo, commit, tape);
    reveal(worktree_at_script);
    if let Run::Gives(true, later) = worktree_at_script(repo, commit, tape) {
        if let Run::Gives(true, t1) = index_is_script(repo, commit, tape) {
            files_are_told(repo, commit, t1);
            assert(continues(later, t1));
            let index = choose|index: Text| #[trigger]
                files_were_found_equal(repo, commit, index, t1, later, later.next - 3);
            index_trees_stay(repo, commit, tape, t1, later, tape.next);
            reveal(continues);
            let i = later.next - 3;
            let j = choose|j: int|
                i - 3 <= j < i - 1 && #[trigger] commit_was_loaded(repo, commit, index, t1, later, j);
            assert(commit_was_loaded(repo, commit, index, tape, later, j));
            assert(files_were_found_equal(repo, commit, index, tape, later, i));
        }
    }
}

proof fn index_trees_stay(repo: Text, commit: Text, tape: Tape, mid: Tape, later: Tape, i: int)
    requires
        continues(later, mid),
        continues(mid, tape),
        index_has_the_tree_of(repo, commit, tape, mid, i),
    ensures
        index_has_the_tree_of(repo, commit, tape, later, i),
{
    reveal(continues);
    assert(later.asks[i] == mid.asks[i]);
    assert(later.asks[i + 1] == mid.asks[i + 1]);
    assert(later.asks[i + 2] == mid.asks[i + 2]);
    assert(later.asks[i + 3] == mid.asks[i + 3]);
    assert(later.asks[i + 4] == mid.asks[i + 4]);
}

proof fn files_are_told(repo: Text, commit: Text, tape: Tape)
    requires
        is_complete(tape),
    ensures
        continues(left_by(files_are_script(repo, commit, tape)), tape),
        files_are_script(repo, commit, tape) matches Run::Gives(same, later) ==> (same ==> exists|
            index: Text,
        | #[trigger]
            files_were_found_equal(repo, commit, index, tape, later, later.next - 3)),
{
    going_on_adds_up();
    requests_are_exchanges();
    comparing_goes_on();
    reveal(files_are_script);
    reveal(git_dir_script);
    if let Run::Gives(true, later) = files_are_script(repo, commit, tape) {
        if let Run::Gives(storage, t1) = git_dir_script(repo, tape) {
            assert(continues(t1, tape));
            reveal(files_are_in_script);
            let t2 = further(t1, Ask::TempDir(storage, ".tmp"@));
            let t3 = further(t2, Ask::TempDir(storage, ".tmp"@));
            let template = t1.log[t1.next]->Text_0;
            let check = t2.log[t2.next]->Text_0;
            assert(continues(t2, t1));
            assert(continues(t3, t2));
            probing_files_is_told(repo, commit, template, check, t3);
            if let Run::Gives(same, t4) = probe_files_script(repo, commit, template, check, t3) {
                let index = inside(template, "comparison-index"@);
                let t5 = further(t4, Ask::DropTemp(check));
                assert(continues(t5, t4));
                assert(later == further(t5, Ask::DropTemp(template)));
                assert(continues(later, t5));
                reveal(continues);
                let i = later.next - 3;
                let j = choose|j: int|
                    i - 3 <= j < i - 1 && #[trigger] commit_was_loaded(repo, commit, index, t3, t4, j);
                assert(later.asks[j] == t4.asks[j]);
                assert(commit_was_loaded(repo, commit, index, tape, later, j));
                assert(later.asks[i] == t4.asks[i]);
                assert(later.asks[i - 1] == t4.asks[i - 1]);
                assert(files_were_found_equal(repo, commit, index, tape, later, i));
            }
        }
    }
}

proof fn probing_files_is_told(repo: Text, commit: Text, template: Text, check: Text, tape: Tape)
    requires
        is_complete(tape),
    ensures
        continues(left_by(probe_files_script(repo, commit, template, check, tape)), tape),
        probe_files_script(repo, commit, template, check, tape) matches Run::Gives(same, later)
            ==> (same ==> files_were_found_equal(
            repo,
            commit,
            inside(template, "comparison-index"@),
            tape,
            later,
            later.next - 1,
        )),
{
    going_on_adds_up();
    git_goes_on();
    reveal(probe_files_script);
    reveal(runs_script);
    sparse_goes_on();
    let index = inside(template, "comparison-index"@);
    let env = populate_env(inside(template, "index"@), check);
    if let Run::Gives(_, t1) = runs_script(
        repo,
        seq!["read-tree"@, "-m"@, "-u"@, commit],
        env,
        tape,
    ) {
        assert(continues(t1, tape));
        if let Run::Gives(Some(left_out), t2) = sparse_excluded_script(
            repo,
            env,
            t1,
        ) {
            assert(continues(t2, t1));
            a_comparison_is_told(repo, commit, index, left_out, t2);
            if let Run::Gives(true, later) = compare_script(repo, commit, index, left_out, t2) {
                assert(continues(later, t2));
                reveal(continues);
                let i = later.next - 1;
                let j = choose|j: int|
                    i - 3 <= j < i - 1 && #[trigger] commit_was_loaded(repo, commit, index, t2, later, j);
                assert(commit_was_loaded(repo, commit, index, tape, later, j));
            }
        }
    }
}

// ---------------------------------------------------------------------------
// What is done
// ---------------------------------------------------------------------------
/// Whether git was asked with request number `i` which branch is checked out, and said
/// that it is the one of the operation.
pub open spec fn is_still_checked_out(
    repo: Text,
    branch: Text,
    tape: Tape,
    later: Tape,
    i: int,
) -> bool {
    &&& was_asked(git_in(repo, branch_words()), tape, later, i)
    &&& match spoken(later.log[i]) {
        Some(current) => current == branch,
        None => branch == "detached HEAD"@,
    }
}

/// Whether git was asked with request number `i` which branch is checked out, and said
/// that it is none of those that the operation moves.
pub open spec fn no_checkout_is_moved(
    repo: Text,
    moves: Seq<RefMoveModel>,
    tape: Tape,
    later: Tape,
    i: int,
) -> bool {
    &&& was_asked(git_in(repo, branch_words()), tape, later, i)
    &&& spoken(later.log[i]) matches Some(current) ==> forall|k: int|
        0 <= k < moves.len() ==> (#[trigger] moves[k]).name != "refs/heads/"@ + current
}

/// Whether the refs were put back: they were where the operation put them, the checkout
/// is the one it should be, and the last request moves each of them back.
pub open spec fn refs_were_put_back(
    repo: Text,
    journal: JournalModel,
    branches: Entries,
    tape: Tape,
    later: Tape,
) -> bool {
    let commands = commands_text(every_command_of(reversed_moves(journal.refs)));
    &&& all_stand_after(branches, journal.refs)
    &&& match journal.checkout {
        Some(branch) => is_still_checked_out(repo, branch, tape, later, tape.next + 1),
        None => no_checkout_is_moved(repo, journal.refs, tape, later, tape.next + 1),
    }
    &&& commands.len() > 0 ==> was_asked(
        git_fed(repo, moving_words("git-rehearse recovery"@), commands),
        tape,
        later,
        later.next - 1,
    ) && spoken(later.log[later.next - 1]) is Some
}

/// A move is found by the name of its ref, and missed only where no move has that name.
pub proof fn moves_are_found(moves: Seq<RefMoveModel>, name: Text)
    ensures
        match undo::move_of(moves, name) {
            Some(moved) => moved.name == name && moves.contains(moved),
            None => forall|k: int| 0 <= k < moves.len() ==> (#[trigger] moves[k]).name != name,
        },
    decreases moves.len(),
{
    if moves.len() > 0 {
        let rest = moves.drop_first();
        moves_are_found(rest, name);
        if moves[0].name == name {
            assert(moves.contains(moves[0]));
        } else {
            match undo::move_of(rest, name) {
                Some(moved) => {
                    let k = choose|k: int| 0 <= k < rest.len() && rest[k] == moved;
                    assert(moves[k + 1] == moved);
                },
                None => {
                    assert forall|k: int| 0 <= k < moves.len() implies (#[trigger] moves[k]).name
                        != name by {
                        if k > 0 {
                            assert(rest[k - 1].name != name);
                        }
                    }
                },
            }
        }
    }
}

proof fn checkouts_are_told(repo: Text, branch: Text, journal: JournalModel, tape: Tape)
    requires
        is_complete(tape),
    ensures
        continues(left_by(ensure_checkout_script(repo, branch, tape)), tape),
        ensure_checkout_script(repo, branch, tape) matches Run::Gives(_, later) ==> later.next
            == tape.next + 1 && is_still_checked_out(repo, branch, tape, later, tape.next),
        continues(
            left_by(ensure_not_moved_script(repo, journal, tape)),
            tape,
        ),
        ensure_not_moved_script(repo, journal, tape) matches Run::Gives(
            _,
            later,
        ) ==> later.next == tape.next + 1 && no_checkout_is_moved(
            repo,
            journal.refs,
            tape,
            later,
            tape.next,
        ),
{
    going_on_adds_up();
    requests_are_exchanges();
    observing_goes_on();
    reveal(ensure_checkout_script);
    reveal(ensure_not_moved_script);
    reveal(undo::current_branch_script);
    if let Some(current) = spoken(tape.log[tape.next]) {
        moves_are_found(journal.refs, "refs/heads/"@ + current);
    }
}

/// What a rollback does to the refs: nothing where they are back already; elsewhere they
/// have to be where the operation put them, and are moved back in one transaction.
pub proof fn refs_are_rolled_back(
    repo: Text,
    journal: JournalModel,
    inspection: InspectionModel,
    tape: Tape,
)
    requires
        is_complete(tape),
    ensures
        roll_refs_back_script(repo, journal, inspection, tape) matches Run::Gives(_, later)
            ==> exists|branches: Entries| #[trigger]
            branches_were_told(repo, branches, tape, later, tape.next) && if all_stand_before(
                branches,
                journal.refs,
            ) {
                later.next == tape.next + 1
            } else {
                refs_were_put_back(repo, journal, branches, tape, later)
            },
{
    going_on_adds_up();
    requests_are_exchanges();
    observing_goes_on();
    weighing_goes_on();
    reveal(roll_refs_back_script);
    reveal(state_of_script);
    reveal(git::refs_script);
    reveal(undo::move_refs_script);
    if let Run::Gives(_, later) = roll_refs_back_script(repo, journal, inspection, tape) {
        if let Run::Gives(branches, t1) = state_of_script(repo, tape) {
            assert(continues(t1, tape));
            let commands = commands_text(every_command_of(reversed_moves(journal.refs)));
            let message = "git-rehearse recovery"@;
            checkouts_are_told(repo, called_branch(journal), journal, t1);
            if !all_stand_before(branches, journal.refs) {
                assert(all_stand_after(branches, journal.refs));
                let safe = match journal.checkout {
                    Some(branch) => ensure_checkout_script(repo, branch, t1).and_then(
                        |here: (), tape: Tape|
                            ensure_rollback_script(repo, journal, tape),
                    ),
                    None => ensure_not_moved_script(repo, journal, t1),
                };
                let first = match journal.checkout {
                    Some(branch) => left_by(ensure_checkout_script(repo, branch, t1)),
                    None => left_by(safe),
                };
                let t2 = left_by(safe);
                assert(continues(first, t1));
                assert(continues(t2, first));
                assert(undo::move_refs_script(repo, commands, message, t2) == Run::Gives((), later));
                assert(continues(later, t2));
                assert(continues(later, first));
                reveal(continues);
                assert(later.asks[t1.next] == first.asks[t1.next]);
            }
            assert(continues(later, t1));
            reveal(continues);
            assert(later.asks[tape.next] == t1.asks[tape.next]);
            assert(branches_were_told(repo, branches, tape, later, tape.next));
        }
    }
}

/// The branch of an operation.
pub open spec fn called_branch(journal: JournalModel) -> Text {
    match journal.checkout {
        Some(branch) => branch,
        None => Seq::empty(),
    }
}

/// Whether the last requests put a snapshot back: its files, and the index that it
/// recorded.
pub open spec fn snapshot_was_put_back(repo: Text, snapshot: Text, tape: Tape, later: Tape) -> bool {
    let end = later.next;
    &&& was_asked(
        git_in(repo, seq!["read-tree"@, "-u"@, "--reset"@, snapshot + "^{tree}"@]),
        tape,
        later,
        end - 2,
    )
    &&& was_asked(
        git_in(repo, seq!["read-tree"@, "--reset"@, snapshot + "^2^{tree}"@]),
        tape,
        later,
        end - 1,
    )
    &&& spoken(later.log[end - 2]) is Some
    &&& spoken(later.log[end - 1]) is Some
}

/// Whether the last requests put a result into the worktree and left it unstaged.
pub open spec fn result_was_put_back(repo: Text, result: Text, tape: Tape, later: Tape) -> bool {
    let end = later.next;
    &&& was_asked(
        git_in(repo, seq!["read-tree"@, "-u"@, "--reset"@, result + "^{tree}"@]),
        tape,
        later,
        end - 2,
    )
    &&& was_asked(
        git_in(repo, seq!["reset"@, "--mixed"@, "--quiet"@, "HEAD"@]),
        tape,
        later,
        end - 1,
    )
    &&& spoken(later.log[end - 2]) is Some
    &&& spoken(later.log[end - 1]) is Some
}

/// Whether the last request brought the worktree to its branch.
pub open spec fn worktree_was_reset(repo: Text, tape: Tape, later: Tape) -> bool {
    &&& was_asked(git_in(repo, reset_words()), tape, later, later.next - 1)
    &&& spoken(later.log[later.next - 1]) is Some
}

/// What a completion does to the worktree: it ends with the result that the operation
/// had, or with the branch where it had none; and only where the branch of the
/// operation is still checked out.
pub proof fn the_worktree_is_brought_along(repo: Text, journal: JournalModel, tape: Tape)
    requires
        is_complete(tape),
    ensures
        bring_worktree_script(repo, journal, tape) matches Run::Gives(_, later) ==> (
        match journal.checkout {
            None => later == tape,
            Some(branch) => {
                &&& is_still_checked_out(repo, branch, tape, later, tape.next)
                &&& match (journal.worktree_after, journal.local_before) {
                    (Some(result), Some(_)) => snapshot_was_put_back(repo, result, tape, later),
                    (Some(result), None) => result_was_put_back(repo, result, tape, later),
                    (None, _) => worktree_was_reset(repo, tape, later),
                }
            },
        }),
{
    going_on_adds_up();
    requests_are_exchanges();
    observing_goes_on();
    probing_goes_on();
    reveal(bring_worktree_script);
    if let Some(branch) = journal.checkout {
        checkouts_are_told(repo, branch, journal, tape);
        if let Run::Gives(_, t1) = ensure_checkout_script(repo, branch, tape) {
            if let Run::Gives(_, t2) = ensure_known_script(
                repo,
                journal,
                t1,
            ) {
                assert(continues(t2, t1));
                reveal(update_worktree_script);
                reveal(carry::restore_snapshot_script);
                reveal(carry::restore_script);
                reveal(undo::reset_worktree_script);
                let later = left_by(update_worktree_script(repo, journal, t2));
                if update_worktree_script(repo, journal, t2) is Gives {
                    let t3 = match journal.worktree_after {
                        Some(result) => left_by(
                            collision::check_operation_script(
                                repo,
                                repo,
                                result,
                                collision::Operation::Restore,
                                t2,
                            ),
                        ),
                        None => t2,
                    };
                    assert(continues(t3, t2));
                    assert(continues(later, t3));
                    assert(continues(later, t1));
                    reveal(continues);
                    assert(later.asks[tape.next] == t1.asks[tape.next]);
                }
            }
        }
    }
}

/// Whether the worktree was found where the operation found it.
pub open spec fn was_found_unmoved(repo: Text, journal: JournalModel, later: Tape) -> bool {
    exists|seen: Tape| #[trigger]
        worktree_matches_script(
            repo,
            journal,
            Endpoint::Before,
            seen,
        ) == Run::Gives(true, later)
}

/// What a rollback does to the worktree: nothing where it is back already; elsewhere it
/// ends with the snapshot of the work that was there, or with the branch where there was
/// none. The branches are all back before that.
pub proof fn the_worktree_is_rolled_back(
    repo: Text,
    journal: JournalModel,
    inspection: InspectionModel,
    tape: Tape,
)
    requires
        is_complete(tape),
    ensures
        roll_worktree_back_script(repo, journal, inspection, tape) matches Run::Gives(_, later) ==> (
        match journal.checkout {
            None => later == tape,
            Some(branch) => {
                &&& is_still_checked_out(repo, branch, tape, later, tape.next)
                &&& exists|branches: Entries| #[trigger]
                    branches_were_told(repo, branches, tape, later, tape.next + 1)
                        && all_stand_before(branches, journal.refs)
                &&& was_found_unmoved(repo, journal, later) || match journal.local_before {
                    Some(snapshot) => snapshot_was_put_back(repo, snapshot, tape, later),
                    None => worktree_was_reset(repo, tape, later),
                }
            },
        }),
{
    going_on_adds_up();
    requests_are_exchanges();
    observing_goes_on();
    weighing_goes_on();
    reveal(roll_worktree_back_script);
    if let Some(branch) = journal.checkout {
        checkouts_are_told(repo, branch, journal, tape);
        if let Run::Gives(_, t1) = ensure_checkout_script(repo, branch, tape) {
            reveal(state_of_script);
            reveal(git::refs_script);
            if let Run::Gives(branches, t2) = state_of_script(repo, t1) {
                assert(continues(t2, t1));
                if let Run::Gives(_, t3) = ensure_rollback_script(
                    repo,
                    journal,
                    t2,
                ) {
                    assert(continues(t3, t2));
                    let end = Endpoint::Before;
                    if let Run::Gives(there, t4) = worktree_matches_script(
                        repo,
                        journal,
                        end,
                        t3,
                    ) {
                        assert(continues(t4, t3));
                        reveal(carry::restore_snapshot_script);
                        reveal(undo::reset_worktree_script);
                        let run = roll_worktree_back_script(repo, journal, inspection, tape);
                        let later = left_by(run);
                        if run is Gives {
                            assert(continues(later, t4));
                            assert(continues(later, t1));
                            assert(continues(later, t2));
                            reveal(continues);
                            assert(later.asks[tape.next] == t1.asks[tape.next]);
                            assert(later.asks[t1.next] == t2.asks[t1.next]);
                            assert(branches_were_told(
                                repo,
                                branches,
                                tape,
                                later,
                                tape.next + 1,
                            ));
                        }
                    }
                }
            }
        }
    }
}

/// Whether the bytes were written beside a file and put in its place, from request
/// number `i` on.
pub open spec fn was_replaced(path: Text, bytes: Seq<u8>, tape: Tape, later: Tape, i: int) -> bool {
    &&& tape.next <= i
    &&& i + 1 < later.next
    &&& later.asks[i] matches Ask::WriteSynced(temporary, written) && written == bytes
        && later.asks[i + 1] == Ask::Rename(temporary, path)
    &&& later.log[i] is Done
    &&& later.log[i + 1] is Done
}

/// Whether a file was removed with request number `i`.
pub open spec fn was_removed(path: Text, tape: Tape, later: Tape, i: int) -> bool {
    was_asked(Ask::RemoveFile(path), tape, later, i) && later.log[i] is Done
}

/// What a rollback does to the record of the last apply: the one from before the
/// operation comes back, byte for byte, or none where there was none; and only over a
/// record that the operation or the rollback left.
pub proof fn the_earlier_record_comes_back(repo: Text, journal: JournalModel, tape: Tape)
    requires
        is_complete(tape),
    ensures
        restore_previous_script(repo, journal, tape) matches Run::Gives(_, later) ==> {
            &&& record_was_found(
                repo,
                journal,
                State::RollingBack,
                tape,
                later,
                tape.next + 1,
            )
            &&& was_asked(
                git_in(repo, seq!["rev-parse"@, "--absolute-git-dir"@]),
                tape,
                later,
                tape.next + 2,
            )
            &&& spoken(later.log[tape.next + 2]) matches Some(dir) && match journal.previous_undo {
                Some(bytes) => was_replaced(record_in(dir), bytes, tape, later, tape.next + 4),
                None => was_asked(Ask::Target(record_in(dir)), tape, later, tape.next + 3) && (
                later.log[tape.next + 3] is Kind ==> was_removed(
                    record_in(dir),
                    tape,
                    later,
                    tape.next + 4,
                )),
            }
        },
{
    going_on_adds_up();
    requests_are_exchanges();
    journalling_goes_on();
    files_go_on();
    reveal(restore_previous_script);
    reveal(undo_matches_script);
    reading_the_record_is_told(repo, tape);
    if let Run::Gives(content, t2) = read_undo_script(repo, tape) {
        reveal(git_dir_script);
        if let Run::Gives(dir, t3) = git_dir_script(repo, t2) {
            assert(continues(t3, t2));
            let run = restore_previous_script(repo, journal, tape);
            let later = left_by(run);
            if let Run::Gives(_, _) = run {
                assert(continues(later, t3));
                assert(continues(later, t2));
                reveal(atomic_bytes_script);
                reveal(sync_parent_script);
                reveal(continues);
                assert(later.asks[tape.next] == t2.asks[tape.next]);
                assert(later.asks[tape.next + 1] == t2.asks[tape.next + 1]);
                assert(later.asks[tape.next + 2] == t3.asks[tape.next + 2]);
                assert(record_was_read(repo, content, tape, later, tape.next + 1));
                assert(record_agrees(journal, State::RollingBack, content));
            }
        }
    }
}

/// Whether the requests from number `i` on removed these refs, one each.
pub open spec fn refs_were_deleted(
    repo: Text,
    names: Seq<Text>,
    tape: Tape,
    later: Tape,
    i: int,
) -> bool {
    forall|k: int|
        0 <= k < names.len() ==> was_asked(
            git_in(repo, seq!["update-ref"@, "-d"@, #[trigger] names[k]]),
            tape,
            later,
            i + k,
        ) && spoken(later.log[i + k]) is Some
}

proof fn deleting_is_told(repo: Text, names: Seq<Text>, tape: Tape)
    requires
        is_complete(tape),
    ensures
        continues(left_by(delete_from(repo, names, tape)), tape),
        delete_from(repo, names, tape) matches Run::Gives(_, later) ==> later.next == tape.next
            + names.len() && refs_were_deleted(repo, names, tape, later, tape.next),
    decreases names.len(),
{
    going_on_adds_up();
    requests_are_exchanges();
    if names.len() > 0 {
        let rest = names.drop_first();
        if let Run::Gives(_, t1) = git::run_script(
            repo,
            seq!["update-ref"@, "-d"@, names[0]],
            tape,
        ) {
            deleting_is_told(repo, rest, t1);
            if let Run::Gives(_, later) = delete_from(repo, rest, t1) {
                assert(continues(later, t1));
                reveal(continues);
                assert(later.asks[tape.next] == t1.asks[tape.next]);
                assert forall|k: int| 0 <= k < names.len() implies was_asked(
                    git_in(repo, seq!["update-ref"@, "-d"@, #[trigger] names[k]]),
                    tape,
                    later,
                    tape.next + k,
                ) && spoken(later.log[tape.next + k]) is Some by {
                    if k > 0 {
                        assert(rest[k - 1] == names[k]);
                    }
                }
            }
        }
    }
}

/// The request that removes the ref of a snapshot as long as it names that snapshot.
pub open spec fn dropping(repo: Text, rehearsal: Text, suffix: Text, snapshot: Text) -> Ask {
    git_in(
        repo,
        seq!["update-ref"@, "-d"@, "refs/rehearse/"@ + rehearsal + "-"@ + suffix, snapshot],
    )
}

/// What a rollback does to what an apply kept alive: every ref below its anchor is
/// removed, and then those of the two snapshots.
pub proof fn what_was_anchored_is_let_go(repo: Text, journal: JournalModel, tape: Tape)
    requires
        is_complete(tape),
        journal.anchor.len() > 0,
    ensures
        remove_anchor_script(repo, journal, tape) matches Run::Gives(_, later) ==> {
            &&& was_asked(git_in(repo, git::refs_args(journal.anchor, 0)), tape, later, tape.next)
            &&& spoken(later.log[tape.next]) matches Some(listing) && {
                let names = names_of(git::refs_in(lines_of(listing)));
                let end = tape.next + 1 + names.len();
                &&& refs_were_deleted(repo, names, tape, later, tape.next + 1)
                &&& journal.local_before matches Some(snapshot) ==> was_asked(
                    dropping(repo, journal.rehearsal, "original"@, snapshot),
                    tape,
                    later,
                    end,
                )
                &&& journal.worktree_after matches Some(snapshot) ==> was_asked(
                    dropping(repo, journal.rehearsal, "carry"@, snapshot),
                    tape,
                    later,
                    later.next - 1,
                )
            }
        },
{
    going_on_adds_up();
    requests_are_exchanges();
    reveal(remove_anchor_script);
    reveal(drop_snapshot_script);
    reveal(git::refs_script);
    if let Run::Gives(refs, t1) = git::refs_script(repo, journal.anchor, 0, tape) {
        assert(continues(t1, tape));
        let names = names_of(refs);
        deleting_is_told(repo, names, t1);
        if let Run::Gives(_, t2) = delete_from(repo, names, t1) {
            let run = remove_anchor_script(repo, journal, tape);
            let later = left_by(run);
            if run is Gives {
                assert(continues(later, t2));
                assert(continues(later, t1));
                reveal(continues);
                assert(later.asks[tape.next] == t1.asks[tape.next]);
                assert forall|k: int| 0 <= k < names.len() implies was_asked(
                    git_in(repo, seq!["update-ref"@, "-d"@, #[trigger] names[k]]),
                    tape,
                    later,
                    tape.next + 1 + k,
                ) && spoken(later.log[tape.next + 1 + k]) is Some by {
                    assert(later.asks[t1.next + k] == t2.asks[t1.next + k]);
                }
            }
        }
    }
}

/// A journal is gone once it is forgotten.
pub proof fn a_forgotten_journal_is_removed(path: Text, tape: Tape)
    requires
        is_complete(tape),
    ensures
        forget_script(path, tape) matches Run::Gives(_, later) ==> was_asked(
            Ask::Target(path),
            tape,
            later,
            tape.next,
        ) && (later.log[tape.next] is Kind ==> was_removed(path, tape, later, tape.next + 1)),
{
    going_on_adds_up();
    requests_are_exchanges();
    reveal(forget_script);
    reveal(remove_script);
    reveal(sync_parent_script);
    reveal(continues);
}

/// Recovery answers what it was asked: it says which action it took, rolls back only
/// what may be rolled back, completes only what may be completed, and touches only the
/// rehearsal that was meant.
pub proof fn recovery_does_what_was_asked(
    repo: Text,
    lock: LockModel,
    action: Action,
    expected: Option<Text>,
    tape: Tape,
    recovered: RecoveredModel,
    later: Tape,
)
    requires
        recover_there_script(repo, lock, action, expected, tape) == Run::Gives(recovered, later),
    ensures
        recovered.action == action,
        expected matches Some(expected) ==> action != Action::Complete
            ==> expected.is_prefix_of(recovered.inspection.rehearsal),
        action == Action::Rollback ==> recovered.inspection.can_rollback,
        action == Action::Complete ==> recovered.inspection.state == State::Complete || (
        recovered.inspection.state == State::AfterRefChange && recovered.inspection.can_complete),
{
    reveal(recover_there_script);
    reveal(recover_locked_script);
    reveal(complete_script);
    reveal(rollback_script);
    reveal(inspect_script);
}

} // verus!
