//! Why something is refused: nothing is refused without a reason, and what is in the way is
//! refused and not called an error.

use vstd::prelude::*;

use crate::analyze::{current_state_script, moves_are_exact, moves_between};
use crate::apply;
use crate::carry;
use crate::error::Fault;
use crate::execute::zero_separated;
use crate::git;
use crate::guarantees::applying::{
    branches_are_asked_for, carried_work_is_asked_for, checkouts_are_moved,
    clean_worktrees_are_asked_for, moved_checkout, snapshot_words, state_was_told,
    states_are_asked_for, states_widen, takes_the_place, told_states_are_in_order, tree_words,
    untracked_words, was_promised, worktrees_are_asked_for,
};
use crate::guarantees::conversation::{
    continues, git_in, going_on_adds_up, is_complete, requests_are_exchanges, spoken, was_asked,
};
use crate::guarantees::undoing::{branch_words, record_in, status_words};
use crate::parts::lines_of;
use crate::refs::{ascending, lookup, Entries};
use crate::sandbox::{worktree_of, SandboxModel};
use crate::session::{further, Answer, Ask, HeardModel, Run, Tape};
use crate::text::Text;
use crate::undo;
use crate::undo::record::parsed;

verus! {

/// Whether the last thing that was asked for was not done.
pub open spec fn failed_at_last(later: Tape) -> bool {
    let last = later.next - 1;
    match later.asks[last] {
        Ask::Git { .. } => spoken(later.log[last]) is None,
        _ => !(later.log[last] is Done),
    }
}

// ---------------------------------------------------------------------------
// Apply
// ---------------------------------------------------------------------------
/// Whether one of these paths would take the place of one of those.
pub open spec fn are_in_the_way(paths: Seq<Text>, others: Seq<Text>) -> bool {
    exists|j: int, k: int|
        0 <= j < paths.len() && 0 <= k < others.len() && takes_the_place(
            #[trigger] paths[j],
            #[trigger] others[k],
        )
}

/// Whether an untracked path of the repository is in the way of the branch's tree in the
/// sandbox, as git said last.
pub open spec fn untracked_path_in_the_way(
    repo: Text,
    rehearsed: Text,
    branch: Text,
    later: Tape,
) -> bool {
    let last = later.next - 1;
    &&& later.asks[last - 1] == git_in(repo, untracked_words())
    &&& later.asks[last] == git_in(rehearsed, tree_words(branch))
    &&& spoken(later.log[last - 1]) matches Some(untracked) && (spoken(
        later.log[last],
    ) matches Some(tree) && are_in_the_way(zero_separated(untracked), zero_separated(tree)))
}

/// Whether the worktree does not hold what was carried any more, as git said last.
pub open spec fn carried_work_is_gone(repo: Text, snapshot: Text, later: Tape) -> bool {
    let last = later.next - 1;
    ||| later.asks[last] == git_in(repo, snapshot_words()) && spoken(later.log[last]) == Some(
        Seq::<char>::empty(),
    )
    ||| {
        &&& later.asks[last - 4] == git_in(repo, snapshot_words())
        &&& spoken(later.log[last - 4]) matches Some(now) && later.asks[last - 3] == git_in(
            repo,
            seq!["rev-parse"@, now + "^{tree}"@],
        )
        &&& later.asks[last - 1] == git_in(repo, seq!["rev-parse"@, snapshot + "^{tree}"@])
        &&& spoken(later.log[last - 3]) != spoken(later.log[last - 1]) || spoken(
            later.log[last - 2],
        ) != spoken(later.log[last])
    }
}

/// Whether an apply has a reason to be refused: the rehearsal moved nothing, another
/// branch is checked out, a ref has moved, or the worktree has to follow its branch and
/// holds other work than was carried or an untracked path that is in the way.
pub open spec fn has_reason_to_refuse_apply(sandbox: SandboxModel, tape: Tape, later: Tape) -> bool {
    let meta = sandbox.meta;
    let repo = meta.repo_path;
    let last = later.next - 1;
    exists|rehearsed: Entries|
        #[trigger] state_was_told(worktree_of(sandbox.root), rehearsed, tape, later, tape.next) && {
            ||| moves_between(meta.pre_state, rehearsed).len() == 0
            ||| later.asks[last] == git_in(repo, branch_words()) && !apply::is_same_checkout(
                meta.checkout,
                spoken(later.log[last]),
            )
            ||| exists|now: Entries, i: int|
                0 <= i < meta.pre_state.len() && #[trigger] state_was_told(
                    repo,
                    now,
                    tape,
                    later,
                    tape.next + 2,
                ) && lookup(now, (#[trigger] meta.pre_state[i]).0) != Some(meta.pre_state[i].1)
            ||| moved_checkout(sandbox, rehearsed) matches Some(branch) && {
                ||| !was_promised(meta.carry) && later.asks[last] == git_in(repo, status_words())
                    && (spoken(later.log[last]) matches Some(said) && said.len() > 0)
                ||| was_promised(meta.carry) && carried_work_is_gone(
                    repo,
                    meta.carry->0.snapshot,
                    later,
                )
                ||| untracked_path_in_the_way(
                    repo,
                    worktree_of(sandbox.root),
                    branch,
                    later,
                )
            }
        }
}

proof fn untracked_paths_are_the_reason(repo: Text, rehearsed: Text, branch: Text, tape: Tape)
    requires
        is_complete(tape),
    ensures
        apply::check_untracked_script(repo, rehearsed, branch, tape) matches Run::Fails(
            fault,
            later,
        ) ==> {
            &&& later.next > tape.next
            &&& fault is Refused ==> untracked_path_in_the_way(repo, rehearsed, branch, later)
            &&& !(fault is Refused) ==> failed_at_last(later)
        },
{
    going_on_adds_up();
    requests_are_exchanges();
    reveal(apply::check_untracked_script);
    reveal(git::run_script);
    reveal(git::captured);
    if let Run::Gives(listing, after) = git::run_script(repo, untracked_words(), tape) {
        let untracked = zero_separated(listing);
        if untracked.len() > 0 {
            if let Run::Gives(tree, last) = git::run_script(rehearsed, tree_words(branch), after) {
                apply::no_untracked_file_is_overwritten(untracked, zero_separated(tree));
                let found = apply::clashing(untracked, zero_separated(tree));
                if found.len() > 0 {
                    clashes_are_there(untracked, zero_separated(tree));
                    assert(last.asks[last.next - 1 - 1] == git_in(repo, untracked_words()));
                    assert(last.asks[last.next - 1] == git_in(rehearsed, tree_words(branch)));
                    assert(spoken(last.log[last.next - 1 - 1]) == Some(listing));
                    assert(spoken(last.log[last.next - 1]) == Some(tree));
                    assert(untracked_path_in_the_way(repo, rehearsed, branch, last));
                }
            }
        }
    }
}

proof fn clashes_are_there(untracked: Seq<Text>, tree: Seq<Text>)
    requires
        apply::clashing(untracked, tree).len() > 0,
    ensures
        are_in_the_way(untracked, tree),
    decreases untracked.len(),
{
    if untracked.len() > 0 {
        let rest = untracked.drop_last();
        if exists|i: int|
            0 <= i < tree.len() && apply::clash(untracked.last(), #[trigger] tree[i]) {
            let i = choose|i: int|
                0 <= i < tree.len() && apply::clash(untracked.last(), #[trigger] tree[i]);
            assert(takes_the_place(untracked[untracked.len() - 1], tree[i]));
        } else {
            clashes_are_there(rest, tree);
            let (j, k) = choose|j: int, k: int|
                0 <= j < rest.len() && 0 <= k < tree.len() && takes_the_place(
                    #[trigger] rest[j],
                    #[trigger] tree[k],
                );
            assert(takes_the_place(untracked[j], tree[k]));
        }
    }
}

proof fn carried_work_is_the_reason(repo: Text, snapshot: Text, id: Text, tape: Tape)
    requires
        is_complete(tape),
    ensures
        carry::check_unchanged_script(repo, snapshot, id, tape) matches Run::Fails(fault, later)
            ==> {
            &&& later.next > tape.next
            &&& fault is Refused ==> carried_work_is_gone(repo, snapshot, later)
            &&& !(fault is Refused) ==> failed_at_last(later)
        },
{
    going_on_adds_up();
    requests_are_exchanges();
    reveal(carry::check_unchanged_script);
    reveal(carry::trees_of_script);
    reveal(git::run_script);
    reveal(git::captured);
    if let Run::Gives(now, after) = git::run_script(repo, snapshot_words(), tape) {
        if now.len() == 0 {
            assert(now =~= Seq::<char>::empty());
        }
    }
}

proof fn uncommitted_work_is_the_reason(repo: Text, carried: bool, tape: Tape)
    requires
        is_complete(tape),
    ensures
        apply::check_clean_script(repo, carried, tape) matches Run::Fails(fault, later) ==> {
            &&& later == further(tape, git_in(repo, status_words()))
            &&& fault is Refused ==> (spoken(later.log[tape.next]) matches Some(said) && said.len()
                > 0)
            &&& !(fault is Refused) ==> failed_at_last(later)
        },
{
    requests_are_exchanges();
    reveal(apply::check_clean_script);
    reveal(undo::has_changes_script);
    reveal(git::run_script);
    reveal(git::captured);
}

proof fn the_worktree_is_the_reason(sandbox: SandboxModel, branch: Text, tape: Tape)
    requires
        is_complete(tape),
    ensures
        ({
            let meta = sandbox.meta;
            let repo = meta.repo_path;
            apply::check_worktree_script(
                repo,
                worktree_of(sandbox.root),
                branch,
                meta.carry,
                meta.id,
                tape,
            ) matches Run::Fails(fault, later) ==> {
                &&& later.next > tape.next
                &&& !(fault is Refused) ==> failed_at_last(later)
                &&& fault is Refused ==> {
                    let last = later.next - 1;
                    ||| !was_promised(meta.carry) && later.asks[last] == git_in(
                        repo,
                        status_words(),
                    ) && (spoken(later.log[last]) matches Some(said) && said.len() > 0)
                    ||| was_promised(meta.carry) && carried_work_is_gone(
                        repo,
                        meta.carry->0.snapshot,
                        later,
                    )
                    ||| untracked_path_in_the_way(repo, worktree_of(sandbox.root), branch, later)
                }
            }
        }),
{
    going_on_adds_up();
    reveal(apply::check_worktree_script);
    let meta = sandbox.meta;
    let repo = meta.repo_path;
    let rehearsed = worktree_of(sandbox.root);
    worktrees_are_asked_for(sandbox, branch, tape);
    if was_promised(meta.carry) {
        let snapshot = meta.carry->0.snapshot;
        carried_work_is_asked_for(repo, snapshot, meta.id, tape);
        carried_work_is_the_reason(repo, snapshot, meta.id, tape);
        if let Run::Gives(_, t1) = carry::check_unchanged_script(repo, snapshot, meta.id, tape) {
            assert(is_complete(t1));
            assert(t1.next > tape.next);
            untracked_paths_are_the_reason(repo, rehearsed, branch, t1);
        }
    } else {
        clean_worktrees_are_asked_for(repo, meta.carry is Some, tape);
        uncommitted_work_is_the_reason(repo, meta.carry is Some, tape);
        if let Run::Gives(_, t1) = apply::check_clean_script(repo, meta.carry is Some, tape) {
            assert(is_complete(t1));
            assert(t1.next > tape.next);
            untracked_paths_are_the_reason(repo, rehearsed, branch, t1);
        }
    }
}

/// An apply is refused for a reason, and what is in its way is always a refusal: where it
/// ends otherwise, the last thing that it asked for was not done.
pub proof fn an_apply_is_refused_for_a_reason(
    sandbox: SandboxModel,
    now_unix: u64,
    tape: Tape,
    fault: Fault,
    later: Tape,
)
    requires
        is_complete(tape),
        ascending(sandbox.meta.pre_state),
        apply::run_script(sandbox, now_unix, tape) == Run::<apply::AppliedModel>::Fails(
            fault,
            later,
        ),
    ensures
        fault is Refused ==> has_reason_to_refuse_apply(sandbox, tape, later),
        !(fault is Refused) ==> failed_at_last(later),
{
    going_on_adds_up();
    let meta = sandbox.meta;
    let repo = meta.repo_path;
    let worktree = worktree_of(sandbox.root);
    reveal(apply::run_script);
    states_are_asked_for(worktree, tape);
    states_fail_with_git(worktree, tape);
    if let Run::Gives(rehearsed, t1) = current_state_script(worktree, tape) {
        told_states_are_in_order(worktree, rehearsed, tape, t1, tape.next);
        let moved = moves_between(meta.pre_state, rehearsed);
        if moved.len() == 0 {
            assert(state_was_told(worktree, rehearsed, tape, later, tape.next));
        } else {
            reveal(apply::apply_script);
            states_are_asked_for(repo, t1);
            states_fail_with_git(repo, t1);
            if let Run::Gives(now, t2) = current_state_script(repo, t1) {
                apply::any_moved_ref_refuses_the_apply(meta.pre_state, now);
                branches_are_asked_for(repo, t2);
                branches_never_fail(repo, t2);
                if let Run::Gives(branch, t3) = undo::current_branch_script(repo, t2) {
                    moves_are_exact(meta.pre_state, rehearsed);
                    checkouts_are_moved(sandbox, rehearsed);
                    let reset = moved_checkout(sandbox, rehearsed);
                    if apply::is_same_checkout(meta.checkout, branch) && apply::changes(
                        meta.pre_state,
                        now,
                    ).len() == 0 {
                        if let Some(on) = reset {
                            worktrees_are_asked_for(sandbox, on, t3);
                            the_worktree_is_the_reason(sandbox, on, t3);
                            let check = apply::check_worktree_script(
                                repo,
                                worktree,
                                on,
                                meta.carry,
                                meta.id,
                                t3,
                            );
                            if let Run::Gives(carried, t4) = check {
                                transplants_fail_with_the_system(
                                    sandbox,
                                    now_unix,
                                    moved,
                                    reset,
                                    carried,
                                    t4,
                                );
                            } else {
                                assert(continues(later, t1));
                                states_widen(worktree, rehearsed, tape, tape, t1, later);
                            }
                        } else {
                            transplants_fail_with_the_system(
                                sandbox,
                                now_unix,
                                moved,
                                reset,
                                None,
                                t3,
                            );
                        }
                    } else {
                        assert(later == t3);
                        assert(continues(later, t2));
                        states_widen(worktree, rehearsed, tape, tape, t1, later);
                        states_widen(repo, now, tape, t1, t2, later);
                    }
                }
            }
        }
    }
}

proof fn states_fail_with_git(dir: Text, tape: Tape)
    requires
        is_complete(tape),
    ensures
        current_state_script(dir, tape) matches Run::Fails(fault, later) ==> !(fault is Refused)
            && failed_at_last(later),
{
    going_on_adds_up();
    requests_are_exchanges();
    reveal(current_state_script);
    reveal(git::refs_script);
    reveal(git::run_script);
    reveal(git::captured);
}

proof fn branches_never_fail(repo: Text, tape: Tape)
    ensures
        !(undo::current_branch_script(repo, tape) is Fails),
{
    reveal(undo::current_branch_script);
}

proof fn transplants_fail_with_the_system(
    sandbox: SandboxModel,
    now_unix: u64,
    moved: Seq<crate::analyze::RefMoveModel>,
    reset: Option<Text>,
    carried: Option<apply::CarriedModel>,
    tape: Tape,
)
    requires
        is_complete(tape),
    ensures
        apply::transplant_script(sandbox, now_unix, moved, reset, carried, tape) matches Run::Fails(
            fault,
            later,
        ) ==> !(fault is Refused) && failed_at_last(later),
{
    going_on_adds_up();
    requests_are_exchanges();
    faults_are_the_systems();
    reveal(apply::transplant_script);
    reveal(apply::put_back_script);
    reveal(carry::restore_script);
    reveal(undo::write_script);
    reveal(undo::record_path_script);
    reveal(undo::move_refs_script);
    reveal(undo::reset_worktree_script);
}

proof fn faults_are_the_systems()
    ensures
        forall|dir: Text, args: Seq<Text>, tape: Tape|
            is_complete(tape) ==> (#[trigger] git::run_script(dir, args, tape) matches Run::Fails(
                fault,
                later,
            ) ==> !(fault is Refused) && failed_at_last(later)),
        forall|dir: Text, args: Seq<Text>, input: Text, tape: Tape|
            is_complete(tape) ==> (#[trigger] git::run_with_stdin_script(
                dir,
                args,
                input,
                tape,
            ) matches Run::Fails(fault, later) ==> !(fault is Refused) && failed_at_last(later)),
        forall|path: Text, bytes: Seq<u8>, about: Text, tape: Tape|
            is_complete(tape) ==> (#[trigger] crate::files::do_script(
                Ask::Write(path, bytes),
                about,
                tape,
            ) matches Run::Fails(fault, later) ==> !(fault is Refused) && failed_at_last(later)),
        forall|path: Text, about: Text, tape: Tape|
            is_complete(tape) ==> (#[trigger] crate::files::do_script(
                Ask::RemoveFile(path),
                about,
                tape,
            ) matches Run::Fails(fault, later) ==> !(fault is Refused) && failed_at_last(later)),
{
    reveal(git::run_script);
    reveal(git::run_with_stdin_script);
    reveal(git::captured);
    reveal(crate::files::do_script);
}

// ---------------------------------------------------------------------------
// Undo
// ---------------------------------------------------------------------------
/// Whether an undo has a reason to be refused: there is no record or none that can be
/// read, it is of another apply than was meant, it moved nothing, a branch is not where the
/// apply left it, the branch that is checked out would be gone, or following it back would
/// destroy uncommitted changes.
pub open spec fn has_reason_to_refuse_undo(
    repo: Text,
    id: Option<Text>,
    tape: Tape,
    later: Tape,
) -> bool {
    let first = tape.next;
    let last = later.next - 1;
    &&& was_asked(git_in(repo, seq!["rev-parse"@, "--absolute-git-dir"@]), tape, later, first)
    &&& spoken(later.log[first]) matches Some(dir) && {
        &&& was_asked(Ask::ReadText(record_in(dir)), tape, later, first + 1)
        &&& match later.log[first + 1] {
            Answer::Text(text) => match parsed(text, record_in(dir)) {
                Ok(record) => {
                    ||| id matches Some(id) && !id.is_prefix_of(record.rehearsal)
                    ||| record.refs.len() == 0
                    ||| was_asked(
                        git_in(repo, git::refs_args("refs/heads/"@, 0)),
                        tape,
                        later,
                        first + 2,
                    ) && (spoken(later.log[first + 2]) matches Some(listing) && {
                        let now = git::refs_in(lines_of(listing));
                        ||| exists|i: int|
                            0 <= i < record.refs.len() && lookup(
                                now,
                                (#[trigger] record.refs[i]).name,
                            ) != record.refs[i].after
                        ||| was_asked(git_in(repo, branch_words()), tape, later, first + 3) && (
                        spoken(later.log[first + 3]) matches Some(branch) && (undo::move_of(
                            record.refs,
                            "refs/heads/"@ + branch,
                        ) matches Some(moved) && {
                            ||| moved.before is None
                            ||| later.asks[last] == git_in(repo, status_words()) && (spoken(
                                later.log[last],
                            ) matches Some(said) && said.len() > 0)
                        }))
                    })
                },
                Err(_) => true,
            },
            _ => true,
        }
    }
}

/// An undo is refused for a reason, and what is in its way is always a refusal: where it
/// ends otherwise, the last thing that it asked for was not done.
pub proof fn an_undo_is_refused_for_a_reason(
    repo: Text,
    id: Option<Text>,
    tape: Tape,
    fault: Fault,
    later: Tape,
)
    requires
        is_complete(tape),
        undo::run_script(repo, id, tape) == Run::<undo::UndoneModel>::Fails(fault, later),
    ensures
        fault is Refused ==> has_reason_to_refuse_undo(repo, id, tape, later),
        !(fault is Refused) ==> failed_at_last(later),
{
    going_on_adds_up();
    requests_are_exchanges();
    faults_are_the_systems();
    reveal(undo::run_script);
    reveal(undo::undo_script);
    reveal(undo::record_path_script);
    reveal(undo::reset_script);
    reveal(undo::current_branch_script);
    reveal(undo::has_changes_script);
    reveal(undo::restore_script);
    reveal(undo::move_refs_script);
    reveal(undo::reset_worktree_script);
    reveal(git::refs_script);
    reveal(crate::files::read_text_script);
    let dir_words = seq!["rev-parse"@, "--absolute-git-dir"@];
    if let Run::Gives(dir, t1) = git::run_script(repo, dir_words, tape) {
        let path = record_in(dir);
        if let Run::Gives(HeardModel::Got(text), t2) = crate::files::read_text_script(path, t1) {
            if let Ok(record) = parsed(text, path) {
                let refs_words = git::refs_args("refs/heads/"@, 0);
                if let Run::Gives(listing, t3) = git::run_script(repo, refs_words, t2) {
                    undo::any_moved_ref_refuses_the_undo(
                        record.refs,
                        git::refs_in(lines_of(listing)),
                    );
                }
            }
        }
    }
}

} // verus!
