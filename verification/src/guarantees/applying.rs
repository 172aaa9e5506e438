//! What an apply saw before it changed anything, and what it changed then.

use vstd::prelude::*;

use crate::analyze::{current_state_script, moves_are_exact, moves_between};
use crate::apply;
use crate::carry::{self, CarryModel, ReplayModel};
use crate::execute::zero_separated;
use crate::git;
use crate::guarantees::asking::is_reading;
use crate::guarantees::conversation::{
    continues, git_fed, git_in, going_on_adds_up, is_complete, is_looking, left_by, looks_on,
    requests_are_exchanges, spoken, was_asked, was_told,
};
use crate::guarantees::undoing::{
    acts, branch_words, looked_until, moving_words, record_in, reset_words, status_words, went_through,
    were_asked,
};
use crate::guarantees::record_of_apply;
use crate::parts::lines_of;
use crate::refcommands::{commands_of, commands_text};
use crate::refs::{ascending, inserted, inserted_points, lookup, Entries};
use crate::sandbox::meta::CheckoutModel;
use crate::sandbox::{worktree_of, SandboxModel};
use crate::session::{further, Ask, Run, Tape};
use crate::text::Text;
use crate::undo;
use crate::undo::record::rendered;

verus! {

// ---------------------------------------------------------------------------
// What is looked at
// ---------------------------------------------------------------------------
/// The arguments that ask git for the commit that is checked out.
pub open spec fn head_words() -> Seq<Text> {
    seq!["rev-parse"@, "--verify"@, "--quiet"@, "HEAD"@]
}

/// The arguments that ask git for every untracked path, ignored ones with them.
pub open spec fn untracked_words() -> Seq<Text> {
    seq!["ls-files"@, "--others"@, "--no-empty-directory"@, "-z"@]
}

/// The arguments that ask git for every path in the tree of a branch.
pub open spec fn tree_words(branch: Text) -> Seq<Text> {
    seq!["ls-tree"@, "-r"@, "--name-only"@, "-z"@, "refs/heads/"@ + branch]
}

/// The arguments that ask git for a snapshot of the uncommitted work.
pub open spec fn snapshot_words() -> Seq<Text> {
    seq!["stash"@, "create"@]
}

/// Whether git was asked in a directory for its branches and its `HEAD`, beginning
/// with request number `i`, and said that they are these.
pub open spec fn state_was_told(dir: Text, state: Entries, tape: Tape, later: Tape, i: int) -> bool {
    &&& was_asked(git_in(dir, git::refs_args("refs/heads/"@, 0)), tape, later, i)
    &&& spoken(later.log[i]) is Some
    &&& was_asked(git_in(dir, head_words()), tape, later, i + 1)
    &&& state == match spoken(later.log[i + 1]) {
        Some(head) => inserted(
            git::refs_in(lines_of(spoken(later.log[i])->0)),
            "HEAD"@,
            head,
        ),
        None => git::refs_in(lines_of(spoken(later.log[i])->0)),
    }
}

/// Whether one path would take the place of another: they are the same, or one is
/// above the other.
pub open spec fn takes_the_place(a: Text, b: Text) -> bool {
    ||| a == b
    ||| (a + "/"@).is_prefix_of(b)
    ||| (b + "/"@).is_prefix_of(a)
}

/// Whether git was asked, from request number `i` on, for the untracked paths of the
/// repository and for the tree that the branch has in the sandbox, and no path of the
/// one would take the place of a path of the other.
pub open spec fn no_untracked_path_in_the_way(
    repo: Text,
    rehearsed: Text,
    branch: Text,
    tape: Tape,
    later: Tape,
    i: int,
) -> bool {
    &&& was_asked(git_in(repo, untracked_words()), tape, later, i)
    &&& spoken(later.log[i]) matches Some(untracked) && (zero_separated(untracked).len() > 0 ==> {
        &&& was_asked(git_in(rehearsed, tree_words(branch)), tape, later, i + 1)
        &&& spoken(later.log[i + 1]) matches Some(tree) && forall|j: int, k: int|
            0 <= j < zero_separated(untracked).len() && 0 <= k < zero_separated(tree).len()
                ==> !takes_the_place(
                #[trigger] zero_separated(untracked)[j],
                #[trigger] zero_separated(tree)[k],
            )
    })
}

/// How many replies that took.
pub open spec fn untracked_looks(later: Tape, i: int) -> int {
    if zero_separated(spoken(later.log[i])->0).len() > 0 {
        2
    } else {
        1
    }
}

/// Whether git was asked, from request number `i` on, for the trees of a fresh
/// snapshot and of the one that was carried, and they are the same.
pub open spec fn work_is_the_carried_one(
    repo: Text,
    snapshot: Text,
    tape: Tape,
    later: Tape,
    i: int,
) -> bool {
    &&& was_asked(git_in(repo, snapshot_words()), tape, later, i)
    &&& spoken(later.log[i]) matches Some(now) && {
        &&& now.len() > 0
        &&& was_asked(git_in(repo, seq!["rev-parse"@, now + "^{tree}"@]), tape, later, i + 1)
        &&& was_asked(git_in(repo, seq!["rev-parse"@, now + "^2^{tree}"@]), tape, later, i + 2)
        &&& was_asked(git_in(repo, seq!["rev-parse"@, snapshot + "^{tree}"@]), tape, later, i + 3)
        &&& was_asked(git_in(repo, seq!["rev-parse"@, snapshot + "^2^{tree}"@]), tape, later, i + 4)
        &&& spoken(later.log[i + 1]) is Some
        &&& spoken(later.log[i + 1]) == spoken(later.log[i + 3])
        &&& spoken(later.log[i + 2]) == spoken(later.log[i + 4])
    }
}

/// Whether the report of a rehearsal promised the uncommitted work back.
pub open spec fn was_promised(carry: Option<CarryModel>) -> bool {
    carry matches Some(carry) && carry.replay matches Some(ReplayModel::Restored { .. })
}

/// The commit that the sandbox captured of the work that it put back.
pub open spec fn captured(carry: Option<CarryModel>) -> Option<Text> {
    match carry {
        Some(CarryModel { replay: Some(ReplayModel::Restored { result }), .. }) => result,
        _ => None,
    }
}

/// Whether git was asked, from request number `i` on, whether the worktree may be
/// reset to the branch, and it may: the worktree holds exactly the work that was
/// promised back, or none where none was, and no untracked path is in the way.
pub open spec fn worktree_may_be_reset(
    sandbox: SandboxModel,
    branch: Text,
    tape: Tape,
    later: Tape,
    i: int,
) -> bool {
    let repo = sandbox.meta.repo_path;
    let rehearsed = worktree_of(sandbox.root);
    if was_promised(sandbox.meta.carry) {
        &&& work_is_the_carried_one(repo, sandbox.meta.carry->0.snapshot, tape, later, i)
        &&& no_untracked_path_in_the_way(repo, rehearsed, branch, tape, later, i + 5)
    } else {
        &&& was_told(repo, status_words(), Seq::empty(), tape, later, i)
        &&& no_untracked_path_in_the_way(repo, rehearsed, branch, tape, later, i + 1)
    }
}

/// How many replies that took.
pub open spec fn worktree_looks(sandbox: SandboxModel, later: Tape, i: int) -> int {
    if was_promised(sandbox.meta.carry) {
        5 + untracked_looks(later, i + 5)
    } else {
        1 + untracked_looks(later, i + 1)
    }
}

/// The branch that is checked out, where the rehearsal moved it.
pub open spec fn moved_checkout(sandbox: SandboxModel, rehearsed: Entries) -> Option<Text> {
    match sandbox.meta.checkout {
        CheckoutModel::Branch(branch) => if lookup(
            sandbox.meta.pre_state,
            "refs/heads/"@ + branch,
        ) != lookup(rehearsed, "refs/heads/"@ + branch) {
            Some(branch)
        } else {
            None
        },
        CheckoutModel::Detached(_) => None,
    }
}

/// What an apply was told.
pub struct ApplySight {
    /// The refs of the sandbox.
    pub rehearsed: Entries,
    /// The refs of the repository.
    pub now: Entries,
    /// The branch that is checked out in the repository, if one is.
    pub branch: Option<Text>,
    /// Git's own directory.
    pub dir: Text,
}

/// Whether an apply was told this, in the first replies from `tape` on: the sandbox
/// moved something, the repository is as the rehearsal found it, and where the
/// worktree has to follow it may.
pub open spec fn apply_saw(sight: ApplySight, sandbox: SandboxModel, tape: Tape, later: Tape) -> bool {
    let first = tape.next;
    let meta = sandbox.meta;
    &&& state_was_told(worktree_of(sandbox.root), sight.rehearsed, tape, later, first)
    &&& moves_between(meta.pre_state, sight.rehearsed).len() > 0
    &&& state_was_told(meta.repo_path, sight.now, tape, later, first + 2)
    &&& was_asked(git_in(meta.repo_path, branch_words()), tape, later, first + 4)
    &&& spoken(later.log[first + 4]) == sight.branch
    &&& match meta.checkout {
        CheckoutModel::Branch(branch) => sight.branch == Some(branch),
        CheckoutModel::Detached(_) => sight.branch is None,
    }
    &&& forall|i: int|
        0 <= i < meta.pre_state.len() ==> lookup(sight.now, (#[trigger] meta.pre_state[i]).0)
            == Some(meta.pre_state[i].1)
    &&& moved_checkout(sandbox, sight.rehearsed) matches Some(branch) ==> worktree_may_be_reset(
        sandbox,
        branch,
        tape,
        later,
        first + 5,
    )
}

/// How many replies an apply takes before it changes anything.
pub open spec fn apply_looks(sight: ApplySight, sandbox: SandboxModel, tape: Tape, later: Tape) -> int {
    5 + if moved_checkout(sandbox, sight.rehearsed) is Some {
        worktree_looks(sandbox, later, tape.next + 5)
    } else {
        0
    }
}

// ---------------------------------------------------------------------------
// What is done
// ---------------------------------------------------------------------------
/// The arguments that bring the rehearsed commits into the repository under refs of
/// their own, with the work that was put back where there is any.
pub open spec fn fetching_words(sandbox: SandboxModel, carried: bool) -> Seq<Text> {
    let id = sandbox.meta.id;
    let heads = seq![
        "fetch"@,
        "--no-tags"@,
        "--quiet"@,
        worktree_of(sandbox.root),
        "+refs/heads/*:"@ + ("refs/rehearse/"@ + id + "/"@) + "*"@,
    ];
    if carried {
        heads + seq!["+refs/rehearse/replayed:refs/rehearse/"@ + id + "-carry"@]
    } else {
        heads
    }
}

/// What an apply asks for once it may go on: the commits are fetched, the way back is
/// written down, the refs are moved in one transaction, and the worktree follows where
/// its branch was moved, with the work that was promised back on top of it.
pub open spec fn apply_steps(sight: ApplySight, sandbox: SandboxModel, now_unix: u64) -> Seq<Ask> {
    let meta = sandbox.meta;
    let repo = meta.repo_path;
    let moved = moves_between(meta.pre_state, sight.rehearsed);
    let reset = moved_checkout(sandbox, sight.rehearsed) is Some;
    let carried = if reset {
        captured(meta.carry)
    } else {
        None
    };
    let record = rendered(record_of_apply(sandbox, now_unix, moved));
    let commands = commands_text(commands_of(moved));
    let preparing = seq![
        git_in(repo, fetching_words(sandbox, carried is Some)),
        git_in(repo, seq!["rev-parse"@, "--absolute-git-dir"@]),
        Ask::Write(record_in(sight.dir), vstd::utf8::encode_utf8(record)),
    ];
    let moving = if commands.len() > 0 {
        seq![git_fed(repo, moving_words("git-rehearse apply "@ + meta.id), commands)]
    } else {
        Seq::empty()
    };
    let resetting = if reset {
        seq![git_in(repo, reset_words())]
    } else {
        Seq::empty()
    };
    let restoring = match carried {
        Some(result) => seq![
            git_in(repo, seq!["read-tree"@, "-u"@, "--reset"@, result + "^{tree}"@]),
            git_in(repo, seq!["reset"@, "--mixed"@, "--quiet"@, "HEAD"@]),
        ],
        None => Seq::empty(),
    };
    preparing + moving + resetting + restoring
}

/// What an apply saw and what it did: before it asks for any change it was told all
/// that it needs, and from then on it takes these steps and no other, each after the
/// one before went through.
pub open spec fn is_applied_so(
    sight: ApplySight,
    sandbox: SandboxModel,
    now_unix: u64,
    run: Run<apply::AppliedModel>,
    tape: Tape,
) -> bool {
    let later = left_by(run);
    let start = tape.next + apply_looks(sight, sandbox, tape, later);
    let steps = apply_steps(sight, sandbox, now_unix);
    let moved = moves_between(sandbox.meta.pre_state, sight.rehearsed);
    let reset = moved_checkout(sandbox, sight.rehearsed);
    &&& apply_saw(sight, sandbox, tape, later)
    &&& looked_until(start, tape, later)
    &&& were_asked(steps, later, start)
    &&& later.next > start + 1 ==> spoken(later.log[start + 1]) is Some ==> spoken(
        later.log[start + 1],
    ) == Some(sight.dir)
    &&& run matches Run::Asks(ask, _) ==> later.next - start < steps.len() && ask == steps[
        later.next - start]
    &&& run matches Run::Gives(applied, _) ==> {
        &&& later.next - start == steps.len()
        &&& went_through(later, later.next - 1)
        &&& applied.moved == moved
        &&& applied.reset == reset
        &&& applied.carried == if reset is Some && captured(sandbox.meta.carry) is Some {
            Some(sandbox.meta.carry->0.paths)
        } else {
            None
        }
        &&& applied.undo == record_in(sight.dir)
        &&& applied.anchor == "refs/rehearse/"@ + sandbox.meta.id + "/"@
    }
}

// ---------------------------------------------------------------------------
// That it is so
// ---------------------------------------------------------------------------
proof fn listed_refs_are_in_order(lines: Seq<Text>)
    ensures
        ascending(git::refs_in(lines)),
    decreases lines.len(),
{
    if lines.len() > 0 {
        listed_refs_are_in_order(lines.drop_last());
        if let Some((name, object)) = git::listed(lines.last()) {
            inserted_points(git::refs_in(lines.drop_last()), name, object);
        }
    }
}

/// What git says of its refs is in order.
pub proof fn told_states_are_in_order(dir: Text, state: Entries, tape: Tape, later: Tape, i: int)
    requires
        state_was_told(dir, state, tape, later, i),
    ensures
        ascending(state),
{
    let lines = lines_of(spoken(later.log[i])->0);
    listed_refs_are_in_order(lines);
    if let Some(head) = spoken(later.log[i + 1]) {
        inserted_points(git::refs_in(lines), "HEAD"@, head);
    }
}

/// Asking for a state is two looks.
pub proof fn states_are_asked_for(dir: Text, tape: Tape)
    requires
        is_complete(tape),
    ensures
        is_looking(current_state_script(dir, tape), tape),
        current_state_script(dir, tape) matches Run::Gives(state, after) ==> after.next == tape.next
            + 2 && state_was_told(dir, state, tape, after, tape.next),
{
    going_on_adds_up();
    requests_are_exchanges();
    reveal(current_state_script);
    reveal(git::refs_script);
    assert(is_reading(git::refs_args("refs/heads/"@, 0)));
    assert(is_reading(head_words()));
    reveal(continues);
}

proof fn untracked_paths_are_asked_for(repo: Text, rehearsed: Text, branch: Text, tape: Tape)
    requires
        is_complete(tape),
    ensures
        is_looking(apply::check_untracked_script(repo, rehearsed, branch, tape), tape),
        apply::check_untracked_script(repo, rehearsed, branch, tape) matches Run::Gives(_, after)
            ==> {
            &&& no_untracked_path_in_the_way(repo, rehearsed, branch, tape, after, tape.next)
            &&& after.next == tape.next + untracked_looks(after, tape.next)
        },
{
    going_on_adds_up();
    requests_are_exchanges();
    reveal(apply::check_untracked_script);
    assert(is_reading(untracked_words()));
    assert(is_reading(tree_words(branch)));
    reveal(continues);
    if let Run::Gives(listing, after) = git::run_script(repo, untracked_words(), tape) {
        let untracked = zero_separated(listing);
        if untracked.len() > 0 {
            if let Run::Gives(tree, last) = git::run_script(rehearsed, tree_words(branch), after) {
                apply::no_untracked_file_is_overwritten(untracked, zero_separated(tree));
            }
        }
    }
}

proof fn trees_are_asked_for(repo: Text, commit: Text, tape: Tape)
    requires
        is_complete(tape),
    ensures
        is_looking(carry::trees_of_script(repo, commit, tape), tape),
        carry::trees_of_script(repo, commit, tape) matches Run::Gives(trees, after) ==> {
            &&& after.next == tape.next + 2
            &&& was_asked(
                git_in(repo, seq!["rev-parse"@, commit + "^{tree}"@]),
                tape,
                after,
                tape.next,
            )
            &&& was_asked(
                git_in(repo, seq!["rev-parse"@, commit + "^2^{tree}"@]),
                tape,
                after,
                tape.next + 1,
            )
            &&& spoken(after.log[tape.next]) == Some(trees.0)
            &&& spoken(after.log[tape.next + 1]) == trees.1
        },
{
    going_on_adds_up();
    requests_are_exchanges();
    reveal(carry::trees_of_script);
    assert(is_reading(seq!["rev-parse"@, commit + "^{tree}"@]));
    assert(is_reading(seq!["rev-parse"@, commit + "^2^{tree}"@]));
    reveal(continues);
}

pub proof fn carried_work_is_asked_for(repo: Text, snapshot: Text, id: Text, tape: Tape)
    requires
        is_complete(tape),
    ensures
        is_looking(carry::check_unchanged_script(repo, snapshot, id, tape), tape),
        carry::check_unchanged_script(repo, snapshot, id, tape) matches Run::Gives(_, after) ==> {
            &&& after.next == tape.next + 5
            &&& work_is_the_carried_one(repo, snapshot, tape, after, tape.next)
        },
{
    going_on_adds_up();
    requests_are_exchanges();
    reveal(carry::check_unchanged_script);
    assert(is_reading(snapshot_words()));
    if let Run::Gives(now, t1) = git::run_script(repo, snapshot_words(), tape) {
        trees_are_asked_for(repo, now, t1);
        if let Run::Gives(is, t2) = carry::trees_of_script(repo, now, t1) {
            trees_are_asked_for(repo, snapshot, t2);
        }
    }
    reveal(continues);
}

pub proof fn clean_worktrees_are_asked_for(repo: Text, carried: bool, tape: Tape)
    requires
        is_complete(tape),
    ensures
        is_looking(apply::check_clean_script(repo, carried, tape), tape),
        apply::check_clean_script(repo, carried, tape) matches Run::Gives(_, after) ==> after.next
            == tape.next + 1 && was_told(
            repo,
            status_words(),
            Seq::empty(),
            tape,
            after,
            tape.next,
        ),
{
    going_on_adds_up();
    requests_are_exchanges();
    reveal(apply::check_clean_script);
    reveal(undo::has_changes_script);
    assert(is_reading(status_words()));
    reveal(continues);
    if let Run::Gives(_, after) = apply::check_clean_script(repo, carried, tape) {
        assert(spoken(tape.log[tape.next])->0 =~= Seq::<char>::empty());
    }
}

pub proof fn worktrees_are_asked_for(sandbox: SandboxModel, branch: Text, tape: Tape)
    requires
        is_complete(tape),
    ensures
        ({
            let meta = sandbox.meta;
            let run = apply::check_worktree_script(
                meta.repo_path,
                worktree_of(sandbox.root),
                branch,
                meta.carry,
                meta.id,
                tape,
            );
            &&& is_looking(run, tape)
            &&& run matches Run::Gives(carried, after) ==> {
                &&& worktree_may_be_reset(sandbox, branch, tape, after, tape.next)
                &&& after.next == tape.next + worktree_looks(sandbox, after, tape.next)
                &&& carried == match captured(meta.carry) {
                    Some(result) => Some(
                        apply::CarriedModel { result, paths: meta.carry->0.paths },
                    ),
                    None => None,
                }
            }
        }),
{
    going_on_adds_up();
    reveal(apply::check_worktree_script);
    let meta = sandbox.meta;
    let repo = meta.repo_path;
    let rehearsed = worktree_of(sandbox.root);
    if was_promised(meta.carry) {
        let snapshot = meta.carry->0.snapshot;
        carried_work_is_asked_for(repo, snapshot, meta.id, tape);
        if let Run::Gives(_, t1) = carry::check_unchanged_script(repo, snapshot, meta.id, tape) {
            untracked_paths_are_asked_for(repo, rehearsed, branch, t1);
        }
    } else {
        clean_worktrees_are_asked_for(repo, meta.carry is Some, tape);
        if let Run::Gives(_, t1) = apply::check_clean_script(repo, meta.carry is Some, tape) {
            untracked_paths_are_asked_for(repo, rehearsed, branch, t1);
        }
    }
    reveal(continues);
}

proof fn transplanting_is_said(
    sight: ApplySight,
    sandbox: SandboxModel,
    now_unix: u64,
    tape: Tape,
) -> (seen: ApplySight)
    requires
        is_complete(tape),
    ensures
        seen == (ApplySight { dir: seen.dir, ..sight }),
        ({
            let meta = sandbox.meta;
            let moved = moves_between(meta.pre_state, sight.rehearsed);
            let reset = moved_checkout(sandbox, sight.rehearsed);
            let carried = match (reset, captured(meta.carry)) {
                (Some(_), Some(result)) => Some(
                    apply::CarriedModel { result, paths: meta.carry->0.paths },
                ),
                _ => None,
            };
            let run = apply::transplant_script(sandbox, now_unix, moved, reset, carried, tape);
            let later = left_by(run);
            let steps = apply_steps(seen, sandbox, now_unix);
            &&& continues(later, tape)
            &&& were_asked(steps, later, tape.next)
            &&& later.next > tape.next + 1 && spoken(later.log[tape.next + 1]) is Some ==> spoken(
                later.log[tape.next + 1],
            ) == Some(seen.dir)
            &&& run matches Run::Asks(ask, _) ==> later.next - tape.next < steps.len() && ask
                == steps[later.next - tape.next]
            &&& run matches Run::Gives(applied, _) ==> {
                &&& later.next - tape.next == steps.len()
                &&& went_through(later, later.next - 1)
                &&& applied.moved == moved
                &&& applied.reset == reset
                &&& applied.carried == match carried {
                    Some(carried) => Some(carried.paths),
                    None => None,
                }
                &&& applied.undo == record_in(seen.dir)
                &&& applied.anchor == "refs/rehearse/"@ + sandbox.meta.id + "/"@
            }
        }),
{
    going_on_adds_up();
    requests_are_exchanges();
    reveal(apply::transplant_script);
    reveal(apply::put_back_script);
    reveal(carry::restore_script);
    reveal(undo::write_script);
    reveal(undo::record_path_script);
    reveal(undo::move_refs_script);
    reveal(undo::reset_worktree_script);
    let meta = sandbox.meta;
    let repo = meta.repo_path;
    let moved = moves_between(meta.pre_state, sight.rehearsed);
    let reset = moved_checkout(sandbox, sight.rehearsed);
    let carried = match (reset, captured(meta.carry)) {
        (Some(_), Some(result)) => Some(
            apply::CarriedModel { result, paths: meta.carry->0.paths },
        ),
        _ => None,
    };
    let fetching = fetching_words(sandbox, carried is Some);
    assert(fetching =~= apply::fetch_args(
        worktree_of(sandbox.root),
        apply::anchor_of(meta.id),
        meta.id,
        carried is Some,
    ));
    let dir_words = seq!["rev-parse"@, "--absolute-git-dir"@];
    let t1 = further(tape, git_in(repo, fetching));
    let seen = match git::run_script(repo, dir_words, t1) {
        Run::Gives(dir, _) => ApplySight { dir, ..sight },
        _ => sight,
    };
    if let Run::Gives(_, _) = git::run_script(repo, fetching, tape) {
        assert(continues(t1, tape));
        if let Run::Gives(path, t2) = undo::record_path_script(repo, t1) {
            assert(continues(t2, t1));
            let record = rendered(record_of_apply(sandbox, now_unix, moved));
            let writing = Ask::Write(path, vstd::utf8::encode_utf8(record));
            if let Run::Gives(_, t3) = crate::files::do_script(writing, path, t2) {
                assert(continues(t3, t2));
                let commands = commands_text(commands_of(moved));
                let message = "git-rehearse apply "@ + meta.id;
                if let Run::Gives(_, t4) = undo::move_refs_script(repo, commands, message, t3) {
                    assert(continues(t4, t3));
                    if let Run::Gives(_, t5) = undo::reset_worktree_script(
                        repo,
                        reset is Some,
                        t4,
                    ) {
                        assert(continues(t5, t4));
                    }
                }
            }
        }
    }
    seen
}

/// What was seen between two tapes was seen between wider ones.
proof fn sights_widen(
    sandbox: SandboxModel,
    branch: Text,
    earlier: Tape,
    tape: Tape,
    after: Tape,
    later: Tape,
)
    requires
        continues(tape, earlier),
        continues(after, tape),
        continues(later, after),
        worktree_may_be_reset(sandbox, branch, tape, after, tape.next),
        after.next == tape.next + worktree_looks(sandbox, after, tape.next),
    ensures
        worktree_may_be_reset(sandbox, branch, earlier, later, tape.next),
        worktree_looks(sandbox, later, tape.next) == worktree_looks(sandbox, after, tape.next),
{
    reveal(continues);
}

/// What was told of a state between two tapes was told between wider ones.
pub proof fn states_widen(
    dir: Text,
    state: Entries,
    earlier: Tape,
    tape: Tape,
    after: Tape,
    later: Tape,
)
    requires
        continues(tape, earlier),
        continues(after, tape),
        continues(later, after),
        state_was_told(dir, state, tape, after, tape.next),
    ensures
        state_was_told(dir, state, earlier, later, tape.next),
{
    reveal(continues);
}

/// Nothing is changed before the steps of an apply, and the steps are all that follows.
proof fn looks_come_first(tape: Tape, before: Tape, later: Tape)
    requires
        looks_on(before, tape),
        continues(later, before),
    ensures
        looked_until(before.next, tape, later),
{
    reveal(looks_on);
    reveal(continues);
}

proof fn an_apply_is_put_together(
    sandbox: SandboxModel,
    now_unix: u64,
    rehearsed: Entries,
    now: Entries,
    branch: Option<Text>,
    tape: Tape,
    t1: Tape,
    t2: Tape,
    t3: Tape,
    t4: Tape,
)
    requires
        is_complete(tape),
        ({
            let meta = sandbox.meta;
            let worktree = worktree_of(sandbox.root);
            let reset = moved_checkout(sandbox, rehearsed);
            let moved = moves_between(meta.pre_state, rehearsed);
            let run = apply::run_script(sandbox, now_unix, tape);
            let carried = match (reset, captured(meta.carry)) {
                (Some(_), Some(result)) => Some(
                    apply::CarriedModel { result, paths: meta.carry->0.paths },
                ),
                _ => None,
            };
            &&& state_was_told(worktree, rehearsed, tape, t1, tape.next)
            &&& t1.next == tape.next + 2
            &&& looks_on(t1, tape)
            &&& moved.len() > 0
            &&& state_was_told(meta.repo_path, now, t1, t2, t1.next)
            &&& t2.next == t1.next + 2
            &&& looks_on(t2, t1)
            &&& t3 == further(t2, git_in(meta.repo_path, branch_words()))
            &&& t2.next < t2.log.len()
            &&& spoken(t2.log[t2.next]) == branch
            &&& apply::is_same_checkout(meta.checkout, branch)
            &&& forall|i: int|
                0 <= i < meta.pre_state.len() ==> lookup(now, (#[trigger] meta.pre_state[i]).0)
                    == Some(meta.pre_state[i].1)
            &&& looks_on(t4, t3)
            &&& match reset {
                Some(on) => worktree_may_be_reset(sandbox, on, t3, t4, t3.next) && t4.next
                    == t3.next + worktree_looks(sandbox, t4, t3.next),
                None => t4 == t3,
            }
            &&& run == apply::transplant_script(sandbox, now_unix, moved, reset, carried, t4)
        }),
    ensures
        exists|sight: ApplySight|
            is_applied_so(
                sight,
                sandbox,
                now_unix,
                apply::run_script(sandbox, now_unix, tape),
                tape,
            ),
{
    going_on_adds_up();
    let meta = sandbox.meta;
    let run = apply::run_script(sandbox, now_unix, tape);
    let later = left_by(run);
    let worktree = worktree_of(sandbox.root);
    let seen = ApplySight { rehearsed, now, branch, dir: Seq::empty() };
    let sight = transplanting_is_said(seen, sandbox, now_unix, t4);
    assert(is_reading(branch_words()));
    assert(looks_on(t3, t2));
    assert(looks_on(t4, tape));
    assert(continues(later, t1));
    assert(continues(later, t2));
    assert(continues(later, t3));
    states_widen(worktree, rehearsed, tape, tape, t1, later);
    states_widen(meta.repo_path, now, tape, t1, t2, later);
    looks_come_first(tape, t4, later);
    if let Some(on) = moved_checkout(sandbox, rehearsed) {
        sights_widen(sandbox, on, tape, t3, t4, later);
    }
    assert(was_asked(git_in(meta.repo_path, branch_words()), tape, later, t2.next)
        && later.log == t2.log) by {
        reveal(continues);
    }
    assert(apply_saw(sight, sandbox, tape, later));
    let start = tape.next + apply_looks(sight, sandbox, tape, later);
    assert(start == t4.next);
    assert(is_applied_so(sight, sandbox, now_unix, run, tape));
}

pub proof fn branches_are_asked_for(repo: Text, tape: Tape)
    requires
        is_complete(tape),
    ensures
        is_looking(undo::current_branch_script(repo, tape), tape),
        undo::current_branch_script(repo, tape) matches Run::Gives(branch, after) ==> {
            &&& after == further(tape, git_in(repo, branch_words()))
            &&& tape.next < tape.log.len()
            &&& spoken(tape.log[tape.next]) == branch
        },
{
    going_on_adds_up();
    requests_are_exchanges();
    reveal(undo::current_branch_script);
    assert(is_reading(branch_words()));
}

/// The worktree has to follow exactly where the sandbox has the branch that is checked
/// out elsewhere than the rehearsal found it.
pub proof fn checkouts_are_moved(sandbox: SandboxModel, rehearsed: Entries)
    requires
        ascending(sandbox.meta.pre_state),
        ascending(rehearsed),
    ensures
        apply::reset_branch(
            sandbox.meta.checkout,
            moves_between(sandbox.meta.pre_state, rehearsed),
        ) == moved_checkout(sandbox, rehearsed),
{
    let meta = sandbox.meta;
    let moved = moves_between(meta.pre_state, rehearsed);
    moves_are_exact(meta.pre_state, rehearsed);
    if let CheckoutModel::Branch(on) = meta.checkout {
        let name = "refs/heads/"@ + on;
        if lookup(meta.pre_state, name) != lookup(rehearsed, name) {
            let i = choose|i: int|
                0 <= i < moves_between(meta.pre_state, rehearsed).len() && #[trigger] moves_between(
                    meta.pre_state,
                    rehearsed,
                )[i].name == name;
            assert(moved[i].name == name);
        } else {
            assert forall|i: int| 0 <= i < moved.len() implies (#[trigger] moved[i]).name != name by {
                assert(moves_between(meta.pre_state, rehearsed)[i].before != moved[i].after);
            }
        }
    }
}

proof fn applying_goes_on(
    sandbox: SandboxModel,
    now_unix: u64,
    rehearsed: Entries,
    tape: Tape,
    t1: Tape,
)
    requires
        is_complete(tape),
        ascending(sandbox.meta.pre_state),
        ascending(rehearsed),
        state_was_told(worktree_of(sandbox.root), rehearsed, tape, t1, tape.next),
        t1.next == tape.next + 2,
        looks_on(t1, tape),
        moves_between(sandbox.meta.pre_state, rehearsed).len() > 0,
        apply::run_script(sandbox, now_unix, tape) == apply::apply_script(
            sandbox,
            now_unix,
            moves_between(sandbox.meta.pre_state, rehearsed),
            t1,
        ),
    ensures
        is_looking(apply::run_script(sandbox, now_unix, tape), tape) && !(apply::run_script(
            sandbox,
            now_unix,
            tape,
        ) is Gives) || exists|sight: ApplySight|
            is_applied_so(
                sight,
                sandbox,
                now_unix,
                apply::run_script(sandbox, now_unix, tape),
                tape,
            ),
{
    going_on_adds_up();
    let meta = sandbox.meta;
    let repo = meta.repo_path;
    let worktree = worktree_of(sandbox.root);
    let moved = moves_between(meta.pre_state, rehearsed);
    moves_are_exact(meta.pre_state, rehearsed);
    states_are_asked_for(repo, t1);
    reveal(apply::apply_script);
    if let Run::Gives(now, t2) = current_state_script(repo, t1) {
        apply::any_moved_ref_refuses_the_apply(meta.pre_state, now);
        branches_are_asked_for(repo, t2);
        if let Run::Gives(branch, t3) = undo::current_branch_script(repo, t2) {
            let reset = moved_checkout(sandbox, rehearsed);
            checkouts_are_moved(sandbox, rehearsed);
            if let Some(on) = reset {
                worktrees_are_asked_for(sandbox, on, t3);
                if let Run::Gives(carried, t4) = apply::check_worktree_script(
                    repo,
                    worktree,
                    on,
                    meta.carry,
                    meta.id,
                    t3,
                ) {
                    if apply::is_same_checkout(meta.checkout, branch) && apply::changes(
                        meta.pre_state,
                        now,
                    ).len() == 0 {
                        an_apply_is_put_together(
                            sandbox,
                            now_unix,
                            rehearsed,
                            now,
                            branch,
                            tape,
                            t1,
                            t2,
                            t3,
                            t4,
                        );
                    }
                }
            } else if apply::is_same_checkout(meta.checkout, branch) && apply::changes(
                meta.pre_state,
                now,
            ).len() == 0 {
                an_apply_is_put_together(
                    sandbox,
                    now_unix,
                    rehearsed,
                    now,
                    branch,
                    tape,
                    t1,
                    t2,
                    t3,
                    t3,
                );
            }
        }
    }
}

/// What an apply does. Nothing is changed unless the repository is as the rehearsal
/// found it and, where the worktree has to follow its branch, it holds nothing that
/// the sandbox does not account for: no other uncommitted work, and no untracked path
/// that the rehearsed tree would take the place of.
pub proof fn what_an_apply_does(sandbox: SandboxModel, now_unix: u64, tape: Tape)
    requires
        is_complete(tape),
        ascending(sandbox.meta.pre_state),
        acts(apply::run_script(sandbox, now_unix, tape), tape),
    ensures
        exists|sight: ApplySight|
            is_applied_so(
                sight,
                sandbox,
                now_unix,
                apply::run_script(sandbox, now_unix, tape),
                tape,
            ),
{
    let run = apply::run_script(sandbox, now_unix, tape);
    let worktree = worktree_of(sandbox.root);
    reveal(apply::run_script);
    states_are_asked_for(worktree, tape);
    if let Run::Gives(rehearsed, t1) = current_state_script(worktree, tape) {
        told_states_are_in_order(worktree, rehearsed, tape, t1, tape.next);
        if moves_between(sandbox.meta.pre_state, rehearsed).len() > 0 {
            applying_goes_on(sandbox, now_unix, rehearsed, tape, t1);
        }
    }
    reveal(looks_on);
}

} // verus!
