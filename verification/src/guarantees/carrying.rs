//! What becomes of the worktree and of the uncommitted work in it.

use vstd::prelude::*;

use crate::apply;
use crate::carry::{self, CarryModel, ReplayModel};
use crate::execute::{self, zero_separated};
use crate::git;
use crate::guarantees::applying::{
    apply_looks, apply_steps, captured, is_applied_so, snapshot_words, what_an_apply_does,
    ApplySight,
};
use crate::guarantees::asking::is_reading;
use crate::guarantees::conversation::{
    continues, git_in, going_on_adds_up, is_complete, left_by, requests_are_exchanges, spoken,
    was_asked, was_told, what_was_said_stays,
};
use crate::guarantees::is_change;
use crate::guarantees::undoing::{
    branch_words, is_undone_so, record_in, reset_words, status_words, undo_looks, undo_steps,
    what_an_undo_does, UndoSight,
};
use crate::parts::lines_of;
use crate::refs::{ascending, lookup};
use crate::sandbox::meta::{self, CheckoutModel, MetaModel};
use crate::sandbox::{with_replay, worktree_of, SandboxModel};
use crate::session::{further, Ask, Run, Tape};
use crate::text::Text;
use crate::undo;

verus! {

// ---------------------------------------------------------------------------
// The worktree
// ---------------------------------------------------------------------------
/// What the tracked files of a worktree hold.
pub enum Content {
    /// What they held before.
    AsBefore,
    /// What the commit that is checked out holds.
    Head,
    /// What a tree holds, under the name that git was given for it.
    Tree(Text),
    /// Nobody can tell.
    Unknown,
}

/// What a worktree holds after a request: `reset --hard` makes it the commit that is
/// checked out, `read-tree -u --reset` makes it a tree, and `fetch`, `update-ref` and
/// `reset --mixed` leave it alone. Of the files, only the record of an apply is none of
/// the worktree's.
pub open spec fn content_after_one(content: Content, repo: Text, record: Text, ask: Ask) -> Content {
    match ask {
        Ask::Git { dir, args, .. } => if is_reading(args) {
            content
        } else if dir != repo || args.len() == 0 {
            Content::Unknown
        } else if args[0] == "fetch"@ || args[0] == "update-ref"@ {
            content
        } else if args == reset_words() {
            Content::Head
        } else if args == seq!["reset"@, "--mixed"@, "--quiet"@, "HEAD"@] {
            content
        } else if args.len() == 4 && args[0] == "read-tree"@ && args[1] == "-u"@ && args[2]
            == "--reset"@ {
            Content::Tree(args[3])
        } else {
            Content::Unknown
        },
        Ask::Write(path, _) => if path == record {
            content
        } else {
            Content::Unknown
        },
        Ask::RemoveFile(path) => if path == record {
            content
        } else {
            Content::Unknown
        },
        _ => if is_change(ask) {
            Content::Unknown
        } else {
            content
        },
    }
}

/// What a worktree holds after the requests with these numbers, all of which went
/// through.
pub open spec fn content_after(repo: Text, record: Text, later: Tape, from: int, to: int) -> Content
    decreases to - from,
{
    if to <= from {
        Content::AsBefore
    } else {
        content_after_one(
            content_after(repo, record, later, from, to - 1),
            repo,
            record,
            later.asks[to - 1],
        )
    }
}

proof fn looks_leave_the_content(repo: Text, record: Text, later: Tape, from: int, to: int)
    requires
        from <= to,
        forall|i: int| from <= i < to ==> !is_change(#[trigger] later.asks[i]),
    ensures
        content_after(repo, record, later, from, to) is AsBefore,
    decreases to - from,
{
    if from < to {
        looks_leave_the_content(repo, record, later, from, to - 1);
        assert(!is_change(later.asks[to - 1]));
    }
}

proof fn words_differ()
    ensures
        "fetch"@ != "update-ref"@,
        "fetch"@ != "reset"@,
        "fetch"@ != "read-tree"@,
        "update-ref"@ != "reset"@,
        "update-ref"@ != "read-tree"@,
        "reset"@ != "read-tree"@,
        "rev-parse"@ != "fetch"@,
        forall|args: Seq<Text>|
            args.len() > 0 && (args[0] == "fetch"@ || args[0] == "update-ref"@ || args[0]
                == "reset"@ || args[0] == "read-tree"@) ==> !#[trigger] is_reading(args),
{
    reveal_strlit("fetch");
    reveal_strlit("update-ref");
    reveal_strlit("reset");
    reveal_strlit("read-tree");
    reveal_strlit("rev-parse");
    reveal_strlit("for-each-ref");
    reveal_strlit("status");
    reveal_strlit("ls-files");
    reveal_strlit("ls-tree");
    reveal_strlit("symbolic-ref");
    reveal_strlit("stash");
    reveal_strlit("hash-object");
    assert("fetch"@.len() == 5 && "fetch"@[0] == 'f');
    assert("update-ref"@.len() == 10);
    assert("reset"@.len() == 5 && "reset"@[0] == 'r');
    assert("read-tree"@.len() == 9 && "read-tree"@[2] == 'a');
    assert("rev-parse"@.len() == 9 && "rev-parse"@[2] == 'v');
    assert("for-each-ref"@.len() == 12);
    assert("status"@.len() == 6);
    assert("ls-files"@.len() == 8);
    assert("ls-tree"@.len() == 7);
    assert("symbolic-ref"@.len() == 12);
    assert("stash"@.len() == 5 && "stash"@[0] == 's');
    assert("hash-object"@.len() == 11);
}

/// An apply that succeeds leaves the worktree as the report said: where its branch
/// was moved it holds the commit that the branch is at now or, where uncommitted work was
/// carried and put back in the sandbox, the tree that the sandbox captured of it; where
/// its branch was not moved it holds what it held.
pub proof fn an_apply_leaves_the_rehearsed_worktree(
    sandbox: SandboxModel,
    now_unix: u64,
    tape: Tape,
    applied: apply::AppliedModel,
    later: Tape,
)
    requires
        is_complete(tape),
        ascending(sandbox.meta.pre_state),
        apply::run_script(sandbox, now_unix, tape) == Run::Gives(applied, later),
    ensures
        content_after(
            sandbox.meta.repo_path,
            applied.undo,
            later,
            tape.next,
            later.next,
        ) == match (applied.reset, captured(sandbox.meta.carry)) {
            (None, _) => Content::AsBefore,
            (Some(_), None) => Content::Head,
            (Some(_), Some(result)) => Content::Tree(result + "^{tree}"@),
        },
        applied.carried is Some ==> captured(sandbox.meta.carry) is Some,
{
    let run = apply::run_script(sandbox, now_unix, tape);
    what_an_apply_does(sandbox, now_unix, tape);
    let sight = choose|sight: ApplySight| is_applied_so(sight, sandbox, now_unix, run, tape);
    let start = tape.next + apply_looks(sight, sandbox, tape, later);
    let repo = sandbox.meta.repo_path;
    let record = record_in(sight.dir);
    let steps = apply_steps(sight, sandbox, now_unix);
    looks_leave_the_content(repo, record, later, tape.next, start);
    words_differ();
    assert forall|i: int| 0 <= i < steps.len() implies later.asks[start + i] == #[trigger] steps[i] by {
        assert(later.asks[start + i] == steps[start + i - start]);
    }
    let first = start + 3;
    assert(later.asks[start] == steps[0]);
    assert(later.asks[start + 1] == steps[1]);
    assert(later.asks[start + 2] == steps[2]);
    assert(content_after(repo, record, later, tape.next, start + 1) is AsBefore);
    assert(content_after(repo, record, later, tape.next, start + 2) is AsBefore);
    assert(content_after(repo, record, later, tape.next, start + 3) is AsBefore);
    assert(steps.len() > 3 ==> later.asks[start + 3] == steps[3]);
    assert(steps.len() > 4 ==> later.asks[start + 4] == steps[4]);
    assert(steps.len() > 5 ==> later.asks[start + 5] == steps[5]);
    assert(steps.len() > 6 ==> later.asks[start + 6] == steps[6]);
    reveal_with_fuel(content_after, 6);
}

/// An undo that succeeds leaves the worktree at the commit that its branch is back at,
/// or as it was where its branch was not moved.
pub proof fn an_undo_leaves_the_earlier_worktree(
    repo: Text,
    id: Option<Text>,
    tape: Tape,
    undone: undo::UndoneModel,
    later: Tape,
)
    requires
        is_complete(tape),
        undo::run_script(repo, id, tape) == Run::Gives(undone, later),
    ensures
        content_after(repo, undone.record, later, tape.next, later.next)
            == if undone.reset is Some {
            Content::Head
        } else {
            Content::AsBefore
        },
{
    let run = undo::run_script(repo, id, tape);
    what_an_undo_does(repo, id, tape);
    let sight = choose|sight: UndoSight| is_undone_so(sight, repo, id, run, tape);
    let start = tape.next + undo_looks(sight);
    let record = record_in(sight.dir);
    let steps = undo_steps(sight, repo);
    looks_leave_the_content(repo, record, later, tape.next, start);
    words_differ();
    assert forall|i: int| 0 <= i < steps.len() implies later.asks[start + i] == #[trigger] steps[i] by {
        assert(later.asks[start + i] == steps[start + i - start]);
    }
    assert(later.asks[start] == steps[0]);
    assert(steps.len() > 1 ==> later.asks[start + 1] == steps[1]);
    assert(steps.len() > 2 ==> later.asks[start + 2] == steps[2]);
    reveal_with_fuel(content_after, 5);
    assert(content_after(repo, record, later, tape.next, later.next) == if undone.reset is Some {
        Content::Head
    } else {
        Content::AsBefore
    });
}

// ---------------------------------------------------------------------------
// The uncommitted work
// ---------------------------------------------------------------------------
/// The arguments that ask git for the paths that are unmerged.
pub open spec fn unmerged_words() -> Seq<Text> {
    seq!["diff"@, "--name-only"@, "--diff-filter=U"@, "-z"@]
}

/// The arguments that put the carried work on the worktree.
pub open spec fn putting_words() -> Seq<Text> {
    seq!["stash"@, "apply"@, "--quiet"@, "refs/rehearse/carried"@]
}

/// Whether the worktree was captured, from request number `i` on: git made a snapshot of
/// it, and where there was anything to make one of, it is kept under the ref that an
/// apply fetches.
pub open spec fn is_captured_so(
    worktree: Text,
    result: Option<Text>,
    tape: Tape,
    later: Tape,
    i: int,
) -> bool {
    match result {
        Some(commit) => {
            &&& commit.len() > 0
            &&& was_told(worktree, snapshot_words(), commit, tape, later, i)
            &&& was_asked(
                git_in(worktree, seq!["update-ref"@, "refs/rehearse/replayed"@, commit]),
                tape,
                later,
                i + 1,
            )
            &&& spoken(later.log[i + 1]) is Some
            &&& later.next == i + 2
        },
        None => {
            &&& was_told(worktree, snapshot_words(), Seq::empty(), tape, later, i)
            &&& later.next == i + 1
        },
    }
}

pub proof fn capturing_is_said(worktree: Text, tape: Tape)
    requires
        is_complete(tape),
    ensures
        continues(left_by(carry::capture_script(worktree, tape)), tape),
        carry::capture_script(worktree, tape) matches Run::Gives(result, later) ==> is_captured_so(
            worktree,
            result,
            tape,
            later,
            tape.next,
        ),
{
    going_on_adds_up();
    requests_are_exchanges();
    reveal(carry::capture_script);
    reveal(continues);
    if let Run::Gives(None, later) = carry::capture_script(worktree, tape) {
        assert(spoken(tape.log[tape.next])->0 =~= Seq::<char>::empty());
    }
}

/// Whether a replay came out as it went: the carried work was put on the sandbox's
/// worktree, and where git did that the result was captured. Where git did not, the
/// paths that it left unmerged are the conflict, and where there are none it refused.
pub open spec fn is_replayed_so(worktree: Text, replay: ReplayModel, tape: Tape, later: Tape) -> bool {
    let first = tape.next;
    &&& was_asked(git_in(worktree, putting_words()), tape, later, first)
    &&& match replay {
        ReplayModel::Restored { result } => spoken(later.log[first]) is Some && is_captured_so(
            worktree,
            result,
            tape,
            later,
            first + 1,
        ),
        ReplayModel::Conflicted { paths } => {
            &&& spoken(later.log[first]) is None
            &&& was_asked(git_in(worktree, unmerged_words()), tape, later, first + 1)
            &&& spoken(later.log[first + 1]) matches Some(listing) && paths == zero_separated(
                listing,
            )
            &&& paths.len() > 0
        },
        ReplayModel::Refused { .. } => {
            &&& spoken(later.log[first]) is None
            &&& was_asked(git_in(worktree, unmerged_words()), tape, later, first + 1)
            &&& spoken(later.log[first + 1]) matches Some(listing) && zero_separated(listing).len()
                == 0
        },
        ReplayModel::NotNeeded => false,
    }
}

/// Putting the carried work back in the sandbox tells what git made of it.
pub proof fn a_replay_says_what_git_made_of_it(
    worktree: Text,
    tape: Tape,
    replay: ReplayModel,
    later: Tape,
)
    requires
        is_complete(tape),
        carry::replay_script(worktree, tape) == Run::Gives(replay, later),
    ensures
        is_replayed_so(worktree, replay, tape, later),
        carry::outcome_of(replay) == match replay {
            ReplayModel::Restored { .. } => execute::Outcome::Clean,
            ReplayModel::Conflicted { .. } => execute::Outcome::Stopped { conflicts: true },
            ReplayModel::Refused { .. } => execute::Outcome::Stopped { conflicts: false },
            ReplayModel::NotNeeded => execute::Outcome::Clean,
        },
{
    going_on_adds_up();
    requests_are_exchanges();
    reveal(carry::replay_script);
    reveal(carry::replay_failed_script);
    reveal(execute::unmerged_script);
    let t1 = further(tape, git_in(worktree, putting_words()));
    assert(putting_words() =~= seq!["stash"@, "apply"@, "--quiet"@, "refs/rehearse/carried"@]);
    if git::run_script(worktree, putting_words(), tape) is Gives {
        capturing_is_said(worktree, t1);
    }
    reveal(continues);
}

/// A rehearsal carries the uncommitted work where there is any: what git's status names
/// is carried, as the snapshot that git made of it, and a worktree without changes
/// carries nothing.
pub proof fn uncommitted_work_is_snapshotted(
    repo: Text,
    tape: Tape,
    carried: Option<CarryModel>,
    later: Tape,
)
    requires
        is_complete(tape),
        carry::snapshot_script(repo, tape) == Run::Gives(carried, later),
    ensures
        was_asked(git_in(repo, status_words()), tape, later, tape.next),
        spoken(later.log[tape.next]) matches Some(status) && {
            let paths = carry::paths_in_lines(lines_of(status));
            match carried {
                Some(carried) => {
                    &&& paths.len() > 0
                    &&& carried.paths == paths
                    &&& carried.replay is None
                    &&& carried.snapshot.len() > 0
                    &&& was_told(
                        repo,
                        snapshot_words(),
                        carried.snapshot,
                        tape,
                        later,
                        tape.next + 1,
                    )
                },
                None => paths.len() == 0,
            }
        },
{
    going_on_adds_up();
    requests_are_exchanges();
    reveal(carry::snapshot_script);
    reveal(continues);
}

/// The snapshot goes to the sandbox, under the ref that is put back there later.
pub proof fn the_snapshot_is_parked_in_the_sandbox(
    repo: Text,
    worktree: Text,
    snapshot: Text,
    tape: Tape,
    later: Tape,
)
    requires
        is_complete(tape),
        carry::park_script(repo, worktree, snapshot, tape) == Run::Gives((), later),
    ensures
        later.next == tape.next + 1,
        later.asks[tape.next] matches Ask::Git { dir, args, .. } && dir == repo && args.len() >= 3
            && args[0] == "push"@ && args[args.len() - 2] == worktree && args.last() == snapshot
            + ":"@ + putting_words()[3],
        spoken(later.log[tape.next]) is Some,
{
    requests_are_exchanges();
    reveal(carry::park_script);
    reveal_strlit(":refs/rehearse/carried");
    reveal_strlit(":");
    reveal_strlit("refs/rehearse/carried");
    assert(":refs/rehearse/carried"@ =~= ":"@ + "refs/rehearse/carried"@);
    assert(snapshot + ":refs/rehearse/carried"@ =~= snapshot + ":"@ + "refs/rehearse/carried"@);
}

proof fn replaying_goes_on(worktree: Text, tape: Tape)
    requires
        is_complete(tape),
    ensures
        continues(left_by(carry::replay_script(worktree, tape)), tape),
        carry::replay_script(worktree, tape) matches Run::Gives(replay, later) ==> later.next
            > tape.next && later.asks[tape.next] == git_in(worktree, putting_words()) && !(
        replay is NotNeeded),
{
    going_on_adds_up();
    requests_are_exchanges();
    reveal(carry::replay_script);
    reveal(carry::replay_failed_script);
    reveal(execute::unmerged_script);
    let t1 = further(tape, git_in(worktree, putting_words()));
    if git::run_script(worktree, putting_words(), tape) is Gives {
        capturing_is_said(worktree, t1);
    }
    if let Run::Gives(replay, later) = carry::replay_script(worktree, tape) {
        assert(continues(later, t1));
        what_was_said_stays(t1, later, tape.next);
    }
}

/// Writing metadata goes on.
pub proof fn writing_meta_goes_on(written: MetaModel, root: Text, tape: Tape)
    requires
        is_complete(tape),
    ensures
        continues(left_by(meta::write_script(written, root, tape)), tape),
{
    going_on_adds_up();
    requests_are_exchanges();
    reveal(meta::write_script);
}

/// Whether the branch that the rehearsal started on is still the one that the sandbox is
/// on, and stands elsewhere than before, as git said from request number `i` on.
pub open spec fn sandbox_moved_the_checkout(
    sandbox: SandboxModel,
    tape: Tape,
    later: Tape,
) -> bool {
    let first = tape.next;
    let worktree = worktree_of(sandbox.root);
    sandbox.meta.checkout matches CheckoutModel::Branch(branch) && {
        let name = "refs/heads/"@ + branch;
        &&& was_told(worktree, branch_words(), branch, tape, later, first)
        &&& was_asked(
            git_in(worktree, seq!["rev-parse"@, "--verify"@, "--quiet"@, name]),
            tape,
            later,
            first + 1,
        )
        &&& lookup(sandbox.meta.pre_state, name) != spoken(later.log[first + 1])
    }
}

/// The carried work is put back in the sandbox exactly where an apply would reset the
/// worktree that it is in, and what came of it is what is recorded and told.
pub proof fn carried_work_is_put_back_where_the_branch_moved(
    sandbox: SandboxModel,
    outcome: execute::Outcome,
    tape: Tape,
    told: execute::Outcome,
    after: SandboxModel,
    later: Tape,
)
    requires
        is_complete(tape),
        outcome == execute::Outcome::Clean,
        sandbox.meta.carry matches Some(carried) && carried.replay is None,
        carry::after_command_script(sandbox, outcome, tape) == Run::Gives((told, after), later),
    ensures
        after.meta.carry matches Some(carried) && {
            &&& carried.snapshot == sandbox.meta.carry->0.snapshot
            &&& carried.paths == sandbox.meta.carry->0.paths
            &&& carried.replay matches Some(replay) && {
                &&& told == match replay {
                    ReplayModel::Restored { .. } => execute::Outcome::Clean,
                    ReplayModel::Conflicted { .. } => execute::Outcome::Stopped { conflicts: true },
                    ReplayModel::Refused { .. } => execute::Outcome::Stopped { conflicts: false },
                    ReplayModel::NotNeeded => execute::Outcome::Clean,
                }
                &&& replay is NotNeeded <==> !sandbox_moved_the_checkout(sandbox, tape, later)
                &&& !(replay is NotNeeded) ==> was_asked(
                    git_in(worktree_of(sandbox.root), putting_words()),
                    tape,
                    later,
                    tape.next + 2,
                )
            }
        },
{
    going_on_adds_up();
    requests_are_exchanges();
    reveal(carry::after_command_script);
    reveal(carry::replay_if_moved_script);
    reveal(carry::settle_script);
    reveal(carry::moves_the_worktree_script);
    let worktree = worktree_of(sandbox.root);
    let meta = sandbox.meta;
    if let Run::Gives(moved, t1) = carry::moves_the_worktree_script(
        worktree,
        meta.checkout,
        meta.pre_state,
        tape,
    ) {
        assert(continues(t1, tape));
        replaying_goes_on(worktree, t1);
        if let Run::Gives(replay, t2) = carry::replay_if_moved_script(sandbox, tape) {
            assert(continues(t2, t1));
            writing_meta_goes_on(with_replay(meta, replay), sandbox.root, t2);
            assert(continues(later, t2));
            reveal(continues);
        }
    }
}

} // verus!
