//! Carrying uncommitted work through a rehearsal.
//!
//! Nobody rehearsing a rebase wants to know only whether the rebase works; they
//! want to know whether it works and whether they get their uncommitted work
//! back. That is answered in the sandbox, in four steps: [`snapshot`] takes a
//! stash commit in the real repository without touching it, [`park`] moves that
//! one commit into the sandbox, the command runs on a clean worktree, and
//! [`replay`] puts the changes back there and captures the result. That result
//! is what apply transplants: nothing is merged for the first time in the real
//! repository.
//!
//! A replay that conflicts is a stopped rehearsal and nothing new.

use vstd::prelude::*;

use crate::compose::{args2, args3, args4, args6, cat2, cat3, cat4};
use crate::error::{Error, Fault};
use crate::execute::{nothing_to_continue, still_unmerged, unmerged, unmerged_script, Outcome};
use crate::git;
use crate::number::{decimal, show};
use crate::parts::{
    after_bytes, join, joined, lines, lines_of, skip_bytes, trim, trimmed,
};
use crate::refs::{lookup, Entries};
use crate::sandbox::meta::write_script;
use crate::sandbox::{
    with_replay, worktree_of, Checkout, CheckoutModel, Meta, MetaModel, Sandbox, SandboxModel,
};
use crate::session::{caught, ran, ran_with, Run, Session, Stop, Tape};
use crate::text::{copy_text, copy_texts, put, same, same_text, Text};

verus! {

/// The uncommitted work a rehearsal carries, and what became of it.
#[derive(Debug, PartialEq, Eq)]
pub struct Carry {
    /// The `git stash create` commit taken in the real repository.
    pub snapshot: String,
    /// The tracked paths that were dirty, as `git status` named them.
    pub paths: Vec<String>,
    /// What happened when the changes were put back in the sandbox. `None` until
    /// the rehearsed command has finished.
    pub replay: Option<Replay>,
}

/// The model of a [`Carry`].
pub struct CarryModel {
    pub snapshot: Text,
    pub paths: Seq<Text>,
    pub replay: Option<ReplayModel>,
}

impl DeepView for Carry {
    type V = CarryModel;

    open spec fn deep_view(&self) -> CarryModel {
        CarryModel {
            snapshot: self.snapshot@,
            paths: self.paths.deep_view(),
            replay: self.replay.deep_view(),
        }
    }
}

/// The result of replaying the carried work in the sandbox.
#[derive(Debug, PartialEq, Eq)]
pub enum Replay {
    /// The changes went back on cleanly.
    Restored {
        /// The commit capturing the sandbox worktree afterwards: the tree apply
        /// checks out. Absent when there was nothing left to capture, which
        /// means the rehearsed history already contains the changes.
        result: Option<String>,
    },
    /// The changes conflict with the rehearsed history.
    Conflicted {
        /// The unmerged paths in the sandbox.
        paths: Vec<String>,
    },
    /// The replay could not be attempted at all, in git's own words.
    Refused {
        /// Why, as git said it.
        reason: String,
    },
    /// There was nothing to replay onto: this rehearsal does not move the user's
    /// worktree, so the changes simply stay where they are.
    NotNeeded,
}

/// The model of a [`Replay`].
pub enum ReplayModel {
    Restored { result: Option<Text> },
    Conflicted { paths: Seq<Text> },
    Refused { reason: Text },
    NotNeeded,
}

impl DeepView for Replay {
    type V = ReplayModel;

    open spec fn deep_view(&self) -> ReplayModel {
        match self {
            Replay::Restored { result } => ReplayModel::Restored { result: result.deep_view() },
            Replay::Conflicted { paths } => ReplayModel::Conflicted { paths: paths.deep_view() },
            Replay::Refused { reason } => ReplayModel::Refused { reason: reason@ },
            Replay::NotNeeded => ReplayModel::NotNeeded,
        }
    }
}

/// The rehearsal outcome that a replay implies.
pub open spec fn outcome_of(replay: ReplayModel) -> Outcome {
    match replay {
        ReplayModel::Restored { .. } => Outcome::Clean,
        ReplayModel::NotNeeded => Outcome::Clean,
        ReplayModel::Conflicted { .. } => Outcome::Stopped { conflicts: true },
        ReplayModel::Refused { .. } => Outcome::Stopped { conflicts: false },
    }
}

/// Whether a rehearsal waits on its replay.
pub open spec fn unfinished(replay: ReplayModel) -> bool {
    replay is Conflicted || replay is Refused
}

impl Replay {
    /// The rehearsal outcome this replay implies. The command had already
    /// finished cleanly to get here, so this is the whole rehearsal's outcome.
    pub fn outcome(&self) -> (outcome: Outcome)
        ensures
            outcome == outcome_of(self.deep_view()),
    {
        match self {
            Replay::Restored { .. } => Outcome::Clean,
            Replay::NotNeeded => Outcome::Clean,
            Replay::Conflicted { .. } => Outcome::Stopped { conflicts: true },
            Replay::Refused { .. } => Outcome::Stopped { conflicts: false },
        }
    }

    /// Whether the rehearsal is waiting on this replay rather than on the
    /// command: the case `continue` finishes rather than resumes.
    pub fn is_unfinished(&self) -> (yes: bool)
        ensures
            yes == unfinished(self.deep_view()),
    {
        match self {
            Replay::Conflicted { .. } => true,
            Replay::Refused { .. } => true,
            _ => false,
        }
    }

    /// An equal replay.
    pub fn copy(&self) -> (replay: Replay)
        ensures
            replay.deep_view() == self.deep_view(),
    {
        match self {
            Replay::Restored { result } => Replay::Restored { result: copy_text(result) },
            Replay::Conflicted { paths } => Replay::Conflicted { paths: copy_texts(paths) },
            Replay::Refused { reason } => Replay::Refused { reason: reason.clone() },
            Replay::NotNeeded => Replay::NotNeeded,
        }
    }
}

/// Whether the report promised anything about the worktree that apply is about
/// to reset: only a replay that ran and came back clean does.
pub open spec fn promises(carry: CarryModel) -> bool {
    carry.replay is Some && carry.replay->0 is Restored
}

impl Carry {
    /// Whether the report promised anything about the worktree apply is about to
    /// reset.
    pub fn promises_the_worktree(&self) -> (yes: bool)
        ensures
            yes == promises(self.deep_view()),
    {
        match &self.replay {
            Some(Replay::Restored { .. }) => true,
            _ => false,
        }
    }

    /// An equal carry.
    pub fn copy(&self) -> (carry: Carry)
        ensures
            carry.deep_view() == self.deep_view(),
    {
        Carry {
            snapshot: self.snapshot.clone(),
            paths: copy_texts(&self.paths),
            replay: match &self.replay {
                Some(replay) => Some(replay.copy()),
                None => None,
            },
        }
    }
}

/// Whether a rehearsal stopped on its replay and not on its command.
pub open spec fn waits_on_replay(meta: MetaModel) -> bool {
    meta.carry is Some && meta.carry->0.replay is Some && unfinished(meta.carry->0.replay->0)
}

/// Whether this rehearsal stopped on the replay rather than on the command.
pub fn stopped_on_replay(meta: &Meta) -> (yes: bool)
    ensures
        yes == waits_on_replay(meta.deep_view()),
{
    match &meta.carry {
        Some(carry) => match &carry.replay {
            Some(replay) => replay.is_unfinished(),
            None => false,
        },
        None => false,
    }
}

// ---------------------------------------------------------------------------
// Words
// ---------------------------------------------------------------------------
/// The paths of the lines of a status, behind its two columns and their space.
pub open spec fn paths_in_lines(lines: Seq<Text>) -> Seq<Text>
    decreases lines.len(),
{
    if lines.len() == 0 {
        Seq::empty()
    } else {
        match after_bytes(lines.last(), 3) {
            Some(path) => paths_in_lines(lines.drop_last()).push(path),
            None => paths_in_lines(lines.drop_last()),
        }
    }
}

/// The paths in `git status --porcelain` output.
pub fn paths_of(status: &str) -> (paths: Vec<String>)
    ensures
        paths.deep_view() == paths_in_lines(lines_of(status@)),
{
    let found = lines(status);
    let ghost all = found.deep_view();
    let mut paths: Vec<String> = Vec::new();
    let mut i: usize = 0;
    assert(all.take(0) =~= Seq::empty());
    assert(paths.deep_view() =~= Seq::empty());
    while i < found.len()
        invariant
            i <= found@.len(),
            all == found.deep_view(),
            paths.deep_view() == paths_in_lines(all.take(i as int)),
        decreases found@.len() - i,
    {
        assert(all.take(i + 1).drop_last() =~= all.take(i as int));
        assert(all.take(i + 1).last() == found[i as int]@);
        if let Some(path) = skip_bytes(&found[i], 3) {
            put(&mut paths, path);
        }
        i = i + 1;
    }
    assert(all.take(all.len() as int) =~= all);
    paths
}

/// A few paths by name, and how many more there are.
pub open spec fn described(paths: Seq<Text>) -> Text {
    if paths.len() <= 3 {
        joined(paths, ", "@)
    } else {
        joined(paths.take(3), ", "@) + " and "@ + decimal((paths.len() - 3) as nat) + " more"@
    }
}

/// Names a few paths and counts the rest.
pub fn describe(paths: &Vec<String>) -> (text: String)
    ensures
        text@ == described(paths.deep_view()),
{
    let len = paths.len();
    if len <= 3 {
        return join(paths, ", ");
    }
    let named = args3(&paths[0], &paths[1], &paths[2]);
    assert(named.deep_view() =~= paths.deep_view().take(3));
    cat4(&join(&named, ", "), " and ", &show((len - 3) as u64), " more")
}

/// The first of the lines that holds anything.
pub open spec fn first_filled(lines: Seq<Text>) -> Text
    decreases lines.len(),
{
    if lines.len() == 0 {
        "git said nothing"@
    } else if trimmed(lines[0]).len() > 0 {
        trimmed(lines[0])
    } else {
        first_filled(lines.drop_first())
    }
}

/// Git's first line of complaint, which is the one worth repeating.
pub fn first_line(stderr: &str) -> (line: String)
    ensures
        line@ == first_filled(lines_of(stderr@)),
{
    let found = lines(stderr);
    let ghost all = found.deep_view();
    let mut i: usize = 0;
    assert(all.skip(0) =~= all);
    while i < found.len()
        invariant
            i <= found@.len(),
            all == found.deep_view(),
            all == lines_of(stderr@),
            first_filled(all) == first_filled(all.skip(i as int)),
        decreases found@.len() - i,
    {
        assert(all.skip(i as int).drop_first() =~= all.skip(i + 1));
        assert(all.skip(i as int)[0] == found[i as int]@);
        let line = trim(&found[i]);
        if !line.as_str().is_empty() {
            return line;
        }
        i = i + 1;
    }
    "git said nothing".to_owned()
}

/// The refspec that brings the replay's result into the real repository: a
/// sibling of the rehearsal's own namespace, which no branch can collide with.
pub fn result_refspec(id: &str) -> (refspec: String)
    ensures
        refspec@ == "+refs/rehearse/replayed:refs/rehearse/"@ + id@ + "-carry"@,
{
    cat3("+refs/rehearse/replayed:refs/rehearse/", id, "-carry")
}

/// The commit that apply has to check out: that of a replay which came back
/// clean with something to put back.
pub open spec fn result_in(carry: CarryModel) -> Option<Text> {
    match carry.replay {
        Some(ReplayModel::Restored { result }) => result,
        _ => None,
    }
}

/// The commit apply has to check out, if this rehearsal has one.
pub fn result_of(carry: &Carry) -> (result: Option<&str>)
    ensures
        result.deep_view() == result_in(carry.deep_view()),
{
    match &carry.replay {
        Some(Replay::Restored { result: Some(result) }) => Some(result.as_str()),
        _ => None,
    }
}

// ---------------------------------------------------------------------------
// Taking the work along
// ---------------------------------------------------------------------------
pub open spec fn status_args() -> Seq<Text> {
    seq!["status"@, "--porcelain"@, "--untracked-files=no"@]
}

pub open spec fn not_snapshotted(paths: Seq<Text>) -> Fault {
    Fault::Refused(
        "your worktree has changes ("@ + described(paths)
            + ") that git will not snapshot.\nCommit or stash them and rehearse again."@,
    )
}

/// What it means that git will not make a snapshot.
pub open spec fn snapshot_failed(fault: Fault) -> Fault {
    match fault {
        Fault::Git { stderr, .. } => Fault::Refused(
            "your uncommitted changes cannot be snapshotted: "@ + first_filled(lines_of(stderr))
                + "\nFinish or abort whatever is in progress, or commit them, and rehearse again."@,
        ),
        _ => fault,
    }
}

/// Snapshots the uncommitted work, if there is any, without touching it.
#[verifier::opaque]
pub open spec fn snapshot_script(repo: Text, tape: Tape) -> Run<Option<CarryModel>> {
    git::run_script(repo, status_args(), tape).and_then(|status: Text, tape: Tape| {
        let paths = paths_in_lines(lines_of(status));
        if paths.len() == 0 {
            Run::Gives(None, tape)
        } else {
            git::run_script(repo, seq!["stash"@, "create"@], tape).either(
                |snapshot: Text, tape: Tape|
                    if snapshot.len() == 0 {
                        Run::Fails(not_snapshotted(paths), tape)
                    } else {
                        Run::Gives(Some(CarryModel { snapshot, paths, replay: None }), tape)
                    },
                |fault: Fault, tape: Tape| Run::Fails(snapshot_failed(fault), tape),
            )
        }
    })
}

/// Snapshots the uncommitted work in `repo`, if there is any.
pub fn snapshot(session: &mut Session, repo: &str) -> (outcome: Result<Option<Carry>, Stop>)
    ensures
        ran(outcome, final(session)@) == snapshot_script(repo@, old(session)@),
{
    proof {
        reveal(snapshot_script);
    }
    let status = git::run(session, repo, args3("status", "--porcelain", "--untracked-files=no"))?;
    let paths = paths_of(&status);
    if paths.len() == 0 {
        return Ok(None);
    }
    match caught(git::run(session, repo, args2("stash", "create")))? {
        Ok(snapshot) => {
            if snapshot.as_str().is_empty() {
                return Err(
                    Stop::Fail(
                        Error::Refused(
                            cat3(
                                "your worktree has changes (",
                                &describe(&paths),
                                ") that git will not snapshot.\nCommit or stash them and rehearse again.",
                            ),
                        ),
                    ),
                );
            }
            Ok(Some(Carry { snapshot, paths, replay: None }))
        },
        Err(Error::Git { args, code, stderr }) => Err(
            Stop::Fail(
                Error::Refused(
                    cat3(
                        "your uncommitted changes cannot be snapshotted: ",
                        &first_line(&stderr),
                        "\nFinish or abort whatever is in progress, or commit them, and rehearse again.",
                    ),
                ),
            ),
        ),
        Err(error) => Err(Stop::Fail(error)),
    }
}

/// Moves the snapshot into the sandbox and parks it under a ref: exactly that
/// one commit, and without the user's hooks.
#[verifier::opaque]
pub open spec fn park_script(
    repo: Text,
    worktree: Text,
    snapshot: Text,
    tape: Tape,
) -> Run<()> {
    git::run_script(
        repo,
        seq![
            "push"@,
            "--quiet"@,
            "--no-verify"@,
            "--no-follow-tags"@,
            worktree,
            snapshot + ":refs/rehearse/carried"@,
        ],
        tape,
    ).and_then(|output: Text, tape: Tape| Run::Gives((), tape))
}

/// Moves the snapshot into the sandbox and parks it under a ref.
pub fn park(session: &mut Session, repo: &str, worktree: &str, carry: &Carry) -> (outcome: Result<
    (),
    Stop,
>)
    ensures
        ran(outcome, final(session)@) == park_script(
            repo@,
            worktree@,
            carry.deep_view().snapshot,
            old(session)@,
        ),
{
    proof {
        reveal(park_script);
    }
    git::run(
        session,
        repo,
        args6(
            "push",
            "--quiet",
            "--no-verify",
            "--no-follow-tags",
            worktree,
            &cat2(&carry.snapshot, ":refs/rehearse/carried"),
        ),
    )?;
    Ok(())
}

// ---------------------------------------------------------------------------
// Putting it back in the sandbox
// ---------------------------------------------------------------------------
/// Captures the sandbox worktree as a commit, parked so that nothing collects
/// it; none where there is nothing to capture.
#[verifier::opaque]
pub open spec fn capture_script(worktree: Text, tape: Tape) -> Run<Option<Text>> {
    git::run_script(worktree, seq!["stash"@, "create"@], tape).and_then(|commit: Text, tape: Tape|
    if commit.len() == 0 {
        Run::Gives(None, tape)
    } else {
        git::run_script(
            worktree,
            seq!["update-ref"@, "refs/rehearse/replayed"@, commit],
            tape,
        ).and_then(|parked: Text, tape: Tape| Run::Gives(Some(commit), tape))
    })
}

fn capture(session: &mut Session, worktree: &str) -> (outcome: Result<Option<String>, Stop>)
    ensures
        ran(outcome, final(session)@) == capture_script(worktree@, old(session)@),
{
    proof {
        reveal(capture_script);
    }
    let commit = git::run(session, worktree, args2("stash", "create"))?;
    if commit.as_str().is_empty() {
        return Ok(None);
    }
    git::run(session, worktree, args3("update-ref", "refs/rehearse/replayed", &commit))?;
    Ok(Some(commit))
}

/// The replay that a failed `git stash apply` amounts to: one that conflicts
/// where paths are unmerged, and one that was refused where none are.
#[verifier::opaque]
pub open spec fn replay_failed_script(
    worktree: Text,
    stderr: Text,
    tape: Tape,
) -> Run<ReplayModel> {
    unmerged_script(worktree, tape).and_then(|paths: Seq<Text>, tape: Tape|
        Run::Gives(
            if paths.len() == 0 {
                ReplayModel::Refused { reason: first_filled(lines_of(stderr)) }
            } else {
                ReplayModel::Conflicted { paths }
            },
            tape,
        ))
}

/// Puts the carried work back in the sandbox, after the command has run.
#[verifier::opaque]
pub open spec fn replay_script(worktree: Text, tape: Tape) -> Run<ReplayModel> {
    git::run_script(
        worktree,
        seq!["stash"@, "apply"@, "--quiet"@, "refs/rehearse/carried"@],
        tape,
    ).either(
        |output: Text, tape: Tape|
            capture_script(worktree, tape).and_then(
                |result: Option<Text>, tape: Tape|
                    Run::Gives(ReplayModel::Restored { result }, tape),
            ),
        |fault: Fault, tape: Tape|
            match fault {
                Fault::Git { stderr, .. } => replay_failed_script(worktree, stderr, tape),
                _ => Run::Fails(fault, tape),
            },
    )
}

fn replay_failed(session: &mut Session, worktree: &str, stderr: &str) -> (outcome: Result<
    Replay,
    Stop,
>)
    ensures
        ran(outcome, final(session)@) == replay_failed_script(
            worktree@,
            stderr@,
            old(session)@,
        ),
{
    proof {
        reveal(replay_failed_script);
    }
    let paths = unmerged(session, worktree)?;
    if paths.len() == 0 {
        Ok(Replay::Refused { reason: first_line(stderr) })
    } else {
        Ok(Replay::Conflicted { paths })
    }
}

/// Puts the carried work back in the sandbox, after the command has run.
pub fn replay(session: &mut Session, worktree: &str) -> (outcome: Result<Replay, Stop>)
    ensures
        ran(outcome, final(session)@) == replay_script(worktree@, old(session)@),
{
    proof {
        reveal(replay_script);
    }
    match caught(
        git::run(
            session,
            worktree,
            args4("stash", "apply", "--quiet", "refs/rehearse/carried"),
        ),
    )? {
        Ok(_) => {
            let result = capture(session, worktree)?;
            Ok(Replay::Restored { result })
        },
        Err(Error::Git { args, code, stderr }) => replay_failed(session, worktree, &stderr),
        Err(error) => Err(Stop::Fail(error)),
    }
}

/// Whether applying would reset the worktree that the carried work is in: the
/// rehearsal started on a branch, the sandbox still is on it, and the branch has
/// moved. What cannot be read counts as not moved.
#[verifier::opaque]
pub open spec fn moves_the_worktree_script(
    worktree: Text,
    checkout: CheckoutModel,
    pre_state: Entries,
    tape: Tape,
) -> Run<bool> {
    match checkout {
        CheckoutModel::Detached(_) => Run::Gives(false, tape),
        CheckoutModel::Branch(branch) => git::run_script(
            worktree,
            seq!["symbolic-ref"@, "--quiet"@, "--short"@, "HEAD"@],
            tape,
        ).either(
            |on: Text, tape: Tape| Run::Gives(on == branch, tape),
            |fault: Fault, tape: Tape| Run::Gives(false, tape),
        ).and_then(|there: bool, tape: Tape|
        if !there {
            Run::Gives(false, tape)
        } else {
            git::run_script(
                worktree,
                seq!["rev-parse"@, "--verify"@, "--quiet"@, "refs/heads/"@ + branch],
                tape,
            ).either(
                |now: Text, tape: Tape|
                    Run::Gives(lookup(pre_state, "refs/heads/"@ + branch) != Some(now), tape),
                |fault: Fault, tape: Tape|
                    Run::Gives(lookup(pre_state, "refs/heads/"@ + branch) is Some, tape),
            )
        }),
    }
}

fn moves_the_worktree(session: &mut Session, worktree: &str, meta: &Meta) -> (outcome: Result<
    bool,
    Stop,
>)
    ensures
        ran(outcome, final(session)@) == moves_the_worktree_script(
            worktree@,
            meta.deep_view().checkout,
            meta.deep_view().pre_state,
            old(session)@,
        ),
{
    proof {
        reveal(moves_the_worktree_script);
    }
    let branch = match &meta.checkout {
        Checkout::Branch(branch) => branch,
        Checkout::Detached(_) => return Ok(false),
    };
    let there = match caught(
        git::run(session, worktree, args4("symbolic-ref", "--quiet", "--short", "HEAD")),
    )? {
        Ok(on) => same(&on, branch),
        Err(_) => false,
    };
    if !there {
        return Ok(false);
    }
    let name = cat2("refs/heads/", branch);
    match caught(
        git::run(session, worktree, args4("rev-parse", "--verify", "--quiet", &name)),
    )? {
        Ok(now) => Ok(!same_text(&meta.pre_state.get(&name), &Some(now))),
        Err(_) => Ok(meta.pre_state.get(&name).is_some()),
    }
}

/// Replays the carried work where that has a point.
#[verifier::opaque]
pub open spec fn replay_if_moved_script(sandbox: SandboxModel, tape: Tape) -> Run<ReplayModel> {
    let worktree = worktree_of(sandbox.root);
    moves_the_worktree_script(
        worktree,
        sandbox.meta.checkout,
        sandbox.meta.pre_state,
        tape,
    ).and_then(|moved: bool, tape: Tape|
    if moved {
        replay_script(worktree, tape)
    } else {
        Run::Gives(ReplayModel::NotNeeded, tape)
    })
}

/// Records a replay and gives the outcome that it implies.
#[verifier::opaque]
pub open spec fn settle_script(sandbox: SandboxModel, replay: ReplayModel, tape: Tape) -> Run<
    (Outcome, SandboxModel),
> {
    let meta = with_replay(sandbox.meta, replay);
    write_script(meta, sandbox.root, tape).and_then(
        |written: (), tape: Tape|
            Run::Gives((outcome_of(replay), SandboxModel { meta, ..sandbox }), tape),
    )
}

/// Turns the outcome of the command into the one that describes both halves: a
/// command that did not finish, a rehearsal that carries nothing and one that
/// was replayed already stay as they are.
#[verifier::opaque]
pub open spec fn after_command_script(sandbox: SandboxModel, outcome: Outcome, tape: Tape) -> Run<
    (Outcome, SandboxModel),
> {
    if outcome != Outcome::Clean || sandbox.meta.carry is None
        || sandbox.meta.carry->0.replay is Some {
        Run::Gives((outcome, sandbox), tape)
    } else {
        replay_if_moved_script(sandbox, tape).and_then(
            |replay: ReplayModel, tape: Tape| settle_script(sandbox, replay, tape),
        )
    }
}

fn replay_if_moved(session: &mut Session, sandbox: &Sandbox) -> (outcome: Result<Replay, Stop>)
    ensures
        ran(outcome, final(session)@) == replay_if_moved_script(
            sandbox.deep_view(),
            old(session)@,
        ),
{
    proof {
        reveal(replay_if_moved_script);
    }
    let worktree = sandbox.worktree();
    if moves_the_worktree(session, &worktree, &sandbox.meta)? {
        replay(session, &worktree)
    } else {
        Ok(Replay::NotNeeded)
    }
}

fn settle(session: &mut Session, sandbox: &mut Sandbox, replay: Replay) -> (result: Result<
    Outcome,
    Stop,
>)
    ensures
        ran_with(result, final(sandbox).deep_view(), final(session)@) == settle_script(
            old(sandbox).deep_view(),
            replay.deep_view(),
            old(session)@,
        ),
{
    proof {
        reveal(settle_script);
    }
    let outcome = replay.outcome();
    sandbox.record_replay(session, replay)?;
    Ok(outcome)
}

/// Records the replay, and turns the rehearsal's outcome into the one that
/// describes both halves of it.
pub fn after_command(session: &mut Session, sandbox: &mut Sandbox, outcome: Outcome) -> (result:
    Result<Outcome, Stop>)
    ensures
        ran_with(result, final(sandbox).deep_view(), final(session)@) == after_command_script(
            old(sandbox).deep_view(),
            outcome,
            old(session)@,
        ),
{
    proof {
        reveal(after_command_script);
    }
    if outcome != Outcome::Clean {
        return Ok(outcome);
    }
    match &sandbox.meta.carry {
        None => return Ok(outcome),
        Some(carry) => if carry.replay.is_some() {
            return Ok(outcome);
        },
    }
    let replay = replay_if_moved(session, sandbox)?;
    settle(session, sandbox, replay)
}

/// The replay that takes the place of one that waits: a conflict that was
/// resolved is captured as it is, and a replay that was refused is tried again.
#[verifier::opaque]
pub open spec fn finish_replay_script(sandbox: SandboxModel, tape: Tape) -> Run<ReplayModel> {
    let worktree = worktree_of(sandbox.root);
    match sandbox.meta.carry {
        Some(CarryModel { replay: Some(ReplayModel::Conflicted { .. }), .. }) => unmerged_script(
            worktree,
            tape,
        ).and_then(|paths: Seq<Text>, tape: Tape|
        if paths.len() > 0 {
            Run::Fails(Fault::Refused(still_unmerged(paths)), tape)
        } else {
            capture_script(worktree, tape).and_then(
                |result: Option<Text>, tape: Tape|
                    Run::Gives(ReplayModel::Restored { result }, tape),
            )
        }),
        Some(CarryModel { replay: Some(ReplayModel::Refused { .. }), .. }) => replay_script(
            worktree,
            tape,
        ),
        _ => Run::Fails(Fault::Refused(nothing_to_continue()), tape),
    }
}

/// Carries on a rehearsal that stopped on its replay.
#[verifier::opaque]
pub open spec fn resume_script(sandbox: SandboxModel, tape: Tape) -> Run<
    (Outcome, SandboxModel),
> {
    finish_replay_script(sandbox, tape).and_then(
        |replay: ReplayModel, tape: Tape| settle_script(sandbox, replay, tape),
    )
}

fn finish_replay(session: &mut Session, sandbox: &Sandbox) -> (outcome: Result<Replay, Stop>)
    ensures
        ran(outcome, final(session)@) == finish_replay_script(sandbox.deep_view(), old(session)@),
{
    proof {
        reveal(finish_replay_script);
    }
    let worktree = sandbox.worktree();
    if let Some(carry) = &sandbox.meta.carry {
        match &carry.replay {
            Some(Replay::Conflicted { .. }) => {
                let paths = unmerged(session, &worktree)?;
                if paths.len() > 0 {
                    return Err(
                        Stop::Fail(
                            Error::Refused(
                                cat4(
                                    &show(paths.len() as u64),
                                    " path(s) are still unmerged in the sandbox:\n  ",
                                    &join(&paths, "\n  "),
                                    "\nResolve them and `git add` them there, then continue.",
                                ),
                            ),
                        ),
                    );
                }
                let result = capture(session, &worktree)?;
                return Ok(Replay::Restored { result });
            },
            Some(Replay::Refused { .. }) => return replay(session, &worktree),
            _ => {},
        }
    }
    Err(
        Stop::Fail(
            Error::Refused(
                "this rehearsal has nothing in progress — there is nothing to continue.\n`git rehearse show` prints the report again; `apply` transplants it.".to_owned(),
            ),
        ),
    )
}

/// Carries on a rehearsal that stopped on its replay.
pub fn resume(session: &mut Session, sandbox: &mut Sandbox) -> (result: Result<Outcome, Stop>)
    ensures
        ran_with(result, final(sandbox).deep_view(), final(session)@) == resume_script(
            old(sandbox).deep_view(),
            old(session)@,
        ),
{
    proof {
        reveal(resume_script);
    }
    let replay = finish_replay(session, sandbox)?;
    settle(session, sandbox, replay)
}

// ---------------------------------------------------------------------------
// Putting it back in the real repository
// ---------------------------------------------------------------------------
/// A stash commit's two trees: the worktree it captured, and the index where it
/// has one.
#[verifier::opaque]
pub open spec fn trees_of_script(repo: Text, commit: Text, tape: Tape) -> Run<
    (Text, Option<Text>),
> {
    git::run_script(repo, seq!["rev-parse"@, commit + "^{tree}"@], tape).and_then(
        |worktree: Text, tape: Tape|
            git::run_script(repo, seq!["rev-parse"@, commit + "^2^{tree}"@], tape).either(
                |index: Text, tape: Tape| Run::Gives((worktree, Some(index)), tape),
                |fault: Fault, tape: Tape| Run::Gives((worktree, None), tape),
            ),
    )
}

fn trees_of(session: &mut Session, repo: &str, commit: &str) -> (outcome: Result<
    (String, Option<String>),
    Stop,
>)
    ensures
        ran(outcome, final(session)@) == trees_of_script(repo@, commit@, old(session)@),
{
    proof {
        reveal(trees_of_script);
    }
    let worktree = git::run(session, repo, args2("rev-parse", &cat2(commit, "^{tree}")))?;
    match caught(git::run(session, repo, args2("rev-parse", &cat2(commit, "^2^{tree}"))))? {
        Ok(index) => Ok((worktree, Some(index))),
        Err(_) => Ok((worktree, None)),
    }
}

pub open spec fn changes_gone(id: Text) -> Fault {
    Fault::Refused(
        "the uncommitted changes rehearsal "@ + id
            + " carried are no longer in your worktree.\nApplying would put them back — rehearse again from where you are now."@,
    )
}

pub open spec fn changes_differ(id: Text) -> Fault {
    Fault::Refused(
        "your uncommitted changes are not the ones rehearsal "@ + id
            + " carried.\nWhat the report promised to put back was rehearsed; what is in your worktree now was not. Rehearse again."@,
    )
}

/// Refuses unless the worktree still holds exactly the changes that were
/// carried, by the trees of worktree and index.
#[verifier::opaque]
pub open spec fn check_unchanged_script(
    repo: Text,
    snapshot: Text,
    id: Text,
    tape: Tape,
) -> Run<()> {
    git::run_script(repo, seq!["stash"@, "create"@], tape).and_then(|now: Text, tape: Tape|
    if now.len() == 0 {
        Run::Fails(changes_gone(id), tape)
    } else {
        trees_of_script(repo, now, tape).and_then(|is: (Text, Option<Text>), tape: Tape|
        trees_of_script(repo, snapshot, tape).and_then(|was: (Text, Option<Text>), tape: Tape|
            if is == was {
                Run::Gives((), tape)
            } else {
                Run::Fails(changes_differ(id), tape)
            }))
    })
}

/// Refuses unless the worktree still holds exactly the changes that were
/// carried.
pub fn check_unchanged(session: &mut Session, repo: &str, carry: &Carry, id: &str) -> (outcome:
    Result<(), Stop>)
    ensures
        ran(outcome, final(session)@) == check_unchanged_script(
            repo@,
            carry.deep_view().snapshot,
            id@,
            old(session)@,
        ),
{
    proof {
        reveal(check_unchanged_script);
    }
    let now = git::run(session, repo, args2("stash", "create"))?;
    if now.as_str().is_empty() {
        return Err(
            Stop::Fail(
                Error::Refused(
                    cat3(
                        "the uncommitted changes rehearsal ",
                        id,
                        " carried are no longer in your worktree.\nApplying would put them back — rehearse again from where you are now.",
                    ),
                ),
            ),
        );
    }
    let is = trees_of(session, repo, &now)?;
    let was = trees_of(session, repo, &carry.snapshot)?;
    if same(&is.0, &was.0) && same_text(&is.1, &was.1) {
        Ok(())
    } else {
        Err(
            Stop::Fail(
                Error::Refused(
                    cat3(
                        "your uncommitted changes are not the ones rehearsal ",
                        id,
                        " carried.\nWhat the report promised to put back was rehearsed; what is in your worktree now was not. Rehearse again.",
                    ),
                ),
            ),
        )
    }
}

/// Checks the rehearsed result out over the worktree, and puts the index back to
/// `HEAD`, so that the changes come back unstaged.
#[verifier::opaque]
pub open spec fn restore_script(repo: Text, result: Text, tape: Tape) -> Run<()> {
    git::run_script(
        repo,
        seq!["read-tree"@, "-u"@, "--reset"@, result + "^{tree}"@],
        tape,
    ).and_then(|output: Text, tape: Tape|
    git::run_script(repo, seq!["reset"@, "--mixed"@, "--quiet"@, "HEAD"@], tape).and_then(
        |output: Text, tape: Tape| Run::Gives((), tape)))
}

/// Puts the rehearsed result into the worktree, after the reset. There is
/// nothing here that can conflict: the tree was produced in the sandbox, and
/// this checks it out.
pub fn restore(session: &mut Session, repo: &str, result: &str) -> (outcome: Result<(), Stop>)
    ensures
        ran(outcome, final(session)@) == restore_script(repo@, result@, old(session)@),
{
    proof {
        reveal(restore_script);
    }
    git::run(
        session,
        repo,
        args4("read-tree", "-u", "--reset", &cat2(result, "^{tree}")),
    )?;
    git::run(session, repo, args4("reset", "--mixed", "--quiet", "HEAD"))?;
    Ok(())
}

/// Checks a snapshot out over the worktree, and puts the index back to the one
/// that the snapshot recorded.
#[verifier::opaque]
pub open spec fn restore_snapshot_script(repo: Text, snapshot: Text, tape: Tape) -> Run<()> {
    git::run_script(
        repo,
        seq!["read-tree"@, "-u"@, "--reset"@, snapshot + "^{tree}"@],
        tape,
    ).and_then(|output: Text, tape: Tape|
    git::run_script(
        repo,
        seq!["read-tree"@, "--reset"@, snapshot + "^2^{tree}"@],
        tape,
    ).and_then(|output: Text, tape: Tape| Run::Gives((), tape)))
}

/// Puts a snapshot back as it was taken: the worktree it captured, and the index
/// beside it.
pub fn restore_snapshot(session: &mut Session, repo: &str, snapshot: &str) -> (outcome: Result<
    (),
    Stop,
>)
    ensures
        ran(outcome, final(session)@) == restore_snapshot_script(
            repo@,
            snapshot@,
            old(session)@,
        ),
{
    proof {
        reveal(restore_snapshot_script);
    }
    git::run(
        session,
        repo,
        args4("read-tree", "-u", "--reset", &cat2(snapshot, "^{tree}")),
    )?;
    git::run(session, repo, args3("read-tree", "--reset", &cat2(snapshot, "^2^{tree}")))?;
    Ok(())
}

} // verus!
