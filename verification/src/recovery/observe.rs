//! What the real repository says about a recorded operation.
//!
//! Recovery always compares the refs and the worktree with the journal before it
//! chooses an action.

use vstd::prelude::*;

use crate::analyze::{RefMove, RefMoveModel};
use crate::collision;
use crate::compose::{cat2, cat3, cat4, cat5};
use crate::error::{Error, Fault};
use crate::git;
use crate::number::{decimal, show};
use crate::paths::{display, displayed, from_text, inside, join_path, path_named};
use crate::recovery::compare::{
    git_dir, git_dir_script, optional, result_matches_script, succeeds, when_ok,
    worktree_at, worktree_at_script, worktree_result_matches,
};
use crate::recovery::journal::{
    bytes_view, operation_name, Journal, JournalModel, Operation, JOURNAL_SCHEMA,
};
use crate::recovery::state::{
    classified, classify, phase_words, state_name, Endpoint, EndpointMatches, Observed, Phase,
    State,
};
use crate::files::{read_bytes, read_bytes_script};
use crate::refs::{lookup, Entries, RefMap};
use crate::session::{
    ran, Heard, HeardModel, Reason, Run, Session, Stop, Tape,
};
use crate::text::{copy_text, same, same_text, Text};
use crate::undo::{current_branch, current_branch_script, find_move, move_of, UNDO_FILE};

verus! {

/// What recovery reports of a recorded operation.
#[derive(Debug)]
pub struct Inspection {
    pub operation: Operation,
    pub rehearsal: String,
    pub origin: String,
    pub phase: Phase,
    pub state: State,
    pub can_complete: bool,
    pub can_rollback: bool,
    pub journal: String,
}

/// The model of an [`Inspection`].
pub struct InspectionModel {
    pub operation: Operation,
    pub rehearsal: Text,
    pub origin: Text,
    pub phase: Phase,
    pub state: State,
    pub can_complete: bool,
    pub can_rollback: bool,
    pub journal: Text,
}

impl DeepView for Inspection {
    type V = InspectionModel;

    open spec fn deep_view(&self) -> InspectionModel {
        InspectionModel {
            operation: self.operation,
            rehearsal: self.rehearsal@,
            origin: self.origin@,
            phase: self.phase,
            state: self.state,
            can_complete: self.can_complete,
            can_rollback: self.can_rollback,
            journal: self.journal@,
        }
    }
}

pub open spec fn blocked_of(inspection: InspectionModel) -> Fault {
    Fault::Refused(
        operation_name(inspection.operation) + " recovery is required for rehearsal "@
            + inspection.rehearsal + ": observed "@ + state_name(inspection.state)
            + " after journal phase "@ + phase_words(inspection.phase)
            + ". No repository mutation is allowed until it is resolved. Use `git rehearse recover --complete "@
            + inspection.rehearsal + "` or `git rehearse recover --rollback "@
            + inspection.rehearsal
            + "`; if the state is ambiguous, preserve the work and resolve it by hand."@,
    )
}

/// The refusal that sends the user to recovery.
pub fn blocked(inspection: &Inspection) -> (error: Error)
    ensures
        error.deep_view() == blocked_of(inspection.deep_view()),
{
    let seen = cat5(
        inspection.operation.name(),
        " recovery is required for rehearsal ",
        &inspection.rehearsal,
        ": observed ",
        inspection.state.name(),
    );
    let phase = cat3(&seen, " after journal phase ", inspection.phase.words());
    let complete = cat3(
        &phase,
        ". No repository mutation is allowed until it is resolved. Use `git rehearse recover --complete ",
        &inspection.rehearsal,
    );
    Error::Refused(
        cat4(
            &complete,
            "` or `git rehearse recover --rollback ",
            &inspection.rehearsal,
            "`; if the state is ambiguous, preserve the work and resolve it by hand.",
        ),
    )
}

// ---------------------------------------------------------------------------
// Refs and checkout
// ---------------------------------------------------------------------------
/// Where a move puts its ref at an endpoint.
pub open spec fn side_at(moved: RefMoveModel, endpoint: Endpoint) -> Option<Text> {
    match endpoint {
        Endpoint::Before => moved.before,
        Endpoint::After => moved.after,
    }
}

/// Whether every recorded ref is at an endpoint.
pub open spec fn refs_are_at(refs: Entries, moves: Seq<RefMoveModel>, endpoint: Endpoint) -> bool {
    forall|i: int|
        0 <= i < moves.len() ==> lookup(refs, (#[trigger] moves[i]).name) == side_at(
            moves[i],
            endpoint,
        )
}

/// Whether every recorded ref is at an endpoint.
pub fn refs_match(refs: &RefMap, moves: &Vec<RefMove>, endpoint: Endpoint) -> (yes: bool)
    ensures
        yes == refs_are_at(refs.deep_view(), moves.deep_view(), endpoint),
{
    let ghost all = moves.deep_view();
    let mut i: usize = 0;
    while i < moves.len()
        invariant
            i <= moves@.len(),
            all == moves.deep_view(),
            forall|j: int|
                0 <= j < i ==> lookup(refs.deep_view(), (#[trigger] all[j]).name) == side_at(
                    all[j],
                    endpoint,
                ),
        decreases moves@.len() - i,
    {
        assert(all[i as int] == moves[i as int].deep_view());
        let now = refs.get(&moves[i].name);
        let expected = match endpoint {
            Endpoint::Before => &moves[i].before,
            Endpoint::After => &moves[i].after,
        };
        if !same_text(&now, expected) {
            assert(lookup(refs.deep_view(), all[i as int].name) != side_at(
                all[i as int],
                endpoint,
            ));
            return false;
        }
        i = i + 1;
    }
    true
}

/// Where the operation puts a branch, if it moves it.
pub open spec fn after_of(journal: JournalModel, branch: Text) -> Option<Text> {
    match move_of(journal.refs, "refs/heads/"@ + branch) {
        Some(moved) => moved.after,
        None => None,
    }
}

/// Where the operation found a branch, if it moves it.
pub open spec fn before_of(journal: JournalModel, branch: Text) -> Option<Text> {
    match move_of(journal.refs, "refs/heads/"@ + branch) {
        Some(moved) => moved.before,
        None => None,
    }
}

fn branch_after(journal: &Journal, branch: &str) -> (commit: Option<String>)
    ensures
        commit.deep_view() == after_of(journal.deep_view(), branch@),
{
    match find_move(&journal.refs, &cat2("refs/heads/", branch)) {
        Some(moved) => copy_text(&moved.after),
        None => None,
    }
}

fn branch_before(journal: &Journal, branch: &str) -> (commit: Option<String>)
    ensures
        commit.deep_view() == before_of(journal.deep_view(), branch@),
{
    match find_move(&journal.refs, &cat2("refs/heads/", branch)) {
        Some(moved) => copy_text(&moved.before),
        None => None,
    }
}

/// How a checkout is called.
pub open spec fn called(current: Option<Text>) -> Text {
    match current {
        Some(branch) => branch,
        None => "detached HEAD"@,
    }
}

pub open spec fn other_checkout(expected: Text, current: Text) -> Fault {
    Fault::Refused(
        "apply recovery is blocked: the operation belongs to branch "@ + expected
            + ", but this worktree is on "@ + current
            + ". Switch back before recovering; no mutation was performed."@,
    )
}

/// Refuses unless a branch is checked out.
#[verifier::opaque]
pub open spec fn ensure_checkout_script(repo: Text, expected: Text, tape: Tape) -> Run<()> {
    current_branch_script(repo, tape).and_then(|current: Option<Text>, tape: Tape|
        if called(current) == expected {
            Run::Gives((), tape)
        } else {
            Run::Fails(other_checkout(expected, called(current)), tape)
        })
}

/// Refuses unless a branch is checked out.
pub fn ensure_checkout(session: &mut Session, repo: &str, expected: &str) -> (outcome: Result<
    (),
    Stop,
>)
    ensures
        ran(outcome, final(session)@) == ensure_checkout_script(repo@, expected@, old(session)@),
{
    proof {
        reveal(ensure_checkout_script);
    }
    let current = match current_branch(session, repo)? {
        Some(branch) => branch,
        None => "detached HEAD".to_owned(),
    };
    if same(&current, expected) {
        return Ok(());
    }
    Err(
        Stop::Fail(
            Error::Refused(
                cat5(
                    "apply recovery is blocked: the operation belongs to branch ",
                    expected,
                    ", but this worktree is on ",
                    &current,
                    ". Switch back before recovering; no mutation was performed.",
                ),
            ),
        ),
    )
}

pub open spec fn checkout_would_move(branch: Text) -> Fault {
    Fault::Refused(
        "apply recovery is blocked: the current checkout branch "@ + branch
            + " is one of the refs this operation would restore. Switch to the original checkout or detach HEAD; no recovery action was performed."@,
    )
}

/// Refuses where the operation would move the branch that is checked out.
#[verifier::opaque]
pub open spec fn ensure_not_moved_script(repo: Text, journal: JournalModel, tape: Tape) -> Run<()> {
    current_branch_script(repo, tape).and_then(|current: Option<Text>, tape: Tape|
        match current {
            Some(branch) => if move_of(journal.refs, "refs/heads/"@ + branch) is Some {
                Run::Fails(checkout_would_move(branch), tape)
            } else {
                Run::Gives((), tape)
            },
            None => Run::Gives((), tape),
        })
}

/// Refuses where the operation would move the branch that is checked out.
pub fn ensure_checkout_not_moved(session: &mut Session, repo: &str, journal: &Journal) -> (outcome:
    Result<(), Stop>)
    ensures
        ran(outcome, final(session)@) == ensure_not_moved_script(
            repo@,
            journal.deep_view(),
            old(session)@,
        ),
{
    proof {
        reveal(ensure_not_moved_script);
    }
    if let Some(branch) = current_branch(session, repo)? {
        if find_move(&journal.refs, &cat2("refs/heads/", &branch)).is_some() {
            return Err(
                Stop::Fail(
                    Error::Refused(
                        cat3(
                            "apply recovery is blocked: the current checkout branch ",
                            &branch,
                            " is one of the refs this operation would restore. Switch to the original checkout or detach HEAD; no recovery action was performed.",
                        ),
                    ),
                ),
            );
        }
    }
    Ok(())
}

// ---------------------------------------------------------------------------
// The worktree
// ---------------------------------------------------------------------------
/// What index and worktree are compared with.
pub enum Wanted {
    /// The worktree of a commit, and the index of another.
    Result(Text, Option<Text>),
    /// Index and worktree of one commit.
    At(Option<Text>),
}

/// What index and worktree are at an endpoint of an operation on a branch.
pub open spec fn wanted_at(journal: JournalModel, branch: Text, endpoint: Endpoint) -> Wanted {
    let snapshot = match endpoint {
        Endpoint::Before => journal.local_before,
        Endpoint::After => if journal.local_before is Some {
            journal.worktree_after
        } else {
            None
        },
    };
    match snapshot {
        Some(snapshot) => Wanted::Result(snapshot, Some(snapshot + "^2"@)),
        None => match endpoint {
            Endpoint::After => match journal.worktree_after {
                Some(result) => Wanted::Result(result, after_of(journal, branch)),
                None => Wanted::At(after_of(journal, branch)),
            },
            Endpoint::Before => Wanted::At(Some(journal.worktree_before)),
        },
    }
}

/// Whether index and worktree are at a commit that may be there.
#[verifier::opaque]
pub open spec fn some_at_script(repo: Text, commit: Option<Text>, tape: Tape) -> Run<bool> {
    match commit {
        Some(commit) => worktree_at_script(repo, commit, tape),
        None => Run::Gives(false, tape),
    }
}

fn some_at(session: &mut Session, repo: &str, commit: &Option<String>) -> (outcome: Result<
    bool,
    Stop,
>)
    ensures
        ran(outcome, final(session)@) == some_at_script(repo@, commit.deep_view(), old(session)@),
{
    proof {
        reveal(some_at_script);
    }
    match commit {
        Some(commit) => worktree_at(session, repo, commit),
        None => Ok(false),
    }
}

pub open spec fn wanted_script(repo: Text, wanted: Wanted, tape: Tape) -> Run<bool> {
    match wanted {
        Wanted::Result(expected, head) => result_matches_script(repo, expected, head, tape),
        Wanted::At(commit) => some_at_script(repo, commit, tape),
    }
}

/// Whether checkout, index and worktree are at an endpoint of an operation. One
/// that moves no checkout says nothing about them.
#[verifier::opaque]
pub open spec fn worktree_matches_script(
    repo: Text,
    journal: JournalModel,
    endpoint: Endpoint,
    tape: Tape,
) -> Run<bool> {
    match journal.checkout {
        None => Run::Gives(true, tape),
        Some(branch) => current_branch_script(repo, tape).and_then(
            |current: Option<Text>, tape: Tape|
                if current == Some(branch) {
                    wanted_script(repo, wanted_at(journal, branch, endpoint), tape)
                } else {
                    Run::Gives(false, tape)
                },
        ),
    }
}

/// Whether checkout, index and worktree are at an endpoint of an operation.
pub fn worktree_matches_journal(
    session: &mut Session,
    repo: &str,
    journal: &Journal,
    endpoint: Endpoint,
) -> (outcome: Result<bool, Stop>)
    ensures
        ran(outcome, final(session)@) == worktree_matches_script(
            repo@,
            journal.deep_view(),
            endpoint,
            old(session)@,
        ),
{
    proof {
        reveal(worktree_matches_script);
        reveal(some_at_script);
    }
    let branch = match &journal.checkout {
        None => return Ok(true),
        Some(branch) => branch,
    };
    let at_branch = match current_branch(session, repo)? {
        Some(current) => same(&current, branch),
        None => false,
    };
    if !at_branch {
        return Ok(false);
    }
    let snapshot = match endpoint {
        Endpoint::Before => copy_text(&journal.local_before),
        Endpoint::After => if journal.local_before.is_some() {
            copy_text(&journal.worktree_after)
        } else {
            None
        },
    };
    if let Some(snapshot) = snapshot {
        let head = Some(cat2(&snapshot, "^2"));
        return worktree_result_matches(session, repo, &snapshot, &head);
    }
    match endpoint {
        Endpoint::After => {
            let after = branch_after(journal, branch);
            match &journal.worktree_after {
                Some(result) => worktree_result_matches(session, repo, result, &after),
                None => some_at(session, repo, &after),
            }
        },
        Endpoint::Before => worktree_at(session, repo, &journal.worktree_before),
    }
}

/// Whether the worktree can be between two checkouts in this phase.
pub open spec fn may_be_in_transit(journal: JournalModel) -> bool {
    journal.local_before is Some && (journal.phase == Phase::Prepared || journal.phase
        == Phase::RefsApplied || journal.phase == Phase::RollingBack)
}

/// Whether the worktree is between the checkouts of an operation that started
/// with uncommitted work: exactly at one of the commits on its way.
#[verifier::opaque]
pub open spec fn in_transit_script(repo: Text, journal: JournalModel, tape: Tape) -> Run<bool> {
    match journal.checkout {
        Some(branch) if may_be_in_transit(journal) => succeeds(
            ensure_checkout_script(repo, branch, tape),
        ).and_then(|here: bool, tape: Tape|
        if !here {
            Run::Gives(false, tape)
        } else {
            some_at_script(repo, after_of(journal, branch), tape).and_then(
                |reset: bool, tape: Tape|
                    if reset {
                        Run::Gives(true, tape)
                    } else {
                        some_at_script(repo, journal.worktree_after, tape).and_then(
                            |restored: bool, tape: Tape|
                                if restored {
                                    Run::Gives(true, tape)
                                } else if journal.phase == Phase::RollingBack {
                                    some_at_script(repo, journal.local_before, tape)
                                } else {
                                    Run::Gives(false, tape)
                                },
                        )
                    },
            )
        }),
        _ => Run::Gives(false, tape),
    }
}

/// Whether the worktree is between the checkouts of an operation that started
/// with uncommitted work.
pub fn worktree_in_transit(session: &mut Session, repo: &str, journal: &Journal) -> (outcome: Result<
    bool,
    Stop,
>)
    ensures
        ran(outcome, final(session)@) == in_transit_script(
            repo@,
            journal.deep_view(),
            old(session)@,
        ),
{
    proof {
        reveal(in_transit_script);
    }
    let possible = journal.local_before.is_some() && (journal.phase == Phase::Prepared
        || journal.phase == Phase::RefsApplied || journal.phase == Phase::RollingBack);
    if !possible {
        return Ok(false);
    }
    let branch = match &journal.checkout {
        None => return Ok(false),
        Some(branch) => branch,
    };
    if when_ok(ensure_checkout(session, repo, branch))?.is_none() {
        return Ok(false);
    }
    if some_at(session, repo, &branch_after(journal, branch))? {
        return Ok(true);
    }
    if some_at(session, repo, &journal.worktree_after)? {
        return Ok(true);
    }
    if journal.phase == Phase::RollingBack {
        return some_at(session, repo, &journal.local_before);
    }
    Ok(false)
}

pub open spec fn worktree_changed() -> Fault {
    Fault::Refused(
        "apply recovery is blocked: the worktree or index changed while interrupted; preserve the external work before recovering"@,
    )
}

/// Refuses a worktree that is neither at an endpoint nor on the way.
#[verifier::opaque]
pub open spec fn ensure_known_script(repo: Text, journal: JournalModel, tape: Tape) -> Run<()> {
    worktree_matches_script(repo, journal, Endpoint::Before, tape).and_then(
        |before: bool, tape: Tape|
            if before {
                Run::Gives((), tape)
            } else {
                worktree_matches_script(repo, journal, Endpoint::After, tape).and_then(
                    |after: bool, tape: Tape|
                        if after {
                            Run::Gives((), tape)
                        } else {
                            in_transit_script(repo, journal, tape).and_then(
                                |between: bool, tape: Tape|
                                    if between {
                                        Run::Gives((), tape)
                                    } else {
                                        Run::Fails(worktree_changed(), tape)
                                    },
                            )
                        },
                )
            },
    )
}

/// Refuses a worktree that is neither at an endpoint nor on the way.
pub fn ensure_known_worktree(session: &mut Session, repo: &str, journal: &Journal) -> (outcome:
    Result<(), Stop>)
    ensures
        ran(outcome, final(session)@) == ensure_known_script(
            repo@,
            journal.deep_view(),
            old(session)@,
        ),
{
    proof {
        reveal(ensure_known_script);
    }
    if worktree_matches_journal(session, repo, journal, Endpoint::Before)? {
        return Ok(());
    }
    if worktree_matches_journal(session, repo, journal, Endpoint::After)? {
        return Ok(());
    }
    if worktree_in_transit(session, repo, journal)? {
        return Ok(());
    }
    Err(
        Stop::Fail(
            Error::Refused(
                "apply recovery is blocked: the worktree or index changed while interrupted; preserve the external work before recovering".to_owned(),
            ),
        ),
    )
}

// ---------------------------------------------------------------------------
// What recovery may do
// ---------------------------------------------------------------------------
pub open spec fn no_ref_to_restore(branch: Text) -> Fault {
    Fault::Refused(
        "apply recovery is blocked: the original checkout branch "@ + branch
            + " did not have a recorded ref to restore; no recovery action was performed."@,
    )
}

pub open spec fn no_checkout_to_restore() -> Fault {
    Fault::Refused("rollback has no recorded checkout to restore"@)
}

/// Refuses a rollback over a worktree that it would damage.
#[verifier::opaque]
pub open spec fn ensure_rollback_script(repo: Text, journal: JournalModel, tape: Tape) -> Run<()> {
    worktree_matches_script(repo, journal, Endpoint::Before, tape).and_then(
        |before: bool, tape: Tape|
            if before {
                Run::Gives((), tape)
            } else {
                ensure_known_script(repo, journal, tape).and_then(|known: (), tape: Tape|
                    match (journal.local_before, journal.checkout) {
                        (Some(snapshot), _) => collision::check_operation_script(
                            repo,
                            repo,
                            snapshot,
                            collision::Operation::Restore,
                            tape,
                        ),
                        (None, None) => Run::Fails(no_checkout_to_restore(), tape),
                        (None, Some(branch)) => match before_of(journal, branch) {
                            None => Run::Fails(no_ref_to_restore(branch), tape),
                            Some(target) => collision::check_operation_script(
                                repo,
                                repo,
                                target,
                                collision::Operation::Reset,
                                tape,
                            ),
                        },
                    })
            },
    )
}

/// Refuses a rollback over a worktree that it would damage.
pub fn ensure_rollback_worktree(session: &mut Session, repo: &str, journal: &Journal) -> (outcome:
    Result<(), Stop>)
    ensures
        ran(outcome, final(session)@) == ensure_rollback_script(
            repo@,
            journal.deep_view(),
            old(session)@,
        ),
{
    proof {
        reveal(ensure_rollback_script);
    }
    if worktree_matches_journal(session, repo, journal, Endpoint::Before)? {
        return Ok(());
    }
    ensure_known_worktree(session, repo, journal)?;
    if let Some(snapshot) = &journal.local_before {
        return collision::check_restore(session, repo, repo, snapshot);
    }
    match &journal.checkout {
        None => Err(
            Stop::Fail(
                Error::Refused("rollback has no recorded checkout to restore".to_owned()),
            ),
        ),
        Some(branch) => match branch_before(journal, branch) {
            None => Err(
                Stop::Fail(
                    Error::Refused(
                        cat3(
                            "apply recovery is blocked: the original checkout branch ",
                            branch,
                            " did not have a recorded ref to restore; no recovery action was performed.",
                        ),
                    ),
                ),
            ),
            Some(target) => collision::check_reset(session, repo, repo, &target),
        },
    }
}

/// Whether finishing the operation would damage nothing in the worktree.
#[verifier::opaque]
pub open spec fn completion_safe_script(repo: Text, journal: JournalModel, tape: Tape) -> Run<bool> {
    match journal.checkout {
        None => Run::Gives(true, tape),
        Some(branch) => succeeds(ensure_known_script(repo, journal, tape)).and_then(
            |known: bool, tape: Tape|
                if !known {
                    Run::Gives(false, tape)
                } else {
                    succeeds(
                        collision::check_operation_script(
                            repo,
                            repo,
                            "refs/heads/"@ + branch,
                            collision::Operation::Reset,
                            tape,
                        ),
                    ).and_then(|free: bool, tape: Tape|
                        match journal.worktree_after {
                            Some(result) if free => succeeds(
                                collision::check_operation_script(
                                    repo,
                                    repo,
                                    result,
                                    collision::Operation::Restore,
                                    tape,
                                ),
                            ),
                            _ => Run::Gives(free, tape),
                        })
                },
        ),
    }
}

fn completion_safe(session: &mut Session, repo: &str, journal: &Journal) -> (outcome: Result<
    bool,
    Stop,
>)
    ensures
        ran(outcome, final(session)@) == completion_safe_script(
            repo@,
            journal.deep_view(),
            old(session)@,
        ),
{
    proof {
        reveal(completion_safe_script);
    }
    let branch = match &journal.checkout {
        None => return Ok(true),
        Some(branch) => branch,
    };
    if when_ok(ensure_known_worktree(session, repo, journal))?.is_none() {
        return Ok(false);
    }
    let target = cat2("refs/heads/", branch);
    if when_ok(collision::check_reset(session, repo, repo, &target))?.is_none() {
        return Ok(false);
    }
    match &journal.worktree_after {
        Some(result) => Ok(
            when_ok(collision::check_restore(session, repo, repo, result))?.is_some(),
        ),
        None => Ok(true),
    }
}

/// Whether a rollback would damage nothing in the worktree.
#[verifier::opaque]
pub open spec fn rollback_safe_script(
    repo: Text,
    journal: JournalModel,
    state: State,
    tape: Tape,
) -> Run<bool> {
    match journal.checkout {
        None => if state == State::BeforeRefChange {
            Run::Gives(true, tape)
        } else {
            succeeds(ensure_not_moved_script(repo, journal, tape))
        },
        Some(branch) => succeeds(ensure_checkout_script(repo, branch, tape)).and_then(
            |here: bool, tape: Tape|
                if !here {
                    Run::Gives(false, tape)
                } else {
                    succeeds(ensure_rollback_script(repo, journal, tape))
                },
        ),
    }
}

fn rollback_safe(session: &mut Session, repo: &str, journal: &Journal, state: State) -> (outcome:
    Result<bool, Stop>)
    ensures
        ran(outcome, final(session)@) == rollback_safe_script(
            repo@,
            journal.deep_view(),
            state,
            old(session)@,
        ),
{
    proof {
        reveal(rollback_safe_script);
    }
    let branch = match &journal.checkout {
        None => {
            if state == State::BeforeRefChange {
                return Ok(true);
            }
            return Ok(when_ok(ensure_checkout_not_moved(session, repo, journal))?.is_some());
        },
        Some(branch) => branch,
    };
    if when_ok(ensure_checkout(session, repo, branch))?.is_none() {
        return Ok(false);
    }
    Ok(when_ok(ensure_rollback_worktree(session, repo, journal))?.is_some())
}

// ---------------------------------------------------------------------------
// The undo record
// ---------------------------------------------------------------------------
/// The undo record of a repository, where there is one.
#[verifier::opaque]
pub open spec fn read_undo_script(repo: Text, tape: Tape) -> Run<Option<Seq<u8>>> {
    git_dir_script(repo, tape).and_then(|dir: Text, tape: Tape|
    read_bytes_script(inside(dir, UNDO_FILE@), tape).and_then(
        |found: HeardModel<Seq<u8>>, tape: Tape|
            match found {
                HeardModel::Got(bytes) => Run::Gives(Some(bytes), tape),
                HeardModel::Trouble(trouble) => if trouble.reason == Reason::Missing {
                    Run::Gives(None, tape)
                } else {
                    Run::Fails(Fault::Io(inside(dir, UNDO_FILE@), trouble.message), tape)
                },
            }))
}

/// The undo record of a repository, where there is one.
pub fn read_undo(session: &mut Session, repo: &str) -> (outcome: Result<Option<Vec<u8>>, Stop>)
    ensures
        ran(outcome, final(session)@) == read_undo_script(repo@, old(session)@),
{
    proof {
        reveal(read_undo_script);
    }
    let dir = git_dir(session, repo)?;
    let path = join_path(&dir, UNDO_FILE);
    match read_bytes(session, &path)? {
        Heard::Got(bytes) => Ok(Some(bytes)),
        Heard::Trouble(trouble) => if trouble.reason == Reason::Missing {
            Ok(None)
        } else {
            Err(Stop::Fail(Error::Io(path, trouble.message)))
        },
    }
}

/// Whether the undo record is one that the operation left in this state.
pub open spec fn undo_fits(journal: JournalModel, state: State, current: Option<Seq<u8>>) -> bool {
    if state == State::RollingBack {
        current == journal.rollback_undo || current == journal.previous_undo
    } else {
        match journal.operation {
            Operation::Apply => current == journal.expected_undo || ((state
                == State::BeforeRefChange || (journal.phase == Phase::Prepared
                && journal.refs.len() == 0)) && current == journal.previous_undo),
            Operation::Undo => current == journal.previous_undo || (state == State::Complete
                && current is None),
        }
    }
}

fn same_some(left: &Option<Vec<u8>>, right: &Option<Vec<u8>>) -> (equal: bool)
    ensures
        equal == (bytes_view(*left) == bytes_view(*right)),
{
    match (left, right) {
        (Some(left), Some(right)) => collision::same_bytes(left, right),
        (None, None) => true,
        _ => false,
    }
}

/// Whether the undo record is one that the operation left in this state.
pub fn undo_matches_snapshot(journal: &Journal, state: State, current: &Option<Vec<u8>>) -> (yes:
    bool)
    ensures
        yes == undo_fits(journal.deep_view(), state, bytes_view(*current)),
{
    if state == State::RollingBack {
        return same_some(current, &journal.rollback_undo) || same_some(
            current,
            &journal.previous_undo,
        );
    }
    match journal.operation {
        Operation::Apply => same_some(current, &journal.expected_undo) || ((state
            == State::BeforeRefChange || (journal.phase == Phase::Prepared && journal.refs.len()
            == 0)) && same_some(current, &journal.previous_undo)),
        Operation::Undo => same_some(current, &journal.previous_undo) || (state == State::Complete
            && current.is_none()),
    }
}

/// Whether the undo record is one that the operation left in this state.
#[verifier::opaque]
pub open spec fn undo_matches_script(
    repo: Text,
    journal: JournalModel,
    state: State,
    tape: Tape,
) -> Run<bool> {
    read_undo_script(repo, tape).and_then(|current: Option<Seq<u8>>, tape: Tape|
        Run::Gives(undo_fits(journal, state, current), tape))
}

/// Whether the undo record is one that the operation left in this state.
pub fn undo_matches(session: &mut Session, repo: &str, journal: &Journal, state: State) -> (outcome:
    Result<bool, Stop>)
    ensures
        ran(outcome, final(session)@) == undo_matches_script(
            repo@,
            journal.deep_view(),
            state,
            old(session)@,
        ),
{
    proof {
        reveal(undo_matches_script);
    }
    let current = read_undo(session, repo)?;
    assert(current.deep_view() == bytes_view(current)) by {
        if let Some(bytes) = current {
            assert(bytes.deep_view() =~= bytes@);
        }
    }
    Ok(undo_matches_snapshot(journal, state, &current))
}

// ---------------------------------------------------------------------------
// All of it
// ---------------------------------------------------------------------------
pub open spec fn unknown_schema(path: Text, schema: u32) -> Fault {
    Fault::Refused(
        displayed(path) + " uses apply journal schema "@ + decimal(schema as nat)
            + ", this build understands 1; recovery is blocked so the journal will not be overwritten"@,
    )
}

pub open spec fn origin_unavailable() -> Fault {
    Fault::Refused("apply journal origin is unavailable; recovery is blocked"@)
}

pub open spec fn other_repository() -> Fault {
    Fault::Refused("apply journal belongs to another repository; recovery is blocked"@)
}

pub open spec fn inconsistent_anchor() -> Fault {
    Fault::Refused("apply journal has an inconsistent recovery anchor; recovery is blocked"@)
}

/// The anchor that an operation has.
pub open spec fn expected_anchor(journal: JournalModel) -> Text {
    match journal.operation {
        Operation::Apply => "refs/rehearse/"@ + journal.rehearsal + "/"@,
        Operation::Undo => Seq::empty(),
    }
}

/// Refuses a journal that is not one of this repository.
#[verifier::opaque]
pub open spec fn belongs_script(repo: Text, journal: JournalModel, path: Text, tape: Tape) -> Run<()> {
    if journal.schema != JOURNAL_SCHEMA {
        Run::Fails(unknown_schema(path, journal.schema), tape)
    } else {
        optional(git::canonicalize_script(path_named(journal.origin), tape)).and_then(
            |origin: Option<Text>, tape: Tape|
                match origin {
                    None => Run::Fails(origin_unavailable(), tape),
                    Some(origin) => git::canonicalize_script(repo, tape).and_then(
                        |here: Text, tape: Tape|
                            if origin != here {
                                Run::Fails(other_repository(), tape)
                            } else if journal.anchor != expected_anchor(journal) {
                                Run::Fails(inconsistent_anchor(), tape)
                            } else {
                                Run::Gives((), tape)
                            },
                    ),
                },
        )
    }
}

fn check_journal(session: &mut Session, repo: &str, journal: &Journal, path: &str) -> (outcome: Result<
    (),
    Stop,
>)
    ensures
        ran(outcome, final(session)@) == belongs_script(
            repo@,
            journal.deep_view(),
            path@,
            old(session)@,
        ),
{
    proof {
        reveal(belongs_script);
    }
    if journal.schema != JOURNAL_SCHEMA {
        return Err(
            Stop::Fail(
                Error::Refused(
                    cat4(
                        &display(path),
                        " uses apply journal schema ",
                        &show(journal.schema as u64),
                        ", this build understands 1; recovery is blocked so the journal will not be overwritten",
                    ),
                ),
            ),
        );
    }
    let origin = match when_ok(git::canonicalize(session, &from_text(&journal.origin)))? {
        None => {
            return Err(
                Stop::Fail(
                    Error::Refused(
                        "apply journal origin is unavailable; recovery is blocked".to_owned(),
                    ),
                ),
            );
        },
        Some(origin) => origin,
    };
    let here = git::canonicalize(session, repo)?;
    if !same(&origin, &here) {
        return Err(
            Stop::Fail(
                Error::Refused(
                    "apply journal belongs to another repository; recovery is blocked".to_owned(),
                ),
            ),
        );
    }
    let anchor = match journal.operation {
        Operation::Apply => cat3("refs/rehearse/", &journal.rehearsal, "/"),
        Operation::Undo => String::new(),
    };
    assert(anchor@ =~= expected_anchor(journal.deep_view()));
    if !same(&journal.anchor, &anchor) {
        return Err(
            Stop::Fail(
                Error::Refused(
                    "apply journal has an inconsistent recovery anchor; recovery is blocked".to_owned(),
                ),
            ),
        );
    }
    Ok(())
}

/// The branches of a repository.
#[verifier::opaque]
pub open spec fn state_of_script(repo: Text, tape: Tape) -> Run<Entries> {
    git::refs_script(repo, "refs/heads/"@, 0, tape)
}

/// The branches of a repository.
pub fn state_of(session: &mut Session, repo: &str) -> (outcome: Result<RefMap, Stop>)
    ensures
        ran(outcome, final(session)@) == state_of_script(repo@, old(session)@),
{
    proof {
        reveal(state_of_script);
    }
    git::refs(session, repo, "refs/heads/", 0)
}

/// Which endpoints refs and worktree are at.
#[verifier::opaque]
pub open spec fn observe_script(repo: Text, journal: JournalModel, tape: Tape) -> Run<State> {
    state_of_script(repo, tape).and_then(|refs: Entries, tape: Tape|
    worktree_matches_script(repo, journal, Endpoint::After, tape).and_then(
        |after: bool, tape: Tape|
    worktree_matches_script(repo, journal, Endpoint::Before, tape).and_then(
        |unmoved: bool, tape: Tape|
    (if unmoved {
        Run::Gives(true, tape)
    } else {
        in_transit_script(repo, journal, tape)
    }).and_then(|before: bool, tape: Tape|
        Run::Gives(
            classified(
                journal.phase,
                Observed {
                    refs: EndpointMatches {
                        before: refs_are_at(refs, journal.refs, Endpoint::Before),
                        after: refs_are_at(refs, journal.refs, Endpoint::After),
                    },
                    worktree: EndpointMatches { before, after },
                },
            ),
            tape,
        )))))
}

fn observe(session: &mut Session, repo: &str, journal: &Journal) -> (outcome: Result<State, Stop>)
    ensures
        ran(outcome, final(session)@) == observe_script(repo@, journal.deep_view(), old(session)@),
{
    proof {
        reveal(observe_script);
    }
    let refs = state_of(session, repo)?;
    let after = worktree_matches_journal(session, repo, journal, Endpoint::After)?;
    let unmoved = worktree_matches_journal(session, repo, journal, Endpoint::Before)?;
    let before = if unmoved {
        true
    } else {
        worktree_in_transit(session, repo, journal)?
    };
    Ok(
        classify(
            journal.phase,
            Observed {
                refs: EndpointMatches {
                    before: refs_match(&refs, &journal.refs, Endpoint::Before),
                    after: refs_match(&refs, &journal.refs, Endpoint::After),
                },
                worktree: EndpointMatches { before, after },
            },
        ),
    )
}

/// Whether a rollback from this state can be proved safe at all.
pub open spec fn may_roll_back(journal: JournalModel, state: State) -> bool {
    state != State::Ambiguous && (journal.worktree_after is None || journal.local_before is Some)
}

/// What the repository says about a recorded operation, and what recovery may do
/// about it.
#[verifier::opaque]
pub open spec fn inspect_script(
    repo: Text,
    journal: JournalModel,
    path: Text,
    tape: Tape,
) -> Run<InspectionModel> {
    belongs_script(repo, journal, path, tape).and_then(|belongs: (), tape: Tape|
    observe_script(repo, journal, tape).and_then(|observed: State, tape: Tape|
    undo_matches_script(repo, journal, observed, tape).and_then(|fits: bool, tape: Tape|
        {
            let state = if fits {
                observed
            } else {
                State::Ambiguous
            };
            (if state == State::AfterRefChange {
                completion_safe_script(repo, journal, tape)
            } else {
                Run::Gives(false, tape)
            }).and_then(|can_complete: bool, tape: Tape|
            (if may_roll_back(journal, state) {
                rollback_safe_script(repo, journal, state, tape)
            } else {
                Run::Gives(false, tape)
            }).and_then(|can_rollback: bool, tape: Tape|
                Run::Gives(
                    InspectionModel {
                        operation: journal.operation,
                        rehearsal: journal.rehearsal,
                        origin: journal.origin,
                        phase: journal.phase,
                        state,
                        can_complete,
                        can_rollback,
                        journal: displayed(path),
                    },
                    tape,
                )))
        })))
}

/// What the repository says about a recorded operation, and what recovery may do
/// about it.
pub fn inspect_journal(session: &mut Session, repo: &str, journal: &Journal, path: &str) -> (outcome:
    Result<Inspection, Stop>)
    ensures
        ran(outcome, final(session)@) == inspect_script(
            repo@,
            journal.deep_view(),
            path@,
            old(session)@,
        ),
{
    proof {
        reveal(inspect_script);
    }
    check_journal(session, repo, journal, path)?;
    let observed = observe(session, repo, journal)?;
    let state = if undo_matches(session, repo, journal, observed)? {
        observed
    } else {
        State::Ambiguous
    };
    let can_complete = if state == State::AfterRefChange {
        completion_safe(session, repo, journal)?
    } else {
        false
    };
    let possible = state != State::Ambiguous && (journal.worktree_after.is_none()
        || journal.local_before.is_some());
    let can_rollback = if possible {
        rollback_safe(session, repo, journal, state)?
    } else {
        false
    };
    Ok(
        Inspection {
            operation: journal.operation,
            rehearsal: journal.rehearsal.clone(),
            origin: journal.origin.clone(),
            phase: journal.phase,
            state,
            can_complete,
            can_rollback,
            journal: display(path),
        },
    )
}

} // verus!
