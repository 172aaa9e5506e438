//! Durable apply journals and crash recovery.
//!
//! An apply is observable as a small state machine. The journal is written and
//! synced before any repository mutation, then advanced only after each mutation
//! has been observed. A lock of the repository is taken before the journal is
//! read and is held through phase updates and cleanup. Recovery always compares
//! the journal's expected refs with the real repository before choosing an
//! action; it never re-runs the rehearsed command or an entire apply.

use vstd::prelude::*;

use crate::analyze::{RefMove, RefMoveModel};
use crate::carry::{self, CarryModel};
use crate::compose::{args3, args4, cat2, cat3, cat4, cat5};
use crate::error::{message_of, Error, Fault};
use crate::files::{
    do_script, perform, present, present_script, read_bytes, read_bytes_script,
};
use crate::git;
use crate::parts::starts_with;
use crate::paths::{display, displayed, inside, is_same_path, join_path, same_path};
use crate::recovery::compare::{
    git_dir, git_dir_script, result_matches_script, worktree_result_matches,
};
use crate::recovery::journal::{
    atomic_bytes, atomic_bytes_script, bytes_view, for_journal_script, lock_path_of, read,
    read_script, remove_journal, remove_script, write_atomic_exclusive, write_exclusive_script,
    write_owned, write_owned_script, Journal, JournalModel, LockModel, JOURNAL_SCHEMA,
};
use crate::recovery::observe::{
    blocked, blocked_of, ensure_checkout, ensure_checkout_not_moved, ensure_checkout_script,
    ensure_known_script, ensure_known_worktree, ensure_not_moved_script, ensure_rollback_script,
    ensure_rollback_worktree, inspect_journal, inspect_script, read_undo, read_undo_script,
    refs_are_at, refs_match, state_of, state_of_script, undo_fits, undo_matches,
    undo_matches_script, undo_matches_snapshot, worktree_matches_journal, worktree_matches_script,
    InspectionModel,
};
use crate::recovery::state::Endpoint;
use crate::collision;
use crate::refcommands::{
    every_command_of, every_payload, reverse, reversed_moves, commands_text,
};
use crate::refs::{names_of, Entries};
use crate::session::{
    caught, copy_bytes, done_in, heard, kind_in, ran, Answer, Ask, Heard, HeardModel, Kind, Reason,
    Request, Run, Session, Stop, Tape,
};
use crate::text::{bytes_of, Text};
use crate::undo::record::{drop_head, rendered, without_head, RecordModel};
use crate::undo::{
    move_refs, move_refs_script, reset_worktree, reset_worktree_script, Record, UNDO_FILE,
};

pub mod compare;
pub mod journal;
pub mod observe;
pub mod promises;
pub mod state;

pub use crate::recovery::journal::{Lock, Operation};
pub use crate::recovery::observe::Inspection;
pub use crate::recovery::state::{Phase, State};

verus! {

/// The file in the repository's git directory that describes an apply in flight.
pub const JOURNAL_FILE: &'static str = "rehearse-apply";

/// A safe action for a journaled operation.
#[derive(Debug, Clone, Copy, PartialEq, Eq, Structural)]
pub enum Action {
    /// Query only.
    Inspect,
    /// Finish a ref-applied operation by updating the worktree.
    Complete,
    /// Put refs and the clean worktree back, where that is provable.
    Rollback,
}

/// The result of a recovery action.
#[derive(Debug)]
pub struct Recovered {
    pub inspection: Inspection,
    pub action: Action,
}

/// The model of a [`Recovered`].
pub struct RecoveredModel {
    pub inspection: InspectionModel,
    pub action: Action,
}

impl DeepView for Recovered {
    type V = RecoveredModel;

    open spec fn deep_view(&self) -> RecoveredModel {
        RecoveredModel { inspection: self.inspection.deep_view(), action: self.action }
    }
}

/// Does something under a lock, and lets go of it whatever came out.
pub open spec fn under<T>(
    taken: Run<LockModel>,
    body: spec_fn(LockModel, Tape) -> Run<T>,
) -> Run<T> {
    taken.and_then(|lock: LockModel, tape: Tape|
        body(lock, tape).closing(Ask::Unlock(lock_path_of(lock.journal_path))))
}

/// The journal path of a repository.
#[verifier::opaque]
pub open spec fn path_script(repo: Text, tape: Tape) -> Run<Text> {
    git_dir_script(repo, tape).and_then(|dir: Text, tape: Tape|
        Run::Gives(inside(dir, JOURNAL_FILE@), tape))
}

/// Returns the journal path of a repository.
pub fn path(session: &mut Session, repo: &str) -> (outcome: Result<String, Stop>)
    ensures
        ran(outcome, final(session)@) == path_script(repo@, old(session)@),
{
    proof {
        reveal(path_script);
    }
    let dir = git_dir(session, repo)?;
    Ok(join_path(&dir, JOURNAL_FILE))
}

/// Takes exclusive recovery ownership of a repository.
#[verifier::opaque]
pub open spec fn acquire_script(repo: Text, tape: Tape) -> Run<LockModel> {
    path_script(repo, tape).and_then(|path: Text, tape: Tape| for_journal_script(path, tape))
}

/// Acquires exclusive recovery ownership of a repository.
pub fn acquire(session: &mut Session, repo: &str) -> (outcome: Result<Lock, Stop>)
    ensures
        ran(outcome, final(session)@) == acquire_script(repo@, old(session)@),
{
    proof {
        reveal(acquire_script);
    }
    let path = path(session, repo)?;
    Lock::for_journal(session, &path)
}

// ---------------------------------------------------------------------------
// Clearing
// ---------------------------------------------------------------------------
pub open spec fn undo_changed() -> Fault {
    Fault::Refused(
        "the undo record changed during recovery; it was preserved and recovery is blocked"@,
    )
}

fn undo_changed_error() -> (error: Error)
    ensures
        error.deep_view() == undo_changed(),
{
    Error::Refused(
        "the undo record changed during recovery; it was preserved and recovery is blocked".to_owned(),
    )
}

/// Removes the record that a finished undo used up.
#[verifier::opaque]
pub open spec fn remove_undo_script(repo: Text, journal: JournalModel, tape: Tape) -> Run<()> {
    if journal.operation != Operation::Undo {
        Run::Gives((), tape)
    } else {
        undo_matches_script(repo, journal, State::Complete, tape).and_then(
            |fits: bool, tape: Tape|
                if !fits {
                    Run::Fails(undo_changed(), tape)
                } else {
                    git_dir_script(repo, tape).and_then(|dir: Text, tape: Tape|
                    heard(
                        Ask::RemoveFile(inside(dir, UNDO_FILE@)),
                        |answer: Answer| done_in(answer),
                        tape,
                    ).and_then(
                        |removed: HeardModel<()>, tape: Tape|
                            match removed {
                                HeardModel::Got(_) => Run::Gives((), tape),
                                HeardModel::Trouble(trouble) => if trouble.reason
                                    == Reason::Missing {
                                    Run::Gives((), tape)
                                } else {
                                    Run::Fails(
                                        Fault::Io(inside(dir, UNDO_FILE@), trouble.message),
                                        tape,
                                    )
                                },
                            }))
                },
        )
    }
}

fn remove_undo_for(session: &mut Session, repo: &str, journal: &Journal) -> (outcome: Result<
    (),
    Stop,
>)
    ensures
        ran(outcome, final(session)@) == remove_undo_script(
            repo@,
            journal.deep_view(),
            old(session)@,
        ),
{
    proof {
        reveal(remove_undo_script);
    }
    if journal.operation != Operation::Undo {
        return Ok(());
    }
    if !undo_matches(session, repo, journal, State::Complete)? {
        return Err(Stop::Fail(undo_changed_error()));
    }
    let dir = git_dir(session, repo)?;
    let path = join_path(&dir, UNDO_FILE);
    match session.done(Request::RemoveFile(path.clone()))? {
        Heard::Got(_) => Ok(()),
        Heard::Trouble(trouble) => if trouble.reason == Reason::Missing {
            Ok(())
        } else {
            Err(Stop::Fail(Error::Io(path, trouble.message)))
        },
    }
}

pub open spec fn other_lock() -> Fault {
    Fault::Refused(
        "apply recovery is blocked: the recovery lock belongs to another repository; no repository mutation was performed"@,
    )
}

/// Clears a journal of a finished operation, and refuses one of an unfinished
/// operation.
#[verifier::opaque]
pub open spec fn settle_script(repo: Text, journal_path: Text, tape: Tape) -> Run<()> {
    read_script(journal_path, tape).and_then(|journal: JournalModel, tape: Tape|
    inspect_script(repo, journal, journal_path, tape).and_then(
        |inspection: InspectionModel, tape: Tape|
            if inspection.state == State::Complete {
                remove_undo_script(repo, journal, tape).and_then(|done: (), tape: Tape|
                    remove_script(journal_path, tape))
            } else {
                Run::Fails(blocked_of(inspection), tape)
            }))
}

fn settle(session: &mut Session, repo: &str, journal_path: &str) -> (outcome: Result<(), Stop>)
    ensures
        ran(outcome, final(session)@) == settle_script(repo@, journal_path@, old(session)@),
{
    proof {
        reveal(settle_script);
    }
    let journal = read(session, journal_path)?;
    let inspection = inspect_journal(session, repo, &journal, journal_path)?;
    if inspection.state == State::Complete {
        remove_undo_for(session, repo, &journal)?;
        return remove_journal(session, journal_path);
    }
    Err(Stop::Fail(blocked(&inspection)))
}

/// Refuses a mutation while an unfinished operation needs a decision.
#[verifier::opaque]
pub open spec fn ensure_clear_locked_script(repo: Text, lock: LockModel, tape: Tape) -> Run<()> {
    path_script(repo, tape).and_then(|path: Text, tape: Tape|
    if !is_same_path(path, lock.journal_path) {
        Run::Fails(other_lock(), tape)
    } else {
        present_script(lock.journal_path, tape).and_then(|there: bool, tape: Tape|
            if there {
                settle_script(repo, lock.journal_path, tape)
            } else {
                Run::Gives((), tape)
            })
    })
}

/// Checks and, when safe, clears the current journal while `lock` is held.
pub fn ensure_clear_locked(session: &mut Session, repo: &str, lock: &Lock) -> (outcome: Result<
    (),
    Stop,
>)
    ensures
        ran(outcome, final(session)@) == ensure_clear_locked_script(
            repo@,
            lock.deep_view(),
            old(session)@,
        ),
{
    proof {
        reveal(ensure_clear_locked_script);
    }
    let path = path(session, repo)?;
    if !same_path(&path, &lock.journal_path) {
        return Err(
            Stop::Fail(
                Error::Refused(
                    "apply recovery is blocked: the recovery lock belongs to another repository; no repository mutation was performed".to_owned(),
                ),
            ),
        );
    }
    if !present(session, &lock.journal_path)? {
        return Ok(());
    }
    settle(session, repo, &lock.journal_path)
}

/// Refuses a mutation while an unfinished operation needs a decision.
#[verifier::opaque]
pub open spec fn ensure_clear_script(repo: Text, tape: Tape) -> Run<()> {
    under(
        acquire_script(repo, tape),
        |lock: LockModel, tape: Tape| ensure_clear_locked_script(repo, lock, tape),
    )
}

/// Refuses a mutation while an unfinished apply needs a decision. A complete
/// journal is reaped only while the lock is held.
pub fn ensure_clear(session: &mut Session, repo: &str) -> (outcome: Result<(), Stop>)
    ensures
        ran(outcome, final(session)@) == ensure_clear_script(repo@, old(session)@),
{
    proof {
        reveal(ensure_clear_script);
    }
    let lock = acquire(session, repo)?;
    let outcome = ensure_clear_locked(session, repo, &lock);
    lock.release(session, outcome)
}

// ---------------------------------------------------------------------------
// Preparing
// ---------------------------------------------------------------------------
/// What an operation is about to do.
pub struct IntentModel {
    pub rehearsal: Text,
    pub moved: Seq<RefMoveModel>,
    pub checkout: Option<Text>,
    pub anchor: Text,
    pub worktree_before: Text,
    pub operation: Operation,
    pub expected_undo: Option<Seq<u8>>,
}

/// What an operation is about to do.
struct Intent<'a> {
    rehearsal: &'a str,
    moved: &'a Vec<RefMove>,
    checkout: Option<&'a str>,
    anchor: &'a str,
    worktree_before: &'a str,
    operation: Operation,
    expected_undo: Option<Vec<u8>>,
}

/// A text that may be there.
pub open spec fn some_text(text: Option<&str>) -> Option<Text> {
    match text {
        Some(text) => Some(text@),
        None => None,
    }
}

fn owned(text: Option<&str>) -> (copy: Option<String>)
    ensures
        copy.deep_view() == some_text(text),
{
    match text {
        Some(text) => Some(text.to_owned()),
        None => None,
    }
}

impl<'a> DeepView for Intent<'a> {
    type V = IntentModel;

    closed spec fn deep_view(&self) -> IntentModel {
        IntentModel {
            rehearsal: self.rehearsal@,
            moved: self.moved.deep_view(),
            checkout: some_text(self.checkout),
            anchor: self.anchor@,
            worktree_before: self.worktree_before@,
            operation: self.operation,
            expected_undo: bytes_view(self.expected_undo),
        }
    }
}

pub open spec fn anchor_taken() -> Fault {
    Fault::Refused(
        "this rehearsal's recovery anchor is already owned by an earlier apply; create a new rehearsal before applying. No repository mutation was performed"@,
    )
}

/// Refuses an anchor that has refs below it.
#[verifier::opaque]
pub open spec fn ensure_anchor_free_script(repo: Text, anchor: Text, tape: Tape) -> Run<()> {
    if anchor.len() == 0 {
        Run::Gives((), tape)
    } else {
        git::refs_script(repo, anchor, 0, tape).and_then(|refs: Entries, tape: Tape|
            if refs.len() == 0 {
                Run::Gives((), tape)
            } else {
                Run::Fails(anchor_taken(), tape)
            })
    }
}

fn ensure_anchor_free(session: &mut Session, repo: &str, anchor: &str) -> (outcome: Result<
    (),
    Stop,
>)
    ensures
        ran(outcome, final(session)@) == ensure_anchor_free_script(
            repo@,
            anchor@,
            old(session)@,
        ),
{
    proof {
        reveal(ensure_anchor_free_script);
    }
    if anchor.is_empty() {
        return Ok(());
    }
    if git::refs(session, repo, anchor, 0)?.len() == 0 {
        return Ok(());
    }
    Err(
        Stop::Fail(
            Error::Refused(
                "this rehearsal's recovery anchor is already owned by an earlier apply; create a new rehearsal before applying. No repository mutation was performed".to_owned(),
            ),
        ),
    )
}

pub open spec fn undo_unreadable(path: Text, why: Text) -> Fault {
    Fault::Refused(
        "could not read the existing undo record at "@ + displayed(path)
            + " before writing the apply journal: "@ + why
            + ". Recovery is blocked and no repository mutation was performed."@,
    )
}

/// The undo record that is there before the operation.
#[verifier::opaque]
pub open spec fn previous_undo_script(repo: Text, tape: Tape) -> Run<Option<Seq<u8>>> {
    git_dir_script(repo, tape).and_then(|dir: Text, tape: Tape|
    read_bytes_script(inside(dir, UNDO_FILE@), tape).and_then(
        |found: HeardModel<Seq<u8>>, tape: Tape|
            match found {
                HeardModel::Got(bytes) => Run::Gives(Some(bytes), tape),
                HeardModel::Trouble(trouble) => if trouble.reason == Reason::Missing {
                    Run::Gives(None, tape)
                } else {
                    Run::Fails(undo_unreadable(inside(dir, UNDO_FILE@), trouble.message), tape)
                },
            }))
}

fn previous_undo(session: &mut Session, repo: &str) -> (outcome: Result<Option<Vec<u8>>, Stop>)
    ensures
        ran(outcome, final(session)@) == previous_undo_script(repo@, old(session)@),
{
    proof {
        reveal(previous_undo_script);
    }
    let dir = git_dir(session, repo)?;
    let path = join_path(&dir, UNDO_FILE);
    match read_bytes(session, &path)? {
        Heard::Got(bytes) => Ok(Some(bytes)),
        Heard::Trouble(trouble) => if trouble.reason == Reason::Missing {
            Ok(None)
        } else {
            Err(
                Stop::Fail(
                    Error::Refused(
                        cat5(
                            "could not read the existing undo record at ",
                            &display(&path),
                            " before writing the apply journal: ",
                            &trouble.message,
                            ". Recovery is blocked and no repository mutation was performed.",
                        ),
                    ),
                ),
            )
        },
    }
}

pub open spec fn snapshot_unverified() -> Fault {
    Fault::Refused(
        "the original index or tracked files cannot be verified against their snapshot; apply was not started"@,
    )
}

/// Where the uncommitted work before an operation is anchored.
pub open spec fn original_ref(rehearsal: Text) -> Text {
    "refs/rehearse/"@ + rehearsal + "-original"@
}

/// The snapshot of uncommitted work before an operation that moves a checkout,
/// verified and anchored.
#[verifier::opaque]
pub open spec fn local_before_script(
    repo: Text,
    rehearsal: Text,
    checkout: Option<Text>,
    tape: Tape,
) -> Run<Option<Text>> {
    if checkout is None {
        Run::Gives(None, tape)
    } else {
        carry::snapshot_script(repo, tape).and_then(|carried: Option<CarryModel>, tape: Tape|
            match carried {
                None => Run::Gives(None, tape),
                Some(carried) => {
                    let snapshot = carried.snapshot;
                    result_matches_script(
                        repo,
                        snapshot,
                        Some(snapshot + "^2"@),
                        tape,
                    ).and_then(|verified: bool, tape: Tape|
                    if !verified {
                        Run::Fails(snapshot_unverified(), tape)
                    } else {
                        git::run_script(
                            repo,
                            seq!["update-ref"@, original_ref(rehearsal), snapshot],
                            tape,
                        ).and_then(|output: Text, tape: Tape| Run::Gives(Some(snapshot), tape))
                    })
                },
            })
    }
}

fn local_before(session: &mut Session, repo: &str, rehearsal: &str, checkout: Option<&str>) -> (
    outcome: Result<Option<String>, Stop>)
    ensures
        ran(outcome, final(session)@) == local_before_script(
            repo@,
            rehearsal@,
            some_text(checkout),
            old(session)@,
        ),
{
    proof {
        reveal(local_before_script);
    }
    if checkout.is_none() {
        return Ok(None);
    }
    let snapshot = match carry::snapshot(session, repo)? {
        None => return Ok(None),
        Some(carried) => carried.snapshot,
    };
    let head = Some(cat2(&snapshot, "^2"));
    if !worktree_result_matches(session, repo, &snapshot, &head)? {
        return Err(
            Stop::Fail(
                Error::Refused(
                    "the original index or tracked files cannot be verified against their snapshot; apply was not started".to_owned(),
                ),
            ),
        );
    }
    let name = cat3("refs/rehearse/", rehearsal, "-original");
    git::run(session, repo, args3("update-ref", &name, &snapshot))?;
    Ok(Some(snapshot))
}

/// The journal of an operation that has not started.
pub open spec fn journal_of(
    repo: Text,
    intent: IntentModel,
    previous_undo: Option<Seq<u8>>,
    local_before: Option<Text>,
) -> JournalModel {
    JournalModel {
        schema: JOURNAL_SCHEMA,
        rehearsal: intent.rehearsal,
        origin: displayed(repo),
        checkout: intent.checkout,
        refs: without_head(intent.moved),
        anchor: intent.anchor,
        worktree_before: intent.worktree_before,
        worktree_after: None,
        local_before,
        previous_undo,
        expected_undo: intent.expected_undo,
        rollback_undo: None,
        operation: intent.operation,
        phase: Phase::Prepared,
    }
}

pub open spec fn not_published(path: Text, fault: Fault) -> Fault {
    Fault::Refused(
        "could not durably publish apply journal at "@ + displayed(path) + ": "@
            + message_of(fault)
            + ". Recovery is blocked and no repository mutation was performed."@,
    )
}

/// Writes the complete operation description before the first mutation, and
/// gives where it went.
#[verifier::opaque]
pub open spec fn prepare_operation_script(
    repo: Text,
    lock: LockModel,
    intent: IntentModel,
    tape: Tape,
) -> Run<Text> {
    let path = lock.journal_path;
    ensure_clear_locked_script(repo, lock, tape).and_then(|clear: (), tape: Tape|
    ensure_anchor_free_script(repo, intent.anchor, tape).and_then(|free: (), tape: Tape|
    previous_undo_script(repo, tape).and_then(|previous: Option<Seq<u8>>, tape: Tape|
    local_before_script(repo, intent.rehearsal, intent.checkout, tape).and_then(
        |local: Option<Text>, tape: Tape|
    write_exclusive_script(path, journal_of(repo, intent, previous, local), tape).either(
        |done: (), tape: Tape| Run::Gives(path, tape),
        |fault: Fault, tape: Tape| Run::Fails(not_published(path, fault), tape),
    )))))
}

fn prepare_operation_locked(session: &mut Session, repo: &str, lock: &Lock, intent: Intent) -> (outcome:
    Result<String, Stop>)
    ensures
        ran(outcome, final(session)@) == prepare_operation_script(
            repo@,
            lock.deep_view(),
            intent.deep_view(),
            old(session)@,
        ),
{
    proof {
        reveal(prepare_operation_script);
    }
    let path = &lock.journal_path;
    ensure_clear_locked(session, repo, lock)?;
    ensure_anchor_free(session, repo, intent.anchor)?;
    let previous_undo = previous_undo(session, repo)?;
    assert(previous_undo.deep_view() == bytes_view(previous_undo)) by {
        if let Some(bytes) = previous_undo {
            assert(bytes.deep_view() =~= bytes@);
        }
    }
    let local_before = local_before(session, repo, intent.rehearsal, intent.checkout)?;
    let journal = Journal {
        schema: JOURNAL_SCHEMA,
        rehearsal: intent.rehearsal.to_owned(),
        origin: display(repo),
        checkout: owned(intent.checkout),
        refs: drop_head(intent.moved),
        anchor: intent.anchor.to_owned(),
        worktree_before: intent.worktree_before.to_owned(),
        worktree_after: None,
        local_before,
        previous_undo,
        expected_undo: intent.expected_undo,
        rollback_undo: None,
        operation: intent.operation,
        phase: Phase::Prepared,
    };
    match caught(write_atomic_exclusive(session, path, &journal))? {
        Ok(_) => Ok(path.clone()),
        Err(error) => Err(
            Stop::Fail(
                Error::Refused(
                    cat5(
                        "could not durably publish apply journal at ",
                        &display(path),
                        ": ",
                        &error.to_string(),
                        ". Recovery is blocked and no repository mutation was performed.",
                    ),
                ),
            ),
        ),
    }
}

/// What an apply is about to do.
pub open spec fn apply_intent(
    record: RecordModel,
    checkout: Option<Text>,
    anchor: Text,
    worktree_before: Text,
) -> IntentModel {
    IntentModel {
        rehearsal: record.rehearsal,
        moved: record.refs,
        checkout,
        anchor,
        worktree_before,
        operation: Operation::Apply,
        expected_undo: Some(vstd::utf8::encode_utf8(rendered(record))),
    }
}

/// Writes an apply journal while `lock` remains held by the caller.
pub fn prepare_locked(
    session: &mut Session,
    repo: &str,
    lock: &Lock,
    record: &Record,
    checkout: Option<&str>,
    anchor: &str,
    worktree_before: &str,
) -> (outcome: Result<String, Stop>)
    ensures
        ran(outcome, final(session)@) == prepare_operation_script(
            repo@,
            lock.deep_view(),
            apply_intent(
                record.deep_view(),
                some_text(checkout),
                anchor@,
                worktree_before@,
            ),
            old(session)@,
        ),
{
    let expected = bytes_of(&crate::undo::render(record));
    prepare_operation_locked(
        session,
        repo,
        lock,
        Intent {
            rehearsal: &record.rehearsal,
            moved: &record.refs,
            checkout,
            anchor,
            worktree_before,
            operation: Operation::Apply,
            expected_undo: Some(expected),
        },
    )
}

/// Writes the complete description of an apply before the first mutation.
pub fn prepare(
    session: &mut Session,
    repo: &str,
    record: &Record,
    checkout: Option<&str>,
    anchor: &str,
    worktree_before: &str,
) -> (outcome: Result<String, Stop>)
    ensures
        ran(outcome, final(session)@) == under(
            acquire_script(repo@, old(session)@),
            |lock: LockModel, tape: Tape|
                prepare_operation_script(
                    repo@,
                    lock,
                    apply_intent(
                        record.deep_view(),
                        some_text(checkout),
                        anchor@,
                        worktree_before@,
                    ),
                    tape,
                ),
        ),
{
    let lock = acquire(session, repo)?;
    let outcome = prepare_locked(session, repo, &lock, record, checkout, anchor, worktree_before);
    lock.release(session, outcome)
}

/// What an undo is about to do.
pub open spec fn undo_intent(
    rehearsal: Text,
    moved: Seq<RefMoveModel>,
    checkout: Option<Text>,
    worktree_before: Text,
) -> IntentModel {
    IntentModel {
        rehearsal,
        moved,
        checkout,
        anchor: ""@,
        worktree_before,
        operation: Operation::Undo,
        expected_undo: None,
    }
}

/// Writes an undo journal while `lock` remains held by the caller.
pub fn prepare_undo_locked(
    session: &mut Session,
    repo: &str,
    lock: &Lock,
    rehearsal: &str,
    moved: &Vec<RefMove>,
    checkout: Option<&str>,
    worktree_before: &str,
) -> (outcome: Result<String, Stop>)
    ensures
        ran(outcome, final(session)@) == prepare_operation_script(
            repo@,
            lock.deep_view(),
            undo_intent(
                rehearsal@,
                moved.deep_view(),
                some_text(checkout),
                worktree_before@,
            ),
            old(session)@,
        ),
{
    prepare_operation_locked(
        session,
        repo,
        lock,
        Intent {
            rehearsal,
            moved,
            checkout,
            anchor: "",
            worktree_before,
            operation: Operation::Undo,
            expected_undo: None,
        },
    )
}

/// Writes the complete description of an undo before restoring a ref.
pub fn prepare_undo(
    session: &mut Session,
    repo: &str,
    rehearsal: &str,
    moved: &Vec<RefMove>,
    checkout: Option<&str>,
    worktree_before: &str,
) -> (outcome: Result<String, Stop>)
    ensures
        ran(outcome, final(session)@) == under(
            acquire_script(repo@, old(session)@),
            |lock: LockModel, tape: Tape|
                prepare_operation_script(
                    repo@,
                    lock,
                    undo_intent(
                        rehearsal@,
                        moved.deep_view(),
                        some_text(checkout),
                        worktree_before@,
                    ),
                    tape,
                ),
        ),
{
    let lock = acquire(session, repo)?;
    let outcome = prepare_undo_locked(
        session,
        repo,
        &lock,
        rehearsal,
        moved,
        checkout,
        worktree_before,
    );
    lock.release(session, outcome)
}

// ---------------------------------------------------------------------------
// Advancing
// ---------------------------------------------------------------------------
pub open spec fn worktree_not_recorded(path: Text, fault: Fault) -> Fault {
    Fault::Refused(
        "could not durably record the rehearsed worktree at "@ + displayed(path) + ": "@
            + message_of(fault)
            + ". Recovery is blocked; inspect the real refs before taking any action."@,
    )
}

/// Records the worktree that the operation ends at.
#[verifier::opaque]
pub open spec fn set_worktree_after_script(
    path: Text,
    lock: LockModel,
    result: Option<Text>,
    tape: Tape,
) -> Run<()> {
    read_script(path, tape).and_then(|journal: JournalModel, tape: Tape|
    write_owned_script(
        path,
        lock,
        JournalModel { worktree_after: result, ..journal },
        tape,
    ).either(
        |done: (), tape: Tape| Run::Gives((), tape),
        |fault: Fault, tape: Tape| Run::Fails(worktree_not_recorded(path, fault), tape),
    ))
}

/// Records the carried endpoint while `lock` remains held by the caller.
pub fn set_worktree_after_locked(
    session: &mut Session,
    path: &str,
    lock: &Lock,
    result: Option<&str>,
) -> (outcome: Result<(), Stop>)
    ensures
        ran(outcome, final(session)@) == set_worktree_after_script(
            path@,
            lock.deep_view(),
            some_text(result),
            old(session)@,
        ),
{
    proof {
        reveal(set_worktree_after_script);
    }
    let mut journal = read(session, path)?;
    journal.worktree_after = owned(result);
    match caught(write_owned(session, path, lock, &journal))? {
        Ok(_) => Ok(()),
        Err(error) => Err(
            Stop::Fail(
                Error::Refused(
                    cat5(
                        "could not durably record the rehearsed worktree at ",
                        &display(path),
                        ": ",
                        &error.to_string(),
                        ". Recovery is blocked; inspect the real refs before taking any action.",
                    ),
                ),
            ),
        ),
    }
}

/// Records the exact carried worktree endpoint before refs are mutated.
pub fn set_worktree_after(session: &mut Session, path: &str, result: Option<&str>) -> (outcome: Result<
    (),
    Stop,
>)
    ensures
        ran(outcome, final(session)@) == under(
            for_journal_script(path@, old(session)@),
            |lock: LockModel, tape: Tape|
                set_worktree_after_script(path@, lock, some_text(result), tape),
        ),
{
    let lock = Lock::for_journal(session, path)?;
    let outcome = set_worktree_after_locked(session, path, &lock, result);
    lock.release(session, outcome)
}

pub open spec fn not_advanced(path: Text, fault: Fault) -> Fault {
    Fault::Refused(
        "could not durably advance apply journal at "@ + displayed(path) + ": "@
            + message_of(fault)
            + ". Recovery is blocked; inspect the real refs before taking any action."@,
    )
}

/// Writes a journal that got further.
#[verifier::opaque]
pub open spec fn write_phase_script(
    path: Text,
    lock: LockModel,
    journal: JournalModel,
    tape: Tape,
) -> Run<()> {
    write_owned_script(path, lock, journal, tape).either(
        |done: (), tape: Tape| Run::Gives((), tape),
        |fault: Fault, tape: Tape| Run::Fails(not_advanced(path, fault), tape),
    )
}

fn write_phase(session: &mut Session, path: &str, lock: &Lock, journal: &Journal) -> (outcome: Result<
    (),
    Stop,
>)
    ensures
        ran(outcome, final(session)@) == write_phase_script(
            path@,
            lock.deep_view(),
            journal.deep_view(),
            old(session)@,
        ),
{
    proof {
        reveal(write_phase_script);
    }
    match caught(write_owned(session, path, lock, journal))? {
        Ok(_) => Ok(()),
        Err(error) => Err(
            Stop::Fail(
                Error::Refused(
                    cat5(
                        "could not durably advance apply journal at ",
                        &display(path),
                        ": ",
                        &error.to_string(),
                        ". Recovery is blocked; inspect the real refs before taking any action.",
                    ),
                ),
            ),
        ),
    }
}

/// Advances a journal to a phase.
#[verifier::opaque]
pub open spec fn update_phase_script(path: Text, lock: LockModel, phase: Phase, tape: Tape) -> Run<
    (),
> {
    read_script(path, tape).and_then(|journal: JournalModel, tape: Tape|
        write_phase_script(path, lock, JournalModel { phase, ..journal }, tape))
}

fn update_phase(session: &mut Session, path: &str, lock: &Lock, phase: Phase) -> (outcome: Result<
    (),
    Stop,
>)
    ensures
        ran(outcome, final(session)@) == update_phase_script(
            path@,
            lock.deep_view(),
            phase,
            old(session)@,
        ),
{
    proof {
        reveal(update_phase_script);
    }
    let mut journal = read(session, path)?;
    journal.phase = phase;
    write_phase(session, path, lock, &journal)
}

/// Takes the lock of a journal and advances it to a phase.
pub open spec fn advance_script(path: Text, phase: Phase, tape: Tape) -> Run<()> {
    under(
        for_journal_script(path, tape),
        |lock: LockModel, tape: Tape| update_phase_script(path, lock, phase, tape),
    )
}

fn advance(session: &mut Session, path: &str, phase: Phase) -> (outcome: Result<(), Stop>)
    ensures
        ran(outcome, final(session)@) == advance_script(path@, phase, old(session)@),
{
    let lock = Lock::for_journal(session, path)?;
    let outcome = update_phase(session, path, &lock, phase);
    lock.release(session, outcome)
}

/// Advances a prepared journal after the ref transaction.
pub fn refs_applied(session: &mut Session, path: &str) -> (outcome: Result<(), Stop>)
    ensures
        ran(outcome, final(session)@) == advance_script(
            path@,
            Phase::RefsApplied,
            old(session)@,
        ),
{
    advance(session, path, Phase::RefsApplied)
}

/// Advances the journal while `lock` remains held by the caller.
pub fn refs_applied_locked(session: &mut Session, path: &str, lock: &Lock) -> (outcome: Result<
    (),
    Stop,
>)
    ensures
        ran(outcome, final(session)@) == update_phase_script(
            path@,
            lock.deep_view(),
            Phase::RefsApplied,
            old(session)@,
        ),
{
    update_phase(session, path, lock, Phase::RefsApplied)
}

/// Advances a journal after the checked-out worktree has been updated.
pub fn worktree_updated(session: &mut Session, path: &str) -> (outcome: Result<(), Stop>)
    ensures
        ran(outcome, final(session)@) == advance_script(
            path@,
            Phase::WorktreeUpdated,
            old(session)@,
        ),
{
    advance(session, path, Phase::WorktreeUpdated)
}

/// Advances the journal while `lock` remains held by the caller.
pub fn worktree_updated_locked(session: &mut Session, path: &str, lock: &Lock) -> (outcome: Result<
    (),
    Stop,
>)
    ensures
        ran(outcome, final(session)@) == update_phase_script(
            path@,
            lock.deep_view(),
            Phase::WorktreeUpdated,
            old(session)@,
        ),
{
    update_phase(session, path, lock, Phase::WorktreeUpdated)
}

/// Marks the operation complete, leaving cleanup to the caller after all
/// user-visible work has succeeded.
pub fn complete(session: &mut Session, path: &str) -> (outcome: Result<(), Stop>)
    ensures
        ran(outcome, final(session)@) == advance_script(path@, Phase::Complete, old(session)@),
{
    advance(session, path, Phase::Complete)
}

/// Marks the journal complete while `lock` remains held by the caller.
pub fn complete_locked(session: &mut Session, path: &str, lock: &Lock) -> (outcome: Result<
    (),
    Stop,
>)
    ensures
        ran(outcome, final(session)@) == update_phase_script(
            path@,
            lock.deep_view(),
            Phase::Complete,
            old(session)@,
        ),
{
    update_phase(session, path, lock, Phase::Complete)
}

/// Removes a journal where there is one.
#[verifier::opaque]
pub open spec fn forget_script(path: Text, tape: Tape) -> Run<()> {
    present_script(path, tape).and_then(|there: bool, tape: Tape|
        if there {
            remove_script(path, tape)
        } else {
            Run::Gives((), tape)
        })
}

/// Removes a completed journal while its lock remains held by the caller.
pub fn forget_locked(session: &mut Session, path: &str, lock: &Lock) -> (outcome: Result<(), Stop>)
    ensures
        ran(outcome, final(session)@) == forget_script(path@, old(session)@),
{
    proof {
        reveal(forget_script);
    }
    if present(session, path)? {
        remove_journal(session, path)?;
    }
    Ok(())
}

/// Removes a completed journal. Call only after the actual operation is done.
pub fn forget(session: &mut Session, path: &str) -> (outcome: Result<(), Stop>)
    ensures
        ran(outcome, final(session)@) == under(
            for_journal_script(path@, old(session)@),
            |lock: LockModel, tape: Tape| forget_script(path@, tape),
        ),
{
    let lock = Lock::for_journal(session, path)?;
    let outcome = forget_locked(session, path, &lock);
    lock.release(session, outcome)
}

// ---------------------------------------------------------------------------
// Recovering
// ---------------------------------------------------------------------------
/// What the repository says about the journal, if there is one.
#[verifier::opaque]
pub open spec fn inspect_locked_script(repo: Text, lock: LockModel, tape: Tape) -> Run<
    Option<InspectionModel>,
> {
    let path = lock.journal_path;
    present_script(path, tape).and_then(|there: bool, tape: Tape|
    if !there {
        Run::Gives(None, tape)
    } else {
        read_script(path, tape).and_then(|journal: JournalModel, tape: Tape|
        inspect_script(repo, journal, path, tape).and_then(
            |inspection: InspectionModel, tape: Tape| Run::Gives(Some(inspection), tape)))
    })
}

/// Inspects recovery state while `lock` is held by the caller.
pub fn inspect_locked(session: &mut Session, repo: &str, lock: &Lock) -> (outcome: Result<
    Option<Inspection>,
    Stop,
>)
    ensures
        ran(outcome, final(session)@) == inspect_locked_script(
            repo@,
            lock.deep_view(),
            old(session)@,
        ),
{
    proof {
        reveal(inspect_locked_script);
    }
    let path = &lock.journal_path;
    if !present(session, path)? {
        return Ok(None);
    }
    let journal = read(session, path)?;
    let inspection = inspect_journal(session, repo, &journal, path)?;
    Ok(Some(inspection))
}

/// Inspects the repository's current recovery state, if a journal is there.
pub fn inspect(session: &mut Session, repo: &str) -> (outcome: Result<Option<Inspection>, Stop>)
    ensures
        ran(outcome, final(session)@) == under(
            acquire_script(repo@, old(session)@),
            |lock: LockModel, tape: Tape| inspect_locked_script(repo@, lock, tape),
        ),
{
    let lock = acquire(session, repo)?;
    let outcome = inspect_locked(session, repo, &lock);
    lock.release(session, outcome)
}

/// Brings the worktree to the end of the operation.
#[verifier::opaque]
pub open spec fn update_worktree_script(repo: Text, journal: JournalModel, tape: Tape) -> Run<()> {
    match journal.worktree_after {
        Some(result) => collision::check_operation_script(
            repo,
            repo,
            result,
            collision::Operation::Restore,
            tape,
        ).and_then(|free: (), tape: Tape|
            if journal.local_before is Some {
                carry::restore_snapshot_script(repo, result, tape)
            } else {
                carry::restore_script(repo, result, tape)
            }),
        None => reset_worktree_script(repo, true, tape),
    }
}

fn update_worktree(session: &mut Session, repo: &str, journal: &Journal) -> (outcome: Result<
    (),
    Stop,
>)
    ensures
        ran(outcome, final(session)@) == update_worktree_script(
            repo@,
            journal.deep_view(),
            old(session)@,
        ),
{
    proof {
        reveal(update_worktree_script);
    }
    match &journal.worktree_after {
        Some(result) => {
            collision::check_restore(session, repo, repo, result)?;
            if journal.local_before.is_some() {
                carry::restore_snapshot(session, repo, result)
            } else {
                carry::restore(session, repo, result)
            }
        },
        None => reset_worktree(session, repo, true),
    }
}

/// Whether an operation can be finished or is finished already.
pub open spec fn is_completable(inspection: InspectionModel) -> bool {
    inspection.state == State::Complete || (inspection.state == State::AfterRefChange
        && inspection.can_complete)
}

fn completable(inspection: &Inspection) -> (yes: bool)
    ensures
        yes == is_completable(inspection.deep_view()),
{
    inspection.state == State::Complete || (inspection.state == State::AfterRefChange
        && inspection.can_complete)
}

/// Marks an operation complete and forgets its journal.
#[verifier::opaque]
pub open spec fn finish_script(repo: Text, lock: LockModel, journal: JournalModel, tape: Tape) -> Run<
    (),
> {
    remove_undo_script(repo, journal, tape).and_then(|done: (), tape: Tape|
    update_phase_script(lock.journal_path, lock, Phase::Complete, tape).and_then(
        |done: (), tape: Tape| forget_script(lock.journal_path, tape)))
}

fn finish(session: &mut Session, repo: &str, lock: &Lock, journal: &Journal) -> (outcome: Result<
    (),
    Stop,
>)
    ensures
        ran(outcome, final(session)@) == finish_script(
            repo@,
            lock.deep_view(),
            journal.deep_view(),
            old(session)@,
        ),
{
    proof {
        reveal(finish_script);
    }
    remove_undo_for(session, repo, journal)?;
    complete_locked(session, &lock.journal_path, lock)?;
    forget_locked(session, &lock.journal_path, lock)
}

/// Finishes an operation whose refs have landed. The journal is read and the
/// repository inspected once more, right before anything is changed. A detached
/// `HEAD` has no worktree to bring along.
#[verifier::opaque]
pub open spec fn complete_script(
    repo: Text,
    lock: LockModel,
    inspection: InspectionModel,
    tape: Tape,
) -> Run<RecoveredModel> {
    let path = lock.journal_path;
    if !is_completable(inspection) {
        Run::Fails(blocked_of(inspection), tape)
    } else {
        read_script(path, tape).and_then(|journal: JournalModel, tape: Tape|
        inspect_script(repo, journal, path, tape).and_then(
            |inspection: InspectionModel, tape: Tape|
                {
                    let recovered = RecoveredModel { inspection, action: Action::Complete };
                    if inspection.state == State::Complete {
                        remove_undo_script(repo, journal, tape).and_then(|done: (), tape: Tape|
                        forget_script(path, tape).and_then(|done: (), tape: Tape|
                            Run::Gives(recovered, tape)))
                    } else if !is_completable(inspection) {
                        Run::Fails(blocked_of(inspection), tape)
                    } else {
                        bring_worktree_script(repo, journal, tape).and_then(
                            |done: (), tape: Tape|
                                finish_script(repo, lock, journal, tape).and_then(
                                    |done: (), tape: Tape| Run::Gives(recovered, tape),
                                ),
                        )
                    }
                }))
    }
}

/// Brings the worktree of the operation's branch to its end, after a last look.
#[verifier::opaque]
pub open spec fn bring_worktree_script(repo: Text, journal: JournalModel, tape: Tape) -> Run<()> {
    match journal.checkout {
        None => Run::Gives((), tape),
        Some(branch) => ensure_checkout_script(repo, branch, tape).and_then(
            |here: (), tape: Tape|
                ensure_known_script(repo, journal, tape).and_then(
                    |known: (), tape: Tape| update_worktree_script(repo, journal, tape),
                ),
        ),
    }
}

fn bring_worktree(session: &mut Session, repo: &str, journal: &Journal) -> (outcome: Result<
    (),
    Stop,
>)
    ensures
        ran(outcome, final(session)@) == bring_worktree_script(
            repo@,
            journal.deep_view(),
            old(session)@,
        ),
{
    proof {
        reveal(bring_worktree_script);
    }
    match &journal.checkout {
        None => Ok(()),
        Some(branch) => {
            ensure_checkout(session, repo, branch)?;
            ensure_known_worktree(session, repo, journal)?;
            update_worktree(session, repo, journal)
        },
    }
}

fn complete_operation(session: &mut Session, repo: &str, lock: &Lock, inspection: Inspection) -> (
    outcome: Result<Recovered, Stop>)
    ensures
        ran(outcome, final(session)@) == complete_script(
            repo@,
            lock.deep_view(),
            inspection.deep_view(),
            old(session)@,
        ),
{
    proof {
        reveal(complete_script);
    }
    if !completable(&inspection) {
        return Err(Stop::Fail(blocked(&inspection)));
    }
    let path = &lock.journal_path;
    let journal = read(session, path)?;
    let inspection = inspect_journal(session, repo, &journal, path)?;
    if inspection.state == State::Complete {
        remove_undo_for(session, repo, &journal)?;
        forget_locked(session, path, lock)?;
        return Ok(Recovered { inspection, action: Action::Complete });
    }
    if !completable(&inspection) {
        return Err(Stop::Fail(blocked(&inspection)));
    }
    bring_worktree(session, repo, &journal)?;
    finish(session, repo, lock, &journal)?;
    Ok(Recovered { inspection, action: Action::Complete })
}

/// Persists the requested direction before the first inverse mutation, and gives
/// the journal that says so.
#[verifier::opaque]
pub open spec fn turn_back_script(
    repo: Text,
    lock: LockModel,
    journal: JournalModel,
    inspection: InspectionModel,
    tape: Tape,
) -> Run<JournalModel> {
    if journal.phase == Phase::RollingBack {
        Run::Gives(journal, tape)
    } else {
        read_undo_script(repo, tape).and_then(|current: Option<Seq<u8>>, tape: Tape|
        if !undo_fits(journal, inspection.state, current) {
            Run::Fails(blocked_of(inspection), tape)
        } else {
            let turned = JournalModel {
                rollback_undo: current,
                phase: Phase::RollingBack,
                ..journal
            };
            write_phase_script(lock.journal_path, lock, turned, tape).and_then(
                |done: (), tape: Tape| Run::Gives(turned, tape),
            )
        })
    }
}

fn turn_back(
    session: &mut Session,
    repo: &str,
    lock: &Lock,
    journal: Journal,
    inspection: &Inspection,
) -> (outcome: Result<Journal, Stop>)
    ensures
        ran(outcome, final(session)@) == turn_back_script(
            repo@,
            lock.deep_view(),
            journal.deep_view(),
            inspection.deep_view(),
            old(session)@,
        ),
{
    proof {
        reveal(turn_back_script);
    }
    let mut journal = journal;
    if journal.phase == Phase::RollingBack {
        return Ok(journal);
    }
    let current = read_undo(session, repo)?;
    assert(current.deep_view() == bytes_view(current)) by {
        if let Some(bytes) = current {
            assert(bytes.deep_view() =~= bytes@);
        }
    }
    if !undo_matches_snapshot(&journal, inspection.state, &current) {
        return Err(Stop::Fail(blocked(inspection)));
    }
    journal.rollback_undo = current;
    journal.phase = Phase::RollingBack;
    write_phase(session, &lock.journal_path, lock, &journal)?;
    Ok(journal)
}

/// Puts the refs back where an earlier attempt has not done it yet. The inverse
/// transaction is made only where all refs still are where the operation put
/// them.
#[verifier::opaque]
pub open spec fn roll_refs_back_script(
    repo: Text,
    journal: JournalModel,
    inspection: InspectionModel,
    tape: Tape,
) -> Run<()> {
    state_of_script(repo, tape).and_then(|refs: Entries, tape: Tape|
    if refs_are_at(refs, journal.refs, Endpoint::Before) {
        Run::Gives((), tape)
    } else if !refs_are_at(refs, journal.refs, Endpoint::After) {
        Run::Fails(blocked_of(inspection), tape)
    } else {
        (match journal.checkout {
            Some(branch) => ensure_checkout_script(repo, branch, tape).and_then(
                |here: (), tape: Tape| ensure_rollback_script(repo, journal, tape),
            ),
            None => ensure_not_moved_script(repo, journal, tape),
        }).and_then(|safe: (), tape: Tape|
            move_refs_script(
                repo,
                commands_text(every_command_of(reversed_moves(journal.refs))),
                "git-rehearse recovery"@,
                tape,
            ))
    })
}

fn roll_refs_back(
    session: &mut Session,
    repo: &str,
    journal: &Journal,
    inspection: &Inspection,
) -> (outcome: Result<(), Stop>)
    ensures
        ran(outcome, final(session)@) == roll_refs_back_script(
            repo@,
            journal.deep_view(),
            inspection.deep_view(),
            old(session)@,
        ),
{
    proof {
        reveal(roll_refs_back_script);
    }
    let refs = state_of(session, repo)?;
    if refs_match(&refs, &journal.refs, Endpoint::Before) {
        return Ok(());
    }
    if !refs_match(&refs, &journal.refs, Endpoint::After) {
        return Err(Stop::Fail(blocked(inspection)));
    }
    match &journal.checkout {
        Some(branch) => {
            ensure_checkout(session, repo, branch)?;
            ensure_rollback_worktree(session, repo, journal)?;
        },
        None => {
            ensure_checkout_not_moved(session, repo, journal)?;
        },
    }
    let commands = every_payload(&reverse(&journal.refs));
    move_refs(session, repo, &commands, "git-rehearse recovery")
}

/// Brings the worktree back where it was, after a last look.
#[verifier::opaque]
pub open spec fn roll_worktree_back_script(
    repo: Text,
    journal: JournalModel,
    inspection: InspectionModel,
    tape: Tape,
) -> Run<()> {
    match journal.checkout {
        None => Run::Gives((), tape),
        Some(branch) => ensure_checkout_script(repo, branch, tape).and_then(
            |here: (), tape: Tape|
        state_of_script(repo, tape).and_then(|refs: Entries, tape: Tape|
        if !refs_are_at(refs, journal.refs, Endpoint::Before) {
            Run::Fails(blocked_of(inspection), tape)
        } else {
            ensure_rollback_script(repo, journal, tape).and_then(|safe: (), tape: Tape|
            worktree_matches_script(repo, journal, Endpoint::Before, tape).and_then(
                |there: bool, tape: Tape|
                    if there {
                        Run::Gives((), tape)
                    } else {
                        match journal.local_before {
                            Some(snapshot) => carry::restore_snapshot_script(
                                repo,
                                snapshot,
                                tape,
                            ),
                            None => reset_worktree_script(repo, true, tape),
                        }
                    }))
        })),
    }
}

fn roll_worktree_back(
    session: &mut Session,
    repo: &str,
    journal: &Journal,
    inspection: &Inspection,
) -> (outcome: Result<(), Stop>)
    ensures
        ran(outcome, final(session)@) == roll_worktree_back_script(
            repo@,
            journal.deep_view(),
            inspection.deep_view(),
            old(session)@,
        ),
{
    proof {
        reveal(roll_worktree_back_script);
    }
    let branch = match &journal.checkout {
        None => return Ok(()),
        Some(branch) => branch,
    };
    ensure_checkout(session, repo, branch)?;
    let refs = state_of(session, repo)?;
    if !refs_match(&refs, &journal.refs, Endpoint::Before) {
        return Err(Stop::Fail(blocked(inspection)));
    }
    ensure_rollback_worktree(session, repo, journal)?;
    if worktree_matches_journal(session, repo, journal, Endpoint::Before)? {
        return Ok(());
    }
    match &journal.local_before {
        Some(snapshot) => carry::restore_snapshot(session, repo, snapshot),
        None => reset_worktree(session, repo, true),
    }
}

/// Puts the undo record back that was there before the operation.
#[verifier::opaque]
pub open spec fn restore_previous_script(repo: Text, journal: JournalModel, tape: Tape) -> Run<()> {
    undo_matches_script(repo, journal, State::RollingBack, tape).and_then(
        |fits: bool, tape: Tape|
            if !fits {
                Run::Fails(undo_changed(), tape)
            } else {
                git_dir_script(repo, tape).and_then(|dir: Text, tape: Tape|
                    {
                        let path = inside(dir, UNDO_FILE@);
                        match journal.previous_undo {
                            Some(bytes) => atomic_bytes_script(path, bytes, tape),
                            None => present_script(path, tape).and_then(
                                |there: bool, tape: Tape|
                                    if there {
                                        do_script(Ask::RemoveFile(path), path, tape)
                                    } else {
                                        Run::Gives((), tape)
                                    },
                            ),
                        }
                    })
            },
    )
}

fn restore_previous(session: &mut Session, repo: &str, journal: &Journal) -> (outcome: Result<
    (),
    Stop,
>)
    ensures
        ran(outcome, final(session)@) == restore_previous_script(
            repo@,
            journal.deep_view(),
            old(session)@,
        ),
{
    proof {
        reveal(restore_previous_script);
    }
    if !undo_matches(session, repo, journal, State::RollingBack)? {
        return Err(Stop::Fail(undo_changed_error()));
    }
    let dir = git_dir(session, repo)?;
    let path = join_path(&dir, UNDO_FILE);
    if let Some(bytes) = &journal.previous_undo {
        return atomic_bytes(session, &path, copy_bytes(bytes));
    }
    if present(session, &path)? {
        perform(session, Request::RemoveFile(path.clone()), &path)?;
    }
    Ok(())
}

/// Removes refs one by one.
pub open spec fn delete_from(repo: Text, names: Seq<Text>, tape: Tape) -> Run<()>
    decreases names.len(),
{
    if names.len() == 0 {
        Run::Gives((), tape)
    } else {
        match git::run_script(repo, seq!["update-ref"@, "-d"@, names[0]], tape) {
            Run::Gives(output, tape) => delete_from(repo, names.drop_first(), tape),
            Run::Fails(fault, tape) => Run::Fails(fault, tape),
            Run::Asks(ask, tape) => Run::Asks(ask, tape),
        }
    }
}

/// Removes the ref of a snapshot, where there is one.
#[verifier::opaque]
pub open spec fn drop_snapshot_script(
    repo: Text,
    rehearsal: Text,
    suffix: Text,
    snapshot: Option<Text>,
    tape: Tape,
) -> Run<()> {
    match snapshot {
        None => Run::Gives((), tape),
        Some(snapshot) => git::run_script(
            repo,
            seq![
                "update-ref"@,
                "-d"@,
                "refs/rehearse/"@ + rehearsal + "-"@ + suffix,
                snapshot,
            ],
            tape,
        ).and_then(|output: Text, tape: Tape| Run::Gives((), tape)),
    }
}

/// Removes what an apply anchored.
#[verifier::opaque]
pub open spec fn remove_anchor_script(repo: Text, journal: JournalModel, tape: Tape) -> Run<()> {
    if journal.anchor.len() == 0 {
        Run::Gives((), tape)
    } else {
        git::refs_script(repo, journal.anchor, 0, tape).and_then(|refs: Entries, tape: Tape|
        delete_from(repo, names_of(refs), tape).and_then(|done: (), tape: Tape|
        drop_snapshot_script(
            repo,
            journal.rehearsal,
            "original"@,
            journal.local_before,
            tape,
        ).and_then(|done: (), tape: Tape|
            drop_snapshot_script(
                repo,
                journal.rehearsal,
                "carry"@,
                journal.worktree_after,
                tape,
            ))))
    }
}

fn drop_snapshot(
    session: &mut Session,
    repo: &str,
    rehearsal: &str,
    suffix: &str,
    snapshot: &Option<String>,
) -> (outcome: Result<(), Stop>)
    ensures
        ran(outcome, final(session)@) == drop_snapshot_script(
            repo@,
            rehearsal@,
            suffix@,
            snapshot.deep_view(),
            old(session)@,
        ),
{
    proof {
        reveal(drop_snapshot_script);
    }
    if let Some(snapshot) = snapshot {
        let name = cat4("refs/rehearse/", rehearsal, "-", suffix);
        git::run(session, repo, args4("update-ref", "-d", &name, snapshot))?;
    }
    Ok(())
}

fn remove_anchor(session: &mut Session, repo: &str, journal: &Journal) -> (outcome: Result<
    (),
    Stop,
>)
    ensures
        ran(outcome, final(session)@) == remove_anchor_script(
            repo@,
            journal.deep_view(),
            old(session)@,
        ),
{
    proof {
        reveal(remove_anchor_script);
    }
    if journal.anchor.as_str().is_empty() {
        return Ok(());
    }
    let anchored = git::refs(session, repo, &journal.anchor, 0)?;
    let ghost names = names_of(anchored.deep_view());
    let ghost start = session@;
    let mut i: usize = 0;
    assert(names.skip(0) =~= names);
    while i < anchored.len()
        invariant
            i <= names.len(),
            names == names_of(anchored.deep_view()),
            delete_from(repo@, names, start) == delete_from(
                repo@,
                names.skip(i as int),
                session@,
            ),
            remove_anchor_script(repo@, journal.deep_view(), old(session)@) == delete_from(
                repo@,
                names,
                start,
            ).and_then(|done: (), tape: Tape|
                drop_snapshot_script(
                    repo@,
                    journal.rehearsal@,
                    "original"@,
                    journal.local_before.deep_view(),
                    tape,
                ).and_then(|done: (), tape: Tape|
                    drop_snapshot_script(
                        repo@,
                        journal.rehearsal@,
                        "carry"@,
                        journal.worktree_after.deep_view(),
                        tape,
                    ))),
        decreases names.len() - i,
    {
        assert(names.skip(i as int).drop_first() =~= names.skip(i + 1));
        assert(names.skip(i as int)[0] == anchored.deep_view()[i as int].0);
        git::run(session, repo, args3("update-ref", "-d", anchored.name(i)))?;
        i = i + 1;
    }
    drop_snapshot(session, repo, &journal.rehearsal, "original", &journal.local_before)?;
    drop_snapshot(session, repo, &journal.rehearsal, "carry", &journal.worktree_after)
}

/// Takes an operation back.
#[verifier::opaque]
pub open spec fn rollback_script(
    repo: Text,
    lock: LockModel,
    journal: JournalModel,
    inspection: InspectionModel,
    tape: Tape,
) -> Run<RecoveredModel> {
    if !inspection.can_rollback {
        Run::Fails(blocked_of(inspection), tape)
    } else {
        turn_back_script(repo, lock, journal, inspection, tape).and_then(
            |journal: JournalModel, tape: Tape|
        roll_refs_back_script(repo, journal, inspection, tape).and_then(|done: (), tape: Tape|
        roll_worktree_back_script(repo, journal, inspection, tape).and_then(
            |done: (), tape: Tape|
        restore_previous_script(repo, journal, tape).and_then(|done: (), tape: Tape|
        forget_script(lock.journal_path, tape).and_then(|done: (), tape: Tape|
        remove_anchor_script(repo, journal, tape).and_then(|done: (), tape: Tape|
            Run::Gives(RecoveredModel { inspection, action: Action::Rollback }, tape)))))))
    }
}

fn rollback_locked(
    session: &mut Session,
    repo: &str,
    lock: &Lock,
    journal: Journal,
    inspection: Inspection,
) -> (outcome: Result<Recovered, Stop>)
    ensures
        ran(outcome, final(session)@) == rollback_script(
            repo@,
            lock.deep_view(),
            journal.deep_view(),
            inspection.deep_view(),
            old(session)@,
        ),
{
    proof {
        reveal(rollback_script);
    }
    if !inspection.can_rollback {
        return Err(Stop::Fail(blocked(&inspection)));
    }
    let journal = turn_back(session, repo, lock, journal, &inspection)?;
    roll_refs_back(session, repo, &journal, &inspection)?;
    roll_worktree_back(session, repo, &journal, &inspection)?;
    restore_previous(session, repo, &journal)?;
    forget_locked(session, &lock.journal_path, lock)?;
    remove_anchor(session, repo, &journal)?;
    Ok(Recovered { inspection, action: Action::Rollback })
}

pub open spec fn other_rehearsal(expected: Text) -> Fault {
    Fault::Refused(
        "the apply journal does not belong to rehearsal "@ + expected
            + "; no recovery action was done"@,
    )
}

/// Completes or rolls back what a journal records, or only looks.
#[verifier::opaque]
pub open spec fn recover_locked_script(
    repo: Text,
    lock: LockModel,
    action: Action,
    expected: Option<Text>,
    tape: Tape,
) -> Run<RecoveredModel> {
    let path = lock.journal_path;
    read_script(path, tape).and_then(|journal: JournalModel, tape: Tape|
    inspect_script(repo, journal, path, tape).and_then(
        |inspection: InspectionModel, tape: Tape|
            match expected {
                Some(expected) if !expected.is_prefix_of(journal.rehearsal) => Run::Fails(
                    other_rehearsal(expected),
                    tape,
                ),
                _ => match action {
                    Action::Inspect => Run::Gives(RecoveredModel { inspection, action }, tape),
                    Action::Complete => complete_script(repo, lock, inspection, tape),
                    Action::Rollback => rollback_script(repo, lock, journal, inspection, tape),
                },
            }))
}

fn recover_locked(
    session: &mut Session,
    repo: &str,
    lock: &Lock,
    action: Action,
    expected: Option<&str>,
) -> (outcome: Result<Recovered, Stop>)
    ensures
        ran(outcome, final(session)@) == recover_locked_script(
            repo@,
            lock.deep_view(),
            action,
            some_text(expected),
            old(session)@,
        ),
{
    proof {
        reveal(recover_locked_script);
    }
    let path = &lock.journal_path;
    let journal = read(session, path)?;
    let inspection = inspect_journal(session, repo, &journal, path)?;
    if let Some(expected) = expected {
        if !starts_with(&journal.rehearsal, expected) {
            return Err(
                Stop::Fail(
                    Error::Refused(
                        cat3(
                            "the apply journal does not belong to rehearsal ",
                            expected,
                            "; no recovery action was done",
                        ),
                    ),
                ),
            );
        }
    }
    match action {
        Action::Inspect => Ok(Recovered { inspection, action }),
        Action::Complete => complete_operation(session, repo, lock, inspection),
        Action::Rollback => rollback_locked(session, repo, lock, journal, inspection),
    }
}

pub open spec fn nothing_to_recover() -> Fault {
    Fault::Refused("no interrupted apply requires recovery; no recovery action was done"@)
}

/// Recovers from a journal, where there is one.
#[verifier::opaque]
pub open spec fn recover_there_script(
    repo: Text,
    lock: LockModel,
    action: Action,
    expected: Option<Text>,
    tape: Tape,
) -> Run<RecoveredModel> {
    let path = lock.journal_path;
    heard(Ask::Target(path), |answer: Answer| kind_in(answer), tape).and_then(
        |found: HeardModel<Kind>, tape: Tape|
            match found {
                HeardModel::Got(_) => recover_locked_script(repo, lock, action, expected, tape),
                HeardModel::Trouble(trouble) => if trouble.reason == Reason::Missing {
                    Run::Fails(nothing_to_recover(), tape)
                } else {
                    Run::Fails(Fault::Io(path, trouble.message), tape)
                },
            },
    )
}

fn recover_there(
    session: &mut Session,
    repo: &str,
    lock: &Lock,
    action: Action,
    expected: Option<&str>,
) -> (outcome: Result<Recovered, Stop>)
    ensures
        ran(outcome, final(session)@) == recover_there_script(
            repo@,
            lock.deep_view(),
            action,
            some_text(expected),
            old(session)@,
        ),
{
    proof {
        reveal(recover_there_script);
    }
    let path = &lock.journal_path;
    match session.kind(Request::Target(path.clone()))? {
        Heard::Got(_) => recover_locked(session, repo, lock, action, expected),
        Heard::Trouble(trouble) => if trouble.reason == Reason::Missing {
            Err(
                Stop::Fail(
                    Error::Refused(
                        "no interrupted apply requires recovery; no recovery action was done".to_owned(),
                    ),
                ),
            )
        } else {
            Err(Stop::Fail(Error::io(path, &trouble.message)))
        },
    }
}

/// Recovers from an interrupted operation under the lock of the repository.
pub open spec fn recover_script(
    repo: Text,
    action: Action,
    expected: Option<Text>,
    tape: Tape,
) -> Run<RecoveredModel> {
    under(
        acquire_script(repo, tape),
        |lock: LockModel, tape: Tape| recover_there_script(repo, lock, action, expected, tape),
    )
}

/// Completes or rolls back a journal, optionally insisting on a rehearsal id.
pub fn recover_for(
    session: &mut Session,
    repo: &str,
    action: Action,
    expected_rehearsal: Option<&str>,
) -> (outcome: Result<Recovered, Stop>)
    ensures
        ran(outcome, final(session)@) == recover_script(
            repo@,
            action,
            some_text(expected_rehearsal),
            old(session)@,
        ),
{
    let lock = acquire(session, repo)?;
    let outcome = recover_there(session, repo, &lock, action, expected_rehearsal);
    lock.release(session, outcome)
}

/// Completes or rolls back a journal based on observed state.
pub fn recover(session: &mut Session, repo: &str, action: Action) -> (outcome: Result<
    Recovered,
    Stop,
>)
    ensures
        ran(outcome, final(session)@) == recover_script(repo@, action, None, old(session)@),
{
    recover_for(session, repo, action, None)
}

} // verus!
