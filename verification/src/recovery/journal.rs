//! The durable description of an apply in flight, and the lock on it.

use vstd::prelude::*;

use crate::analyze::{RefMove, RefMoveModel};
use crate::compose::{args2, cat2, cat3, cat4};
use crate::error::{Error, Fault};
use crate::files::{do_script, or_fail, or_io, perform, read_text, read_text_script};
use crate::git;
use crate::number::{decimal, show};
use crate::paths::{
    display, displayed, is_same_path, parent, parent_of, same_path, with_extension,
    with_extension_of,
};
use crate::recovery::state::Phase;
use crate::session::{
    bytes_in, copy_bytes, done_in, heard, journal_in, number_in, ran, text_in, Answer, Ask, Heard,
    HeardModel, Reason, Request, Run, Session, Stop, Tape,
};
use crate::text::{copy_text, put, same, Text};

verus! {

/// Version of the journal document.
pub const JOURNAL_SCHEMA: u32 = 1;

/// The original mutation whose completion or rollback recovery controls.
#[derive(Debug, Clone, Copy, PartialEq, Eq, Structural)]
pub enum Operation {
    /// Transplant the rehearsed result into the repository.
    Apply,
    /// Restore the refs saved by the previous apply.
    Undo,
}

impl DeepView for Operation {
    type V = Operation;

    open spec fn deep_view(&self) -> Operation {
        *self
    }
}

/// How an operation is spelled.
pub open spec fn operation_name(operation: Operation) -> Text {
    match operation {
        Operation::Apply => "apply"@,
        Operation::Undo => "undo"@,
    }
}

impl Operation {
    /// How the operation is spelled.
    pub fn name(self) -> (name: &'static str)
        ensures
            name@ == operation_name(self),
    {
        match self {
            Operation::Apply => "apply",
            Operation::Undo => "undo",
        }
    }
}

/// What an operation is about to do, in the form that lets it be finished or
/// taken back.
#[derive(Debug)]
pub struct Journal {
    /// See [`JOURNAL_SCHEMA`].
    pub schema: u32,
    /// The rehearsal that is applied or whose apply is undone.
    pub rehearsal: String,
    /// The repository.
    pub origin: String,
    /// The branch whose worktree follows, if any.
    pub checkout: Option<String>,
    /// The refs that move.
    pub refs: Vec<RefMove>,
    /// The namespace the rehearsed commits are parked in, empty for an undo.
    pub anchor: String,
    /// The commit that index and worktree were at.
    pub worktree_before: String,
    /// The carried work that the worktree ends at, if any.
    pub worktree_after: Option<String>,
    /// The snapshot of uncommitted work before the operation, if any.
    pub local_before: Option<String>,
    /// The undo record that was there before.
    pub previous_undo: Option<Vec<u8>>,
    /// The undo record that the operation writes.
    pub expected_undo: Option<Vec<u8>>,
    /// The undo record that was there when a rollback began.
    pub rollback_undo: Option<Vec<u8>>,
    /// What kind of operation this is.
    pub operation: Operation,
    /// How far it got.
    pub phase: Phase,
}

/// The model of a [`Journal`].
pub struct JournalModel {
    pub schema: u32,
    pub rehearsal: Text,
    pub origin: Text,
    pub checkout: Option<Text>,
    pub refs: Seq<RefMoveModel>,
    pub anchor: Text,
    pub worktree_before: Text,
    pub worktree_after: Option<Text>,
    pub local_before: Option<Text>,
    pub previous_undo: Option<Seq<u8>>,
    pub expected_undo: Option<Seq<u8>>,
    pub rollback_undo: Option<Seq<u8>>,
    pub operation: Operation,
    pub phase: Phase,
}

/// The bytes that may be there.
pub open spec fn bytes_view(bytes: Option<Vec<u8>>) -> Option<Seq<u8>> {
    match bytes {
        Some(bytes) => Some(bytes@),
        None => None,
    }
}

impl DeepView for Journal {
    type V = JournalModel;

    open spec fn deep_view(&self) -> JournalModel {
        JournalModel {
            schema: self.schema,
            rehearsal: self.rehearsal@,
            origin: self.origin@,
            checkout: self.checkout.deep_view(),
            refs: self.refs.deep_view(),
            anchor: self.anchor@,
            worktree_before: self.worktree_before@,
            worktree_after: self.worktree_after.deep_view(),
            local_before: self.local_before.deep_view(),
            previous_undo: bytes_view(self.previous_undo),
            expected_undo: bytes_view(self.expected_undo),
            rollback_undo: bytes_view(self.rollback_undo),
            operation: self.operation,
            phase: self.phase,
        }
    }
}

/// A journal with the checksum it was stored with.
#[derive(Debug)]
pub struct StoredJournal {
    pub journal: Journal,
    pub checksum: String,
}

/// The model of a [`StoredJournal`].
pub struct StoredModel {
    pub journal: JournalModel,
    pub checksum: Text,
}

impl DeepView for StoredJournal {
    type V = StoredModel;

    open spec fn deep_view(&self) -> StoredModel {
        StoredModel { journal: self.journal.deep_view(), checksum: self.checksum@ }
    }
}

fn copy_some_bytes(bytes: &Option<Vec<u8>>) -> (copy: Option<Vec<u8>>)
    ensures
        bytes_view(copy) == bytes_view(*bytes),
{
    match bytes {
        Some(bytes) => Some(copy_bytes(bytes)),
        None => None,
    }
}

/// The same moves in a list of their own.
pub fn copy_moves(moves: &Vec<RefMove>) -> (copy: Vec<RefMove>)
    ensures
        copy.deep_view() == moves.deep_view(),
{
    let mut copy: Vec<RefMove> = Vec::new();
    let mut i: usize = 0;
    assert(copy.deep_view() =~= moves.deep_view().take(0));
    while i < moves.len()
        invariant
            i <= moves@.len(),
            copy.deep_view() == moves.deep_view().take(i as int),
        decreases moves@.len() - i,
    {
        put(&mut copy, moves[i].copy());
        i = i + 1;
        assert(moves.deep_view().take(i as int) =~= moves.deep_view().take(i - 1).push(
            moves[i - 1].deep_view(),
        ));
    }
    assert(moves.deep_view().take(moves@.len() as int) =~= moves.deep_view());
    copy
}

impl Journal {
    /// An equal journal.
    pub fn copy(&self) -> (journal: Journal)
        ensures
            journal.deep_view() == self.deep_view(),
    {
        Journal {
            schema: self.schema,
            rehearsal: self.rehearsal.clone(),
            origin: self.origin.clone(),
            checkout: copy_text(&self.checkout),
            refs: copy_moves(&self.refs),
            anchor: self.anchor.clone(),
            worktree_before: self.worktree_before.clone(),
            worktree_after: copy_text(&self.worktree_after),
            local_before: copy_text(&self.local_before),
            previous_undo: copy_some_bytes(&self.previous_undo),
            expected_undo: copy_some_bytes(&self.expected_undo),
            rollback_undo: copy_some_bytes(&self.rollback_undo),
            operation: self.operation,
            phase: self.phase,
        }
    }
}

impl StoredJournal {
    /// An equal stored journal.
    pub fn copy(&self) -> (stored: StoredJournal)
        ensures
            stored.deep_view() == self.deep_view(),
    {
        StoredJournal { journal: self.journal.copy(), checksum: self.checksum.clone() }
    }
}

// ---------------------------------------------------------------------------
// The lock
// ---------------------------------------------------------------------------
/// Exclusive ownership of a repository's recovery state. The lock is on a stable
/// file that is never renamed or removed, and whoever took it lets go of it with
/// a request of its own.
#[derive(Debug)]
pub struct Lock {
    pub journal_path: String,
}

/// The model of a [`Lock`].
pub struct LockModel {
    pub journal_path: Text,
}

impl DeepView for Lock {
    type V = LockModel;

    open spec fn deep_view(&self) -> LockModel {
        LockModel { journal_path: self.journal_path@ }
    }
}

/// Where the lock of a journal is.
pub open spec fn lock_path_of(journal_path: Text) -> Text {
    with_extension_of(journal_path, "lock"@)
}

pub open spec fn lock_taken(lock_path: Text) -> Fault {
    Fault::Refused(
        "apply recovery is blocked: another process owns the live apply journal at "@ + displayed(
            lock_path,
        )
            + "; no repository mutation was performed"@,
    )
}

/// Takes the lock of a journal.
#[verifier::opaque]
pub open spec fn for_journal_script(journal_path: Text, tape: Tape) -> Run<LockModel> {
    let lock_path = lock_path_of(journal_path);
    heard(Ask::Lock(lock_path), |answer: Answer| done_in(answer), tape).and_then(
        |taken: HeardModel<()>, tape: Tape|
            match taken {
                HeardModel::Got(_) => Run::Gives(LockModel { journal_path }, tape),
                HeardModel::Trouble(trouble) => if trouble.reason == Reason::Busy {
                    Run::Fails(lock_taken(lock_path), tape)
                } else {
                    Run::Fails(Fault::Io(lock_path, trouble.message), tape)
                },
            },
    )
}

impl Lock {
    /// Takes the lock of a journal.
    pub fn for_journal(session: &mut Session, journal_path: &str) -> (outcome: Result<Lock, Stop>)
        ensures
            ran(outcome, final(session)@) == for_journal_script(journal_path@, old(session)@),
    {
        proof {
            reveal(for_journal_script);
        }
        let lock_path = with_extension(journal_path, "lock");
        match session.done(Request::Lock(lock_path.clone()))? {
            Heard::Got(_) => Ok(Lock { journal_path: journal_path.to_owned() }),
            Heard::Trouble(trouble) => if trouble.reason == Reason::Busy {
                Err(
                    Stop::Fail(
                        Error::Refused(
                            cat3(
                                "apply recovery is blocked: another process owns the live apply journal at ",
                                &display(&lock_path),
                                "; no repository mutation was performed",
                            ),
                        ),
                    ),
                )
            } else {
                Err(Stop::Fail(Error::Io(lock_path, trouble.message)))
            },
        }
    }

    /// Lets go of the lock, whatever came out of what was done under it.
    pub fn release<T: DeepView>(self, session: &mut Session, outcome: Result<T, Stop>) -> (result:
        Result<T, Stop>)
        ensures
            ran(result, final(session)@) == ran(outcome, old(session)@).closing(
                Ask::Unlock(lock_path_of(self.journal_path@)),
            ),
    {
        session.close(Request::Unlock(with_extension(&self.journal_path, "lock")), outcome)
    }
}

// ---------------------------------------------------------------------------
// Reading
// ---------------------------------------------------------------------------
pub open spec fn not_built(why: Text) -> Fault {
    Fault::Sandbox("could not build apply journal: "@ + why)
}

/// The directory that git runs in for a file.
pub open spec fn directory_of(path: Text) -> Text {
    match parent_of(path) {
        Some(parent) => parent,
        None => "."@,
    }
}

fn directory(path: &str) -> (dir: String)
    ensures
        dir@ == directory_of(path@),
{
    match parent(path) {
        Some(parent) => parent,
        None => ".".to_owned(),
    }
}

/// The checksum of a journal: git's own digest of its document. No object is
/// written for it.
#[verifier::opaque]
pub open spec fn checksum_script(path: Text, journal: JournalModel, tape: Tape) -> Run<Text> {
    heard(Ask::EncodeJournal(journal), |answer: Answer| text_in(answer), tape).and_then(
        |encoded: HeardModel<Text>, tape: Tape|
            match encoded {
                HeardModel::Trouble(trouble) => Run::Fails(not_built(trouble.message), tape),
                HeardModel::Got(text) => git::run_with_stdin_script(
                    directory_of(path),
                    seq!["hash-object"@, "--stdin"@],
                    text,
                    tape,
                ),
            },
    )
}

fn checksum(session: &mut Session, path: &str, journal: &Journal) -> (outcome: Result<String, Stop>)
    ensures
        ran(outcome, final(session)@) == checksum_script(
            path@,
            journal.deep_view(),
            old(session)@,
        ),
{
    proof {
        reveal(checksum_script);
    }
    match session.text(Request::EncodeJournal(journal.copy()))? {
        Heard::Trouble(trouble) => Err(
            Stop::Fail(
                Error::Sandbox(cat2("could not build apply journal: ", &trouble.message)),
            ),
        ),
        Heard::Got(text) => {
            let dir = directory(path);
            git::run_with_stdin(session, &dir, args2("hash-object", "--stdin"), &text)
        },
    }
}

pub open spec fn damaged(path: Text, why: Text) -> Fault {
    Fault::Refused(
        displayed(path) + " is a damaged apply journal: "@ + why
            + "; recovery is blocked and the file will not be overwritten"@,
    )
}

pub open spec fn damaged_checksum(path: Text) -> Fault {
    Fault::Refused(
        displayed(path)
            + " has a damaged apply journal checksum; recovery is blocked and the file will not be overwritten"@,
    )
}

/// The journal in a file. One that does not match its checksum is refused.
#[verifier::opaque]
pub open spec fn read_script(path: Text, tape: Tape) -> Run<JournalModel> {
    or_io(read_text_script(path, tape), path).and_then(|text: Text, tape: Tape|
    heard(Ask::DecodeJournal(text), |answer: Answer| journal_in(answer), tape).and_then(
        |decoded: HeardModel<StoredModel>, tape: Tape|
            match decoded {
                HeardModel::Trouble(trouble) => Run::Fails(damaged(path, trouble.message), tape),
                HeardModel::Got(stored) => checksum_script(path, stored.journal, tape).and_then(
                    |checksum: Text, tape: Tape|
                        if checksum == stored.checksum {
                            Run::Gives(stored.journal, tape)
                        } else {
                            Run::Fails(damaged_checksum(path), tape)
                        },
                ),
            }))
}

/// The journal in a file. One that does not match its checksum is refused.
pub fn read(session: &mut Session, path: &str) -> (outcome: Result<Journal, Stop>)
    ensures
        ran(outcome, final(session)@) == read_script(path@, old(session)@),
{
    proof {
        reveal(read_script);
    }
    let found = read_text(session, path)?;
    let text = or_fail(found, path)?;
    match session.journal(Request::DecodeJournal(text))? {
        Heard::Trouble(trouble) => Err(
            Stop::Fail(
                Error::Refused(
                    cat4(
                        &display(path),
                        " is a damaged apply journal: ",
                        &trouble.message,
                        "; recovery is blocked and the file will not be overwritten",
                    ),
                ),
            ),
        ),
        Heard::Got(stored) => {
            let sum = checksum(session, path, &stored.journal)?;
            if same(&sum, &stored.checksum) {
                Ok(stored.journal)
            } else {
                Err(
                    Stop::Fail(
                        Error::Refused(
                            cat2(
                                &display(path),
                                " has a damaged apply journal checksum; recovery is blocked and the file will not be overwritten",
                            ),
                        ),
                    ),
                )
            }
        },
    }
}

// ---------------------------------------------------------------------------
// Writing
// ---------------------------------------------------------------------------
/// The document of a journal with its checksum.
#[verifier::opaque]
pub open spec fn encode_script(path: Text, journal: JournalModel, tape: Tape) -> Run<Seq<u8>> {
    checksum_script(path, journal, tape).and_then(|checksum: Text, tape: Tape|
    heard(
        Ask::EncodeStored(StoredModel { journal, checksum }),
        |answer: Answer| bytes_in(answer),
        tape,
    ).and_then(
        |encoded: HeardModel<Seq<u8>>, tape: Tape|
            match encoded {
                HeardModel::Trouble(trouble) => Run::Fails(not_built(trouble.message), tape),
                HeardModel::Got(bytes) => Run::Gives(bytes, tape),
            }))
}

fn encode(session: &mut Session, path: &str, journal: &Journal) -> (outcome: Result<Vec<u8>, Stop>)
    ensures
        ran(outcome, final(session)@) == encode_script(path@, journal.deep_view(), old(session)@),
{
    proof {
        reveal(encode_script);
    }
    let checksum = checksum(session, path, journal)?;
    match session.bytes(
        Request::EncodeStored(StoredJournal { journal: journal.copy(), checksum }),
    )? {
        Heard::Trouble(trouble) => Err(
            Stop::Fail(
                Error::Sandbox(cat2("could not build apply journal: ", &trouble.message)),
            ),
        ),
        Heard::Got(bytes) => Ok(bytes),
    }
}

/// Flushes the directory entry of a file that was published or removed.
#[verifier::opaque]
pub open spec fn sync_parent_script(path: Text, tape: Tape) -> Run<()> {
    match parent_of(path) {
        Some(parent) => do_script(Ask::SyncDir(parent), parent, tape),
        None => Run::Gives((), tape),
    }
}

fn sync_parent_directory(session: &mut Session, path: &str) -> (outcome: Result<(), Stop>)
    ensures
        ran(outcome, final(session)@) == sync_parent_script(path@, old(session)@),
{
    proof {
        reveal(sync_parent_script);
    }
    match parent(path) {
        Some(parent) => perform(session, Request::SyncDir(parent.clone()), &parent),
        None => Ok(()),
    }
}

/// Where the bytes stand before they are published: a name of this process's
/// own.
pub open spec fn temporary_of(path: Text, process: u64) -> Text {
    with_extension_of(path, "tmp-"@ + decimal(process as nat))
}

/// Replaces a file in one step, after its bytes are on the disk.
#[verifier::opaque]
pub open spec fn atomic_bytes_script(path: Text, bytes: Seq<u8>, tape: Tape) -> Run<()> {
    or_io(heard(Ask::ProcessId, |answer: Answer| number_in(answer), tape), path).and_then(
        |process: u64, tape: Tape|
            {
                let tmp = temporary_of(path, process);
                do_script(Ask::WriteSynced(tmp, bytes), tmp, tape).and_then(
                    |done: (), tape: Tape|
                        do_script(Ask::Rename(tmp, path), path, tape).and_then(
                            |done: (), tape: Tape| sync_parent_script(path, tape),
                        ),
                )
            },
    )
}

/// Replaces a file in one step, after its bytes are on the disk.
pub fn atomic_bytes(session: &mut Session, path: &str, bytes: Vec<u8>) -> (outcome: Result<
    (),
    Stop,
>)
    ensures
        ran(outcome, final(session)@) == atomic_bytes_script(path@, bytes@, old(session)@),
{
    proof {
        reveal(atomic_bytes_script);
    }
    let answer = session.number(Request::ProcessId)?;
    let process = or_fail(answer, path)?;
    let tmp = with_extension(path, &cat2("tmp-", &show(process)));
    perform(session, Request::WriteSynced(tmp.clone(), bytes), &tmp)?;
    perform(session, Request::Rename(tmp, path.to_owned()), path)?;
    sync_parent_directory(session, path)
}

/// Publishes the bytes of a fresh file under a name that nothing has yet.
#[verifier::opaque]
pub open spec fn publish_script(temp: Text, path: Text, bytes: Seq<u8>, tape: Tape) -> Run<()> {
    do_script(Ask::WriteSynced(temp, bytes), temp, tape).and_then(|done: (), tape: Tape|
    do_script(Ask::HardLink(temp, path), path, tape).and_then(|done: (), tape: Tape|
        sync_parent_script(path, tape)))
}

fn publish(session: &mut Session, temp: &str, path: &str, bytes: Vec<u8>) -> (outcome: Result<
    (),
    Stop,
>)
    ensures
        ran(outcome, final(session)@) == publish_script(temp@, path@, bytes@, old(session)@),
{
    proof {
        reveal(publish_script);
    }
    perform(session, Request::WriteSynced(temp.to_owned(), bytes), temp)?;
    perform(session, Request::HardLink(temp.to_owned(), path.to_owned()), path)?;
    sync_parent_directory(session, path)
}

/// Publishes a journal where there is none: it either creates the final name or
/// leaves the existing journal untouched.
#[verifier::opaque]
pub open spec fn write_exclusive_script(path: Text, journal: JournalModel, tape: Tape) -> Run<()> {
    encode_script(path, journal, tape).and_then(|bytes: Seq<u8>, tape: Tape|
    or_io(
        heard(
            Ask::TempFile(directory_of(path), ".rehearse-apply-"@),
            |answer: Answer| text_in(answer),
            tape,
        ),
        directory_of(path),
    ).and_then(|temp: Text, tape: Tape|
        publish_script(temp, path, bytes, tape).closing(Ask::DropTemp(temp))))
}

/// Publishes a journal where there is none: it either creates the final name or
/// leaves the existing journal untouched.
pub fn write_atomic_exclusive(session: &mut Session, path: &str, journal: &Journal) -> (outcome:
    Result<(), Stop>)
    ensures
        ran(outcome, final(session)@) == write_exclusive_script(
            path@,
            journal.deep_view(),
            old(session)@,
        ),
{
    proof {
        reveal(write_exclusive_script);
    }
    let bytes = encode(session, path, journal)?;
    assert(bytes.deep_view() =~= bytes@);
    let parent = directory(path);
    let answer = session.text(Request::TempFile(parent.clone(), ".rehearse-apply-".to_owned()))?;
    let temp = or_fail(answer, &parent)?;
    let outcome = publish(session, &temp, path, bytes);
    session.close(Request::DropTemp(temp), outcome)
}

pub open spec fn ownership_changed(path: Text) -> Fault {
    Fault::Refused(
        "apply recovery is blocked: journal ownership at "@ + displayed(path)
            + " changed; no repository mutation was performed"@,
    )
}

/// Replaces a journal whose lock is held.
#[verifier::opaque]
pub open spec fn write_owned_script(
    path: Text,
    lock: LockModel,
    journal: JournalModel,
    tape: Tape,
) -> Run<()> {
    if !is_same_path(lock.journal_path, path) {
        Run::Fails(ownership_changed(path), tape)
    } else {
        encode_script(path, journal, tape).and_then(|bytes: Seq<u8>, tape: Tape|
            atomic_bytes_script(path, bytes, tape))
    }
}

/// Replaces a journal whose lock is held.
pub fn write_owned(session: &mut Session, path: &str, lock: &Lock, journal: &Journal) -> (outcome:
    Result<(), Stop>)
    ensures
        ran(outcome, final(session)@) == write_owned_script(
            path@,
            lock.deep_view(),
            journal.deep_view(),
            old(session)@,
        ),
{
    proof {
        reveal(write_owned_script);
    }
    if !same_path(&lock.journal_path, path) {
        return Err(
            Stop::Fail(
                Error::Refused(
                    cat3(
                        "apply recovery is blocked: journal ownership at ",
                        &display(path),
                        " changed; no repository mutation was performed",
                    ),
                ),
            ),
        );
    }
    let bytes = encode(session, path, journal)?;
    assert(bytes.deep_view() =~= bytes@);
    atomic_bytes(session, path, bytes)
}

/// Removes a journal for good.
#[verifier::opaque]
pub open spec fn remove_script(path: Text, tape: Tape) -> Run<()> {
    do_script(Ask::RemoveFile(path), path, tape).and_then(|done: (), tape: Tape|
        sync_parent_script(path, tape))
}

/// Removes a journal for good.
pub fn remove_journal(session: &mut Session, path: &str) -> (outcome: Result<(), Stop>)
    ensures
        ran(outcome, final(session)@) == remove_script(path@, old(session)@),
{
    proof {
        reveal(remove_script);
    }
    perform(session, Request::RemoveFile(path.to_owned()), path)?;
    sync_parent_directory(session, path)
}

} // verus!
