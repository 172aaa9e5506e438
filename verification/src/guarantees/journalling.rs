//! What is written down about an operation before it changes anything, and while it goes
//! on.

use vstd::prelude::*;

use crate::carry;
use crate::guarantees::continuing::{
    files_go_on, git_goes_on, inspecting_goes_on, journalling_goes_on, matching_goes_on,
    weighing_goes_on,
};
use crate::guarantees::conversation::{
    continues, going_on_adds_up, is_complete, left_by, requests_are_exchanges, was_asked,
};
use crate::guarantees::resuming::was_replaced;
use crate::recovery::compare::git_dir_script;
use crate::recovery::journal::{
    atomic_bytes_script, checksum_script, encode_script, publish_script, read_script,
    remove_script, sync_parent_script, write_exclusive_script, write_owned_script, JournalModel,
    LockModel,
};
use crate::recovery::state::Phase;
use crate::recovery::{
    ensure_anchor_free_script, ensure_clear_locked_script, local_before_script, path_script,
    prepare_operation_script, previous_undo_script, remove_undo_script, set_worktree_after_script,
    settle_script, update_phase_script, write_phase_script, IntentModel,
};
use crate::session::{Answer, Ask, Run, Tape};
use crate::text::Text;
use crate::undo::record::without_head;

verus! {

/// Whether a journal was published under a name that nothing had, beginning with request
/// number `i`: its document was written to a fresh file, and that was linked to the name.
pub open spec fn was_published(
    path: Text,
    journal: JournalModel,
    tape: Tape,
    later: Tape,
    i: int,
) -> bool {
    &&& tape.next <= i
    &&& i + 5 < later.next
    &&& later.asks[i + 2] matches Ask::EncodeStored(stored) && stored.journal == journal
    &&& later.log[i + 2] matches Answer::Bytes(bytes) && (
    later.log[i + 3] matches Answer::Text(temporary) && later.asks[i + 4] == Ask::WriteSynced(
        temporary,
        bytes,
    ) && later.asks[i + 5] == Ask::HardLink(temporary, path))
    &&& later.log[i + 4] is Done
    &&& later.log[i + 5] is Done
}

/// Whether a journal describes an operation that is about to begin.
pub open spec fn describes(journal: JournalModel, intent: IntentModel) -> bool {
    &&& journal.schema == 1
    &&& journal.phase == Phase::Prepared
    &&& journal.operation == intent.operation
    &&& journal.rehearsal == intent.rehearsal
    &&& journal.checkout == intent.checkout
    &&& journal.refs == without_head(intent.moved)
    &&& journal.anchor == intent.anchor
    &&& journal.worktree_before == intent.worktree_before
    &&& journal.worktree_after is None
    &&& journal.expected_undo == intent.expected_undo
    &&& journal.rollback_undo is None
    &&& intent.checkout is None ==> journal.local_before is None
}

proof fn publishing_is_told(path: Text, journal: JournalModel, tape: Tape)
    requires
        is_complete(tape),
    ensures
        write_exclusive_script(path, journal, tape) matches Run::Gives(_, later) ==> continues(
            later,
            tape,
        ) && was_published(path, journal, tape, later, tape.next),
{
    going_on_adds_up();
    requests_are_exchanges();
    reveal(write_exclusive_script);
    reveal(encode_script);
    reveal(checksum_script);
    reveal(publish_script);
    reveal(sync_parent_script);
    reveal(continues);
}

proof fn clearing_the_way_goes_on(repo: Text, lock: LockModel, tape: Tape)
    requires
        is_complete(tape),
    ensures
        continues(left_by(ensure_clear_locked_script(repo, lock, tape)), tape),
{
    going_on_adds_up();
    git_goes_on();
    files_go_on();
    journalling_goes_on();
    inspecting_goes_on();
    weighing_goes_on();
    reveal(ensure_clear_locked_script);
    reveal(path_script);
    reveal(git_dir_script);
    reveal(settle_script);
    reveal(remove_undo_script);
    reveal(remove_script);
    reveal(sync_parent_script);
}

proof fn collecting_goes_on(
    repo: Text,
    anchor: Text,
    rehearsal: Text,
    checkout: Option<Text>,
    tape: Tape,
)
    requires
        is_complete(tape),
    ensures
        continues(left_by(ensure_anchor_free_script(repo, anchor, tape)), tape),
        continues(left_by(previous_undo_script(repo, tape)), tape),
        continues(left_by(local_before_script(repo, rehearsal, checkout, tape)), tape),
        checkout is None ==> local_before_script(repo, rehearsal, checkout, tape) == Run::Gives(
            None::<Text>,
            tape,
        ),
{
    going_on_adds_up();
    git_goes_on();
    files_go_on();
    matching_goes_on();
    reveal(ensure_anchor_free_script);
    reveal(previous_undo_script);
    reveal(git_dir_script);
    reveal(local_before_script);
    reveal(carry::snapshot_script);
}

/// Whether a journal that describes an operation was published.
pub open spec fn was_written_down(
    path: Text,
    intent: IntentModel,
    tape: Tape,
    later: Tape,
) -> bool {
    exists|journal: JournalModel, i: int|
        describes(journal, intent) && #[trigger] was_published(path, journal, tape, later, i)
}

/// What is about to happen is written down before it happens: an operation is prepared
/// only once a journal is published that describes it.
pub proof fn what_is_about_to_happen_is_written_down(
    repo: Text,
    lock: LockModel,
    intent: IntentModel,
    tape: Tape,
)
    requires
        is_complete(tape),
    ensures
        prepare_operation_script(repo, lock, intent, tape) matches Run::Gives(path, later) ==> path
            == lock.journal_path && was_written_down(path, intent, tape, later),
{
    going_on_adds_up();
    reveal(prepare_operation_script);
    clearing_the_way_goes_on(repo, lock, tape);
    let t1 = left_by(ensure_clear_locked_script(repo, lock, tape));
    collecting_goes_on(repo, intent.anchor, intent.rehearsal, intent.checkout, t1);
    let t2 = left_by(ensure_anchor_free_script(repo, intent.anchor, t1));
    collecting_goes_on(repo, intent.anchor, intent.rehearsal, intent.checkout, t2);
    if let Run::Gives(previous, t3) = previous_undo_script(repo, t2) {
        collecting_goes_on(repo, intent.anchor, intent.rehearsal, intent.checkout, t3);
        if let Run::Gives(local, t4) = local_before_script(
            repo,
            intent.rehearsal,
            intent.checkout,
            t3,
        ) {
            assert(continues(t4, tape));
            let journal = crate::recovery::journal_of(repo, intent, previous, local);
            let path = lock.journal_path;
            publishing_is_told(path, journal, t4);
            if let Run::Gives(_, later) = prepare_operation_script(repo, lock, intent, tape) {
                reveal(continues);
                assert(describes(journal, intent));
                assert(was_published(path, journal, tape, later, t4.next));
            }
        }
    }
}

/// Whether the journal in a file was read from request number `i` on, was whole, and said
/// this.
pub open spec fn journal_was_read(
    path: Text,
    journal: JournalModel,
    tape: Tape,
    later: Tape,
    i: int,
) -> bool {
    &&& was_asked(Ask::ReadText(path), tape, later, i)
    &&& later.log[i] matches Answer::Text(text) && was_asked(
        Ask::DecodeJournal(text),
        tape,
        later,
        i + 1,
    )
    &&& later.log[i + 1] matches Answer::Journal(stored) && stored.journal == journal
    &&& was_asked(Ask::EncodeJournal(journal), tape, later, i + 2)
}

/// Whether a journal took the place of the one in a file, beginning with request number
/// `i`.
pub open spec fn journal_was_replaced(
    path: Text,
    journal: JournalModel,
    tape: Tape,
    later: Tape,
    i: int,
) -> bool {
    &&& tape.next <= i
    &&& later.asks[i + 2] matches Ask::EncodeStored(stored) && stored.journal == journal
    &&& later.log[i + 2] matches Answer::Bytes(bytes) && was_replaced(
        path,
        bytes,
        tape,
        later,
        i + 4,
    )
}

proof fn reading_is_told(path: Text, tape: Tape)
    requires
        is_complete(tape),
    ensures
        read_script(path, tape) matches Run::Gives(journal, later) ==> continues(later, tape)
            && later.next == tape.next + 4 && journal_was_read(
            path,
            journal,
            tape,
            later,
            tape.next,
        ),
{
    going_on_adds_up();
    requests_are_exchanges();
    reveal(read_script);
    reveal(checksum_script);
    reveal(continues);
}

proof fn replacing_is_told(path: Text, lock: LockModel, journal: JournalModel, tape: Tape)
    requires
        is_complete(tape),
    ensures
        write_owned_script(path, lock, journal, tape) matches Run::Gives(_, later) ==> continues(
            later,
            tape,
        ) && journal_was_replaced(path, journal, tape, later, tape.next),
{
    going_on_adds_up();
    requests_are_exchanges();
    reveal(write_owned_script);
    reveal(encode_script);
    reveal(checksum_script);
    reveal(atomic_bytes_script);
    reveal(sync_parent_script);
    reveal(continues);
}

/// A journal that gets further is the one that was there, but for how far it got.
pub proof fn a_journal_that_gets_further_keeps_the_rest(
    path: Text,
    lock: LockModel,
    phase: Phase,
    tape: Tape,
)
    requires
        is_complete(tape),
    ensures
        update_phase_script(path, lock, phase, tape) matches Run::Gives(_, later) ==> exists|
            journal: JournalModel,
        | #[trigger]
            journal_was_read(path, journal, tape, later, tape.next) && journal_was_replaced(
                path,
                JournalModel { phase, ..journal },
                tape,
                later,
                tape.next + 4,
            ),
{
    going_on_adds_up();
    reveal(update_phase_script);
    reveal(write_phase_script);
    reading_is_told(path, tape);
    if let Run::Gives(journal, t1) = read_script(path, tape) {
        replacing_is_told(path, lock, JournalModel { phase, ..journal }, t1);
        if let Run::Gives(_, later) = update_phase_script(path, lock, phase, tape) {
            journals_stay_read(path, journal, tape, t1, later);
            reveal(continues);
        }
    }
}

/// So is one that says where the worktree ends.
pub proof fn a_journal_with_a_result_keeps_the_rest(
    path: Text,
    lock: LockModel,
    result: Option<Text>,
    tape: Tape,
)
    requires
        is_complete(tape),
    ensures
        set_worktree_after_script(path, lock, result, tape) matches Run::Gives(_, later) ==> exists|
            journal: JournalModel,
        | #[trigger]
            journal_was_read(path, journal, tape, later, tape.next) && journal_was_replaced(
                path,
                JournalModel { worktree_after: result, ..journal },
                tape,
                later,
                tape.next + 4,
            ),
{
    going_on_adds_up();
    reveal(set_worktree_after_script);
    reading_is_told(path, tape);
    if let Run::Gives(journal, t1) = read_script(path, tape) {
        replacing_is_told(path, lock, JournalModel { worktree_after: result, ..journal }, t1);
        if let Run::Gives(_, later) = set_worktree_after_script(path, lock, result, tape) {
            journals_stay_read(path, journal, tape, t1, later);
            reveal(continues);
        }
    }
}

proof fn journals_stay_read(
    path: Text,
    journal: JournalModel,
    tape: Tape,
    mid: Tape,
    later: Tape,
)
    requires
        continues(mid, tape),
        continues(later, mid),
        journal_was_read(path, journal, tape, mid, tape.next),
    ensures
        journal_was_read(path, journal, tape, later, tape.next),
{
    reveal(continues);
    assert(later.asks[tape.next] == mid.asks[tape.next]);
    assert(later.asks[tape.next + 1] == mid.asks[tape.next + 1]);
    assert(later.asks[tape.next + 2] == mid.asks[tape.next + 2]);
}

} // verus!
