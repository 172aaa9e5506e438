//! What recovery promises, whatever it finds.

use vstd::prelude::*;

use crate::analyze::RefMoveModel;
use crate::files::{do_script, present_script, read_bytes_script};
use crate::git;
use crate::guarantees::moves_refs;
use crate::paths::is_same_path;
use crate::recovery::compare::git_dir_script;
use crate::recovery::journal::{
    atomic_bytes_script, checksum_script, encode_script, read_script, sync_parent_script,
    write_owned_script, JournalModel, LockModel,
};
use crate::recovery::observe::{
    blocked_of, inspect_script, read_undo_script, refs_are_at, InspectionModel,
};
use crate::recovery::state::{Endpoint, Phase, State};
use crate::recovery::{
    complete_script, ensure_clear_locked_script, path_script, recover_locked_script,
    roll_refs_back_script, rollback_script, settle_script, turn_back_script, write_phase_script,
    Action, RecoveredModel,
};
use crate::refcommands::{
    are_distinct, commands_of, every_command_of, reversed_moves, there_and_back, transacted,
};
use crate::session::{Ask, Run, Tape};
use crate::text::Text;

verus! {

/// An inspection offers only what it knows: completion where the refs have
/// landed and the worktree has not followed, rollback never from an ambiguous
/// state.
pub proof fn inspections_offer_only_what_is_known(
    repo: Text,
    journal: JournalModel,
    path: Text,
    tape: Tape,
    inspection: InspectionModel,
    after: Tape,
)
    requires
        inspect_script(repo, journal, path, tape) == Run::Gives(inspection, after),
    ensures
        inspection.can_complete ==> inspection.state == State::AfterRefChange,
        inspection.can_rollback ==> inspection.state != State::Ambiguous,
        inspection.phase == journal.phase,
        inspection.rehearsal == journal.rehearsal,
        inspection.operation == journal.operation,
{
    reveal(inspect_script);
}

/// An ambiguous state blocks recovery: neither completion nor rollback asks for
/// anything more, and the refusal says what was seen.
pub proof fn ambiguous_states_are_left_alone(
    repo: Text,
    lock: LockModel,
    action: Action,
    tape: Tape,
    journal: JournalModel,
    inspection: InspectionModel,
    after_read: Tape,
    after: Tape,
)
    requires
        action != Action::Inspect,
        read_script(lock.journal_path, tape) == Run::Gives(journal, after_read),
        inspect_script(repo, journal, lock.journal_path, after_read) == Run::Gives(
            inspection,
            after,
        ),
        inspection.state == State::Ambiguous,
    ensures
        recover_locked_script(repo, lock, action, None, tape) == Run::<RecoveredModel>::Fails(
            blocked_of(inspection),
            after,
        ),
{
    reveal(recover_locked_script);
    reveal(complete_script);
    reveal(rollback_script);
    inspections_offer_only_what_is_known(
        repo,
        journal,
        lock.journal_path,
        after_read,
        inspection,
        after,
    );
}

/// Looking changes nothing: a query ends with the inspection, and asks for
/// nothing after it.
pub proof fn looking_ends_with_the_inspection(
    repo: Text,
    lock: LockModel,
    tape: Tape,
    journal: JournalModel,
    inspection: InspectionModel,
    after_read: Tape,
    after: Tape,
)
    requires
        read_script(lock.journal_path, tape) == Run::Gives(journal, after_read),
        inspect_script(repo, journal, lock.journal_path, after_read) == Run::Gives(
            inspection,
            after,
        ),
    ensures
        recover_locked_script(repo, lock, Action::Inspect, None, tape) == Run::Gives(
            RecoveredModel { inspection, action: Action::Inspect },
            after,
        ),
{
    reveal(recover_locked_script);
}

/// A mutation goes on only where nothing is unfinished: the way is clear where
/// there is no journal, or where the operation of the one that is there is
/// complete.
pub proof fn the_way_is_clear_only_when_nothing_is_unfinished(
    repo: Text,
    lock: LockModel,
    tape: Tape,
    after: Tape,
)
    requires
        ensure_clear_locked_script(repo, lock, tape) == Run::Gives((), after),
    ensures
        ({
            let path = lock.journal_path;
            &&& path_script(repo, tape) matches Run::Gives(own, tape)
            &&& is_same_path(own, path)
            &&& present_script(path, tape) matches Run::Gives(there, tape)
            &&& there ==> {
                &&& read_script(path, tape) matches Run::Gives(journal, tape)
                &&& inspect_script(repo, journal, path, tape) matches Run::Gives(inspection, tape)
                &&& inspection.state == State::Complete
            }
        }),
{
    reveal(ensure_clear_locked_script);
    reveal(settle_script);
}

proof fn writing_moves_no_refs(path: Text, lock: LockModel, journal: JournalModel, tape: Tape)
    ensures
        write_phase_script(path, lock, journal, tape) matches Run::Asks(ask, after)
            ==> !moves_refs(ask),
{
    reveal(write_phase_script);
    reveal(write_owned_script);
    reveal(encode_script);
    reveal(checksum_script);
    reveal(atomic_bytes_script);
    reveal(sync_parent_script);
    reveal(do_script);
    reveal(git::run_with_stdin_script);
    reveal(git::captured);
}

/// The direction is written down first: where a rollback tells git to do more than
/// to look, the journal that says so has been written, or was found that way.
pub proof fn rollback_is_recorded_before_refs_move(
    repo: Text,
    lock: LockModel,
    journal: JournalModel,
    inspection: InspectionModel,
    tape: Tape,
    ask: Ask,
    stopped: Tape,
)
    requires
        rollback_script(repo, lock, journal, inspection, tape) == Run::<RecoveredModel>::Asks(
            ask,
            stopped,
        ),
        moves_refs(ask),
    ensures
        inspection.can_rollback,
        turn_back_script(repo, lock, journal, inspection, tape) matches Run::Gives(turned, after)
            && turned.phase == Phase::RollingBack && (turned == journal || exists|start: Tape|
            #[trigger] write_phase_script(lock.journal_path, lock, turned, start) == Run::Gives(
                (),
                after,
            )),
{
    reveal(rollback_script);
    reveal(turn_back_script);
    reveal(read_undo_script);
    reveal(git_dir_script);
    reveal(read_bytes_script);
    reveal(git::run_script);
    reveal(git::captured);
    if journal.phase != Phase::RollingBack {
        if let Run::Gives(current, later) = read_undo_script(repo, tape) {
            let turned = JournalModel {
                rollback_undo: current,
                phase: Phase::RollingBack,
                ..journal
            };
            writing_moves_no_refs(lock.journal_path, lock, turned, later);
        }
    }
}

/// Refs are put back only from a known endpoint: where that step of a rollback
/// goes through, every recorded ref was found where the operation found it, or
/// every one where the operation put it.
pub proof fn refs_roll_back_only_from_the_end(
    repo: Text,
    journal: JournalModel,
    inspection: InspectionModel,
    tape: Tape,
    after: Tape,
)
    requires
        roll_refs_back_script(repo, journal, inspection, tape) == Run::Gives((), after),
    ensures
        crate::recovery::observe::state_of_script(repo, tape) matches Run::Gives(refs, seen) && (
        refs_are_at(refs, journal.refs, Endpoint::Before) || refs_are_at(
            refs,
            journal.refs,
            Endpoint::After,
        )),
{
    reveal(roll_refs_back_script);
}

proof fn no_head_no_difference(moves: Seq<RefMoveModel>)
    requires
        forall|i: int| 0 <= i < moves.len() ==> (#[trigger] moves[i]).name != "HEAD"@,
    ensures
        every_command_of(moves) == commands_of(moves),
    decreases moves.len(),
{
    if moves.len() > 0 {
        let rest = moves.drop_last();
        assert forall|i: int| 0 <= i < rest.len() implies (#[trigger] rest[i]).name != "HEAD"@ by {
            assert(moves[i].name != "HEAD"@);
        }
        assert(moves[moves.len() - 1].name != "HEAD"@);
        no_head_no_difference(rest);
    }
}

/// Rolling back restores the refs: after the transaction of the recorded moves,
/// that of the rollback goes through and leads to the store from before.
pub proof fn rolling_back_restores_the_refs(store: Map<Text, Text>, moves: Seq<RefMoveModel>)
    requires
        are_distinct(moves),
        transacted(store, commands_of(moves)) is Some,
    ensures
        ({
            let after = transacted(store, commands_of(moves))->0;
            transacted(after, every_command_of(reversed_moves(moves))) == Some(store)
        }),
{
    let back = reversed_moves(moves);
    assert forall|i: int| 0 <= i < back.len() implies (#[trigger] back[i]).name != "HEAD"@ by {
        assert(moves[i].name != "HEAD"@);
    }
    no_head_no_difference(back);
    there_and_back(store, moves);
}

} // verus!
