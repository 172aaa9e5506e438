//! What applying and undoing guarantee as a whole: nothing in the repository
//! changes before every check has passed, the way back is written down before a
//! ref moves, and undoing leads back to where the apply started.

pub mod admitting;
pub mod applying;
pub mod asking;
pub mod carrying;
pub mod commanding;
pub mod comparing;
pub mod continuing;
pub mod conversation;
pub mod deciding;
pub mod documents;
pub mod journalling;
pub mod judging;
pub mod making;
pub mod places;
pub mod probing;
pub mod recovering;
pub mod refusing;
pub mod replay;
pub mod reporting;
pub mod resuming;
pub mod running;
pub mod sparing;
pub mod telling;
pub mod transplant;
pub mod undoing;
pub mod untouched;
pub mod wording;

use vstd::prelude::*;

use crate::analyze::{current_state_script, moves_are_exact, moves_between, RefMoveModel};
use crate::apply;
use crate::carry::{self, CarryModel};
use crate::files::{do_script, read_text_script};
use crate::git;
use crate::guarantees::asking::is_reading;
use crate::refcommands::{
    are_distinct, at, command_of, commands_of, is_moved, reversed_moves, there_and_back, transacted,
    transactions_move,
};
use crate::refs::{ascending, lookup, lookup_is_entry, Entries};
use crate::sandbox::{worktree_of, SandboxModel};
use crate::session::{Ask, HeardModel, Run, Tape};
use crate::text::{precedes, precedes_irreflexive, Text};
use crate::undo;
use crate::undo::record::{parsed, without_head, RecordModel};

verus! {

// ---------------------------------------------------------------------------
// Which requests change something
// ---------------------------------------------------------------------------
/// Whether a request may change something: it is none of those that only look.
pub open spec fn is_change(ask: Ask) -> bool {
    match ask {
        Ask::Git { args, .. } => !is_reading(args),
        Ask::ReadText(_) => false,
        Ask::ReadBytes(_) => false,
        Ask::ReadLink(_) => false,
        Ask::List(_) => false,
        Ask::Kind(_) => false,
        Ask::Target(_) => false,
        Ask::Canonicalize(_) => false,
        Ask::JoinPaths(..) => false,
        Ask::Modified(_) => false,
        Ask::ProcessId => false,
        Ask::Program => false,
        Ask::Now => false,
        Ask::ReadLine => false,
        Ask::Terminal => false,
        _ => true,
    }
}

/// Whether a procedure does not stop to ask for a change.
pub open spec fn only_reads<T>(run: Run<T>) -> bool {
    run matches Run::Asks(ask, tape) ==> !is_change(ask)
}

proof fn run_reads(dir: Text, args: Seq<Text>, tape: Tape)
    requires
        is_reading(args),
    ensures
        only_reads(git::run_script(dir, args, tape)),
{
    reveal(git::run_script);
    reveal(git::captured);
}

proof fn state_reads(dir: Text, tape: Tape)
    ensures
        only_reads(current_state_script(dir, tape)),
{
    reveal(current_state_script);
    reveal(git::refs_script);
    run_reads(dir, git::refs_args("refs/heads/"@, 0), tape);
    if let Run::Gives(refs, after) = git::refs_script(dir, "refs/heads/"@, 0, tape) {
        run_reads(dir, crate::analyze::head_args(), after);
    }
}

proof fn branch_reads(repo: Text, tape: Tape)
    ensures
        only_reads(undo::current_branch_script(repo, tape)),
{
    reveal(undo::current_branch_script);
    run_reads(repo, seq!["symbolic-ref"@, "--quiet"@, "--short"@, "HEAD"@], tape);
}

proof fn status_reads(repo: Text, tape: Tape)
    ensures
        only_reads(undo::has_changes_script(repo, tape)),
{
    reveal(undo::has_changes_script);
    run_reads(repo, seq!["status"@, "--porcelain"@, "--untracked-files=no"@], tape);
}

proof fn untracked_reads(repo: Text, rehearsed: Text, branch: Text, tape: Tape)
    ensures
        only_reads(apply::check_untracked_script(repo, rehearsed, branch, tape)),
{
    reveal(apply::check_untracked_script);
    let listing = seq!["ls-files"@, "--others"@, "--no-empty-directory"@, "-z"@];
    run_reads(repo, listing, tape);
    if let Run::Gives(found, after) = git::run_script(repo, listing, tape) {
        run_reads(
            rehearsed,
            seq!["ls-tree"@, "-r"@, "--name-only"@, "-z"@, "refs/heads/"@ + branch],
            after,
        );
    }
}

proof fn trees_read(repo: Text, commit: Text, tape: Tape)
    ensures
        only_reads(carry::trees_of_script(repo, commit, tape)),
{
    reveal(carry::trees_of_script);
    let first = seq!["rev-parse"@, commit + "^{tree}"@];
    run_reads(repo, first, tape);
    if let Run::Gives(tree, after) = git::run_script(repo, first, tape) {
        run_reads(repo, seq!["rev-parse"@, commit + "^2^{tree}"@], after);
    }
}

proof fn carry_reads(repo: Text, snapshot: Text, id: Text, tape: Tape)
    ensures
        only_reads(carry::check_unchanged_script(repo, snapshot, id, tape)),
{
    reveal(carry::check_unchanged_script);
    run_reads(repo, seq!["stash"@, "create"@], tape);
    if let Run::Gives(now, after) = git::run_script(repo, seq!["stash"@, "create"@], tape) {
        trees_read(repo, now, after);
        if let Run::Gives(is, later) = carry::trees_of_script(repo, now, after) {
            trees_read(repo, snapshot, later);
        }
    }
}

proof fn worktree_reads(
    repo: Text,
    rehearsed: Text,
    branch: Text,
    carry: Option<CarryModel>,
    id: Text,
    tape: Tape,
)
    ensures
        only_reads(apply::check_worktree_script(repo, rehearsed, branch, carry, id, tape)),
{
    reveal(apply::check_worktree_script);
    reveal(apply::check_clean_script);
    status_reads(repo, tape);
    if let Run::Gives(done, after) = apply::check_clean_script(repo, carry is Some, tape) {
        untracked_reads(repo, rehearsed, branch, after);
    }
    if let Some(carried) = carry {
        carry_reads(repo, carried.snapshot, id, tape);
        if let Run::Gives(done, after) = carry::check_unchanged_script(
            repo,
            carried.snapshot,
            id,
            tape,
        ) {
            untracked_reads(repo, rehearsed, branch, after);
        }
    }
}

// ---------------------------------------------------------------------------
// Apply
// ---------------------------------------------------------------------------
/// Whether what an apply looked at, from `tape` on, allows it: the sandbox moved
/// something, the checkout and the refs are those that were rehearsed, and
/// where the worktree has to be reset nothing in it is in the way.
pub open spec fn allows_apply(sandbox: SandboxModel, tape: Tape) -> bool {
    let meta = sandbox.meta;
    let repo = meta.repo_path;
    &&& current_state_script(worktree_of(sandbox.root), tape) matches Run::Gives(rehearsed, tape)
    &&& moves_between(meta.pre_state, rehearsed).len() != 0
    &&& current_state_script(repo, tape) matches Run::Gives(now, tape)
    &&& undo::current_branch_script(repo, tape) matches Run::Gives(current, tape)
    &&& apply::is_same_checkout(meta.checkout, current)
    &&& apply::changes(meta.pre_state, now).len() == 0
    &&& match apply::reset_branch(meta.checkout, moves_between(meta.pre_state, rehearsed)) {
        Some(branch) => apply::check_worktree_script(
            repo,
            worktree_of(sandbox.root),
            branch,
            meta.carry,
            meta.id,
            tape,
        ) is Gives,
        None => true,
    }
}

/// An apply asks for nothing that changes the repository unless every check has
/// passed.
pub proof fn apply_checks_before_it_changes(
    sandbox: SandboxModel,
    now_unix: u64,
    tape: Tape,
    ask: Ask,
    stopped: Tape,
)
    requires
        apply::run_script(sandbox, now_unix, tape) == Run::<apply::AppliedModel>::Asks(ask, stopped),
        is_change(ask),
    ensures
        allows_apply(sandbox, tape),
{
    reveal(apply::run_script);
    reveal(apply::apply_script);
    let meta = sandbox.meta;
    let repo = meta.repo_path;
    let worktree = worktree_of(sandbox.root);
    state_reads(worktree, tape);
    if let Run::Gives(rehearsed, tape) = current_state_script(worktree, tape) {
        let moved = moves_between(meta.pre_state, rehearsed);
        state_reads(repo, tape);
        if let Run::Gives(now, tape) = current_state_script(repo, tape) {
            branch_reads(repo, tape);
            if let Run::Gives(current, tape) = undo::current_branch_script(repo, tape) {
                if let Some(branch) = apply::reset_branch(meta.checkout, moved) {
                    worktree_reads(repo, worktree, branch, meta.carry, meta.id, tape);
                }
            }
        }
    }
}

/// Whether a request may move refs: git is told to do more than to look.
pub open spec fn moves_refs(ask: Ask) -> bool {
    match ask {
        Ask::Git { args, .. } => !is_reading(args),
        Ask::Spawn { .. } => true,
        Ask::Prepare { .. } => true,
        Ask::Commit => true,
        Ask::Abort => true,
        _ => false,
    }
}

/// The record of an apply.
pub open spec fn record_of_apply(
    sandbox: SandboxModel,
    now_unix: u64,
    moved: Seq<RefMoveModel>,
) -> RecordModel {
    RecordModel {
        rehearsal: sandbox.meta.id,
        applied_at_unix: now_unix,
        refs: without_head(moved),
    }
}

/// The arguments with which an apply brings the rehearsed commits under their own
/// refs, where no branch is.
pub open spec fn anchoring(sandbox: SandboxModel, carried: Option<apply::CarriedModel>) -> Seq<
    Text,
> {
    let id = sandbox.meta.id;
    apply::fetch_args(worktree_of(sandbox.root), apply::anchor_of(id), id, carried is Some)
}

/// The way back is written down first: whatever the steps of an apply ask for that
/// may change something, apart from bringing the rehearsed commits under their own
/// refs and from writing the record itself, the record of every move was written
/// before it.
pub proof fn apply_writes_the_record_first(
    sandbox: SandboxModel,
    now_unix: u64,
    moved: Seq<RefMoveModel>,
    reset: Option<Text>,
    carried: Option<apply::CarriedModel>,
    tape: Tape,
    ask: Ask,
    stopped: Tape,
)
    requires
        apply::transplant_script(sandbox, now_unix, moved, reset, carried, tape) == Run::<
            apply::AppliedModel,
        >::Asks(ask, stopped),
        is_change(ask),
        !(ask is Write),
        !(ask matches Ask::Git { args, .. } && args == anchoring(sandbox, carried)),
    ensures
        ({
            let meta = sandbox.meta;
            &&& git::run_script(
                meta.repo_path,
                anchoring(sandbox, carried),
                tape,
            ) matches Run::Gives(output, fetched)
            &&& undo::write_script(
                meta.repo_path,
                record_of_apply(sandbox, now_unix, moved),
                fetched,
            ) is Gives
        }),
{
    reveal(apply::transplant_script);
    reveal(git::run_script);
    reveal(git::captured);
    reveal(undo::write_script);
    reveal(undo::record_path_script);
    reveal(do_script);
}

// ---------------------------------------------------------------------------
// Undo
// ---------------------------------------------------------------------------
/// Whether what an undo looked at, from `tape` on, allows it: there is a
/// readable record of the apply that was meant, every ref is where that apply
/// left it, and the worktree is not in the way.
pub open spec fn allows_undo(repo: Text, id: Option<Text>, tape: Tape) -> bool {
    &&& undo::record_path_script(repo, tape) matches Run::Gives(path, tape)
    &&& read_text_script(path, tape) matches Run::Gives(HeardModel::Got(text), tape)
    &&& parsed(text, path) matches Ok(record)
    &&& undo::is_meant(record, id)
    &&& record.refs.len() != 0
    &&& git::refs_script(repo, "refs/heads/"@, 0, tape) matches Run::Gives(now, tape)
    &&& undo::differences(record.refs, now).len() == 0
    &&& undo::reset_script(repo, record.refs, tape) is Gives
}

/// An undo asks for nothing that changes the repository unless every check has
/// passed, so a refused undo leaves refs, worktree and record as they were.
pub proof fn undo_checks_before_it_changes(
    repo: Text,
    id: Option<Text>,
    tape: Tape,
    ask: Ask,
    stopped: Tape,
)
    requires
        undo::run_script(repo, id, tape) == Run::<undo::UndoneModel>::Asks(ask, stopped),
        is_change(ask),
    ensures
        allows_undo(repo, id, tape),
{
    reveal(undo::run_script);
    reveal(undo::undo_script);
    reveal(undo::record_path_script);
    reveal(read_text_script);
    run_reads(repo, seq!["rev-parse"@, "--absolute-git-dir"@], tape);
    if let Run::Gives(path, tape) = undo::record_path_script(repo, tape) {
        if let Run::Gives(HeardModel::Got(text), tape) = read_text_script(path, tape) {
            if let Ok(record) = parsed(text, path) {
                reveal(git::refs_script);
                run_reads(repo, git::refs_args("refs/heads/"@, 0), tape);
                if let Run::Gives(now, tape) = git::refs_script(repo, "refs/heads/"@, 0, tape) {
                    reveal(undo::reset_script);
                    branch_reads(repo, tape);
                    if let Run::Gives(current, tape) = undo::current_branch_script(repo, tape) {
                        status_reads(repo, tape);
                    }
                }
            }
        }
    }
}

/// The record is consumed last: where the steps of an undo ask for its removal,
/// the refs have been put back and the worktree has followed.
pub proof fn undo_consumes_the_record_last(
    repo: Text,
    path: Text,
    record: RecordModel,
    reset: Option<Text>,
    tape: Tape,
    ask: Ask,
    stopped: Tape,
)
    requires
        undo::restore_script(repo, path, record, reset, tape) == Run::<undo::UndoneModel>::Asks(
            ask,
            stopped,
        ),
        ask is RemoveFile,
    ensures
        ({
            let commands = crate::refcommands::commands_text(
                commands_of(reversed_moves(record.refs)),
            );
            &&& undo::move_refs_script(
                repo,
                commands,
                "git-rehearse undo "@ + record.rehearsal,
                tape,
            ) matches Run::Gives(done, moved)
            &&& undo::reset_worktree_script(repo, reset is Some, moved) is Gives
        }),
{
    reveal(undo::restore_script);
    reveal(undo::move_refs_script);
    reveal(undo::reset_worktree_script);
    reveal(git::run_with_stdin_script);
    reveal(git::run_script);
    reveal(git::captured);
}

// ---------------------------------------------------------------------------
// Both together
// ---------------------------------------------------------------------------
proof fn kept_moves(moves: Seq<RefMoveModel>)
    ensures
        commands_of(without_head(moves)) == commands_of(moves),
        forall|i: int|
            0 <= i < without_head(moves).len() ==> (#[trigger] without_head(moves)[i]).name
                != "HEAD"@,
        forall|i: int|
            0 <= i < without_head(moves).len() ==> moves.contains(
                #[trigger] without_head(moves)[i],
            ),
    decreases moves.len(),
{
    if moves.len() > 0 {
        let rest = moves.drop_last();
        kept_moves(rest);
        let kept = without_head(moves);
        assert forall|i: int| 0 <= i < kept.len() implies moves.contains(#[trigger] kept[i]) by {
            if i < without_head(rest).len() {
                assert(kept[i] == without_head(rest)[i]);
                assert(rest.contains(kept[i]));
                let j = choose|j: int| 0 <= j < rest.len() && rest[j] == kept[i];
                assert(moves[j] == kept[i]);
            } else {
                assert(moves[moves.len() - 1] == kept[i]);
            }
        }
        if moves.last().name != "HEAD"@ {
            assert(kept.drop_last() =~= without_head(rest));
        }
    }
}

proof fn kept_in_order(moves: Seq<RefMoveModel>)
    requires
        forall|i: int, j: int|
            0 <= i < j < moves.len() ==> precedes(
                (#[trigger] moves[i]).name,
                (#[trigger] moves[j]).name,
            ),
    ensures
        are_distinct(without_head(moves)),
    decreases moves.len(),
{
    kept_moves(moves);
    let kept = without_head(moves);
    if moves.len() > 0 {
        let rest = moves.drop_last();
        kept_moves(rest);
        assert forall|i: int, j: int| 0 <= i < j < rest.len() implies precedes(
            (#[trigger] rest[i]).name,
            (#[trigger] rest[j]).name,
        ) by {
            assert(precedes(moves[i].name, moves[j].name));
        }
        kept_in_order(rest);
        if moves.last().name != "HEAD"@ {
            let earlier = without_head(rest);
            assert(kept =~= earlier.push(moves.last()));
            assert forall|i: int, j: int| 0 <= i < j < kept.len() implies (#[trigger] kept[i]).name
                != (#[trigger] kept[j]).name by {
                if j < earlier.len() {
                    assert(kept[i] == earlier[i] && kept[j] == earlier[j]);
                } else {
                    assert(kept[i] == earlier[i]);
                    assert(rest.contains(earlier[i]));
                    let k = choose|k: int| 0 <= k < rest.len() && rest[k] == earlier[i];
                    assert(precedes(moves[k].name, moves[moves.len() - 1].name));
                    precedes_irreflexive(kept[i].name);
                }
            }
        }
    }
}

/// Undoing an apply restores the refs: where the transaction of an apply goes
/// through, the transaction of undoing its record goes through after it and
/// leaves every ref where the apply found it.
pub proof fn undoing_an_apply_restores_the_refs(
    sandbox: SandboxModel,
    now_unix: u64,
    rehearsed: Entries,
    store: Map<Text, Text>,
)
    requires
        ascending(sandbox.meta.pre_state),
        ascending(rehearsed),
        transacted(store, commands_of(moves_between(sandbox.meta.pre_state, rehearsed))) is Some,
    ensures
        ({
            let moved = moves_between(sandbox.meta.pre_state, rehearsed);
            let record = record_of_apply(sandbox, now_unix, moved);
            let after = transacted(store, commands_of(moved))->0;
            transacted(after, commands_of(reversed_moves(record.refs))) == Some(store)
        }),
{
    let moved = moves_between(sandbox.meta.pre_state, rehearsed);
    moves_are_exact(sandbox.meta.pre_state, rehearsed);
    assert forall|i: int, j: int| 0 <= i < j < moved.len() implies precedes(
        (#[trigger] moved[i]).name,
        (#[trigger] moved[j]).name,
    ) by {
        assert(precedes(
            moves_between(sandbox.meta.pre_state, rehearsed)[i].name,
            moves_between(sandbox.meta.pre_state, rehearsed)[j].name,
        ));
    }
    kept_in_order(moved);
    kept_moves(moved);
    there_and_back(store, without_head(moved));
}

proof fn kept_unless_head(moves: Seq<RefMoveModel>)
    ensures
        forall|i: int|
            0 <= i < moves.len() && (#[trigger] moves[i]).name != "HEAD"@ ==> without_head(
                moves,
            ).contains(moves[i]),
    decreases moves.len(),
{
    if moves.len() > 0 {
        let rest = moves.drop_last();
        let kept = without_head(moves);
        kept_unless_head(rest);
        assert forall|i: int|
            0 <= i < moves.len() && (#[trigger] moves[i]).name != "HEAD"@ implies kept.contains(
            moves[i],
        ) by {
            if i < rest.len() {
                assert(rest[i] == moves[i]);
                let earlier = without_head(rest);
                let k = choose|k: int| 0 <= k < earlier.len() && earlier[k] == rest[i];
                assert(kept[k] == moves[i]);
            } else {
                assert(kept[kept.len() - 1] == moves[i]);
            }
        }
    }
}

/// What was inspected is what one gets: where the transaction of an apply goes
/// through on a repository whose refs are where the rehearsal found them, every
/// branch is then where the sandbox has it, moved or not.
pub proof fn applying_gives_the_rehearsed_refs(
    pre_state: Entries,
    rehearsed: Entries,
    store: Map<Text, Text>,
    name: Text,
)
    requires
        ascending(pre_state),
        ascending(rehearsed),
        transacted(store, commands_of(moves_between(pre_state, rehearsed))) is Some,
        at(store, name) == lookup(pre_state, name),
        name != "HEAD"@,
    ensures
        at(
            transacted(store, commands_of(moves_between(pre_state, rehearsed)))->0,
            name,
        ) == lookup(rehearsed, name),
{
    let moved = moves_between(pre_state, rehearsed);
    let kept = without_head(moved);
    let after = transacted(store, commands_of(moved))->0;
    moves_are_exact(pre_state, rehearsed);
    assert forall|i: int, j: int| 0 <= i < j < moved.len() implies precedes(
        (#[trigger] moved[i]).name,
        (#[trigger] moved[j]).name,
    ) by {
        assert(precedes(
            moves_between(pre_state, rehearsed)[i].name,
            moves_between(pre_state, rehearsed)[j].name,
        ));
    }
    kept_in_order(moved);
    kept_moves(moved);
    kept_unless_head(moved);
    transactions_move(store, kept);
    assert(is_moved(store, after, kept));
    if lookup(pre_state, name) != lookup(rehearsed, name) {
        let i = choose|i: int|
            0 <= i < moves_between(pre_state, rehearsed).len() && #[trigger] moves_between(
                pre_state,
                rehearsed,
            )[i].name == name;
        assert(kept.contains(moved[i]));
        let k = choose|k: int| 0 <= k < kept.len() && kept[k] == moved[i];
        assert(kept[k].name == name);
        assert(command_of(kept[k]) is Some);
    } else {
        assert forall|i: int|
            0 <= i < kept.len() && command_of(kept[i]) is Some implies (#[trigger] kept[i]).name
            != name by {
            assert(moved.contains(kept[i]));
            let k = choose|k: int| 0 <= k < moved.len() && moved[k] == kept[i];
            assert(moves_between(pre_state, rehearsed)[k].before != moved[k].after);
        }
        assert(at(store, name) == at(after, name));
    }
}

/// An apply whose transaction did not go through cannot be undone: its record is
/// there, but the refs are not where it says the apply left them.
pub proof fn an_apply_that_never_landed_is_not_undone(
    sandbox: SandboxModel,
    now_unix: u64,
    rehearsed: Entries,
    now: Entries,
)
    requires
        ascending(sandbox.meta.pre_state),
        ascending(rehearsed),
        apply::changes(sandbox.meta.pre_state, now).len() == 0,
        ({
            let record = record_of_apply(
                sandbox,
                now_unix,
                moves_between(sandbox.meta.pre_state, rehearsed),
            );
            exists|i: int|
                0 <= i < record.refs.len() && (#[trigger] record.refs[i]).before is Some
        }),
    ensures
        ({
            let record = record_of_apply(
                sandbox,
                now_unix,
                moves_between(sandbox.meta.pre_state, rehearsed),
            );
            undo::differences(record.refs, now).len() != 0
        }),
{
    let pre_state = sandbox.meta.pre_state;
    let moved = moves_between(pre_state, rehearsed);
    let refs = without_head(moved);
    moves_are_exact(pre_state, rehearsed);
    kept_moves(moved);
    undo::any_moved_ref_refuses_the_undo(refs, now);
    apply::any_moved_ref_refuses_the_apply(pre_state, now);
    let i = choose|i: int| 0 <= i < refs.len() && (#[trigger] refs[i]).before is Some;
    assert(moved.contains(refs[i]));
    let k = choose|k: int| 0 <= k < moved.len() && moved[k] == refs[i];
    assert(moves_between(pre_state, rehearsed)[k] == refs[i]);
    let name = refs[i].name;
    lookup_is_entry(pre_state, name);
    let j = choose|j: int|
        0 <= j < pre_state.len() && #[trigger] pre_state[j] == (name, lookup(pre_state, name)->0);
    assert(lookup(now, pre_state[j].0) == Some(pre_state[j].1));
}

} // verus!
