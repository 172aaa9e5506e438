//! What an undo saw before it changed anything, and what it changed then.

use vstd::prelude::*;

use crate::analyze::RefMoveModel;
use crate::error::Fault;
use crate::git;
use crate::guarantees::asking::is_reading;
use crate::guarantees::conversation::{
    continues, git_fed, git_in, going_on_adds_up, is_complete, is_look, left_by, looks_on,
    requests_are_exchanges, spoken, was_asked, was_told,
};
use crate::guarantees::is_change;
use crate::parts::lines_of;
use crate::paths::{inside, path_named};
use crate::refcommands::{commands_of, commands_text, reversed_moves};
use crate::refs::{lookup, Entries};
use crate::session::{further, Answer, Ask, HeardModel, Run, Tape};
use crate::text::Text;
use crate::undo;
use crate::undo::record::{parsed, RecordModel};

verus! {

/// The arguments that ask git for what is changed in tracked files.
pub open spec fn status_words() -> Seq<Text> {
    seq!["status"@, "--porcelain"@, "--untracked-files=no"@]
}

/// The arguments that ask git for the branch that is checked out.
pub open spec fn branch_words() -> Seq<Text> {
    seq!["symbolic-ref"@, "--quiet"@, "--short"@, "HEAD"@]
}

/// The arguments that bring index and worktree to `HEAD`, whatever they hold.
pub open spec fn reset_words() -> Seq<Text> {
    seq!["reset"@, "--hard"@, "--quiet"@]
}

/// The arguments that move refs by the commands on git's input.
pub open spec fn moving_words(message: Text) -> Seq<Text> {
    seq!["update-ref"@, "-m"@, message, "--stdin"@, "-z"@]
}

/// What an undo was told.
pub struct UndoSight {
    /// Git's own directory.
    pub dir: Text,
    /// The text of the record.
    pub text: Text,
    pub record: RecordModel,
    /// Where the branches are.
    pub branches: Entries,
    /// The branch that is checked out, if one is.
    pub branch: Option<Text>,
}

/// Where the record of a repository is kept.
pub open spec fn record_in(dir: Text) -> Text {
    inside(path_named(dir), "rehearse-undo"@)
}

/// Whether a branch stands elsewhere before the moves than behind them.
pub open spec fn is_rewound(refs: Seq<RefMoveModel>, branch: Option<Text>) -> bool {
    match branch {
        Some(branch) => undo::move_of(refs, "refs/heads/"@ + branch) matches Some(moved)
            && moved.before != moved.after,
        None => false,
    }
}

/// Whether an undo was told this, in the first replies from `tape` on: there is a
/// record of the apply that was meant, it moved something, and every branch is where
/// the apply left it.
pub open spec fn undo_saw(
    sight: UndoSight,
    repo: Text,
    id: Option<Text>,
    tape: Tape,
    later: Tape,
) -> bool {
    let first = tape.next;
    &&& was_told(repo, seq!["rev-parse"@, "--absolute-git-dir"@], sight.dir, tape, later, first)
    &&& was_asked(Ask::ReadText(record_in(sight.dir)), tape, later, first + 1)
    &&& later.log[first + 1] == Answer::Text(sight.text)
    &&& parsed(sight.text, record_in(sight.dir)) == Ok::<RecordModel, Fault>(sight.record)
    &&& id matches Some(id) ==> id.is_prefix_of(sight.record.rehearsal)
    &&& sight.record.refs.len() > 0
    &&& was_asked(git_in(repo, git::refs_args("refs/heads/"@, 0)), tape, later, first + 2)
    &&& spoken(later.log[first + 2]) matches Some(listing) && sight.branches == git::refs_in(
        lines_of(listing),
    )
    &&& forall|i: int|
        0 <= i < sight.record.refs.len() ==> lookup(
            sight.branches,
            (#[trigger] sight.record.refs[i]).name,
        ) == sight.record.refs[i].after
    &&& was_asked(git_in(repo, branch_words()), tape, later, first + 3)
    &&& spoken(later.log[first + 3]) == sight.branch
}

/// How many replies an undo takes before it changes anything: where the branch that
/// is checked out is rewound, git's status is the last of them.
pub open spec fn undo_looks(sight: UndoSight) -> int {
    if is_rewound(sight.record.refs, sight.branch) {
        5
    } else {
        4
    }
}

/// Whether an undo that was told this may go on: where the branch that is checked out
/// is rewound, there is something to rewind it to, and git said that no tracked file
/// is changed.
pub open spec fn undo_may_go_on(sight: UndoSight, repo: Text, tape: Tape, later: Tape) -> bool {
    let refs = sight.record.refs;
    &&& sight.branch matches Some(branch) ==> (undo::move_of(
        refs,
        "refs/heads/"@ + branch,
    ) matches Some(moved) ==> moved.before is Some)
    &&& is_rewound(refs, sight.branch) ==> was_told(
        repo,
        status_words(),
        Seq::empty(),
        tape,
        later,
        tape.next + 4,
    )
}

/// What an undo asks for once it may go on: the refs are moved back in one
/// transaction, the worktree follows where its branch was rewound, and the record is
/// removed.
pub open spec fn undo_steps(sight: UndoSight, repo: Text) -> Seq<Ask> {
    let refs = sight.record.refs;
    let commands = commands_text(commands_of(reversed_moves(refs)));
    let message = "git-rehearse undo "@ + sight.record.rehearsal;
    let moving = if commands.len() > 0 {
        seq![git_fed(repo, moving_words(message), commands)]
    } else {
        Seq::empty()
    };
    let resetting = if is_rewound(refs, sight.branch) {
        seq![git_in(repo, reset_words())]
    } else {
        Seq::empty()
    };
    moving + resetting + seq![Ask::RemoveFile(record_in(sight.dir))]
}

/// Whether what was asked for with request number `i` was done.
pub open spec fn went_through(later: Tape, i: int) -> bool {
    match later.asks[i] {
        Ask::Git { .. } => spoken(later.log[i]) is Some,
        Ask::Write(..) => later.log[i] is Done,
        Ask::RemoveFile(_) => later.log[i] is Done,
        _ => true,
    }
}

/// Whether the requests from number `start` on were the first of these, and those
/// that were followed by another went through.
pub open spec fn were_asked(steps: Seq<Ask>, later: Tape, start: int) -> bool {
    &&& 0 <= later.next - start <= steps.len()
    &&& forall|i: int| start <= i < later.next ==> #[trigger] later.asks[i] == steps[i - start]
    &&& forall|i: int| start <= i < later.next - 1 ==> #[trigger] went_through(later, i)
}

/// Whether nothing was asked for before the request number `start` that changes
/// anything.
pub open spec fn looked_until(start: int, tape: Tape, later: Tape) -> bool {
    &&& tape.next <= start <= later.next
    &&& forall|i: int| tape.next <= i < start ==> !is_change(#[trigger] later.asks[i])
}

/// Whether a run changes something: it asked for a change, asks for one now, or is
/// through.
pub open spec fn acts<T>(run: Run<T>, tape: Tape) -> bool {
    ||| !is_look(tape, left_by(run))
    ||| run matches Run::Asks(ask, _) && is_change(ask)
    ||| run is Gives
}

/// What an undo saw and what it did: before it asks for any change it was told all
/// that it needs, and from then on it takes these steps and no other, each after the
/// one before went through.
pub open spec fn is_undone_so(
    sight: UndoSight,
    repo: Text,
    id: Option<Text>,
    run: Run<undo::UndoneModel>,
    tape: Tape,
) -> bool {
    let later = left_by(run);
    let start = tape.next + undo_looks(sight);
    let steps = undo_steps(sight, repo);
    &&& undo_saw(sight, repo, id, tape, later)
    &&& undo_may_go_on(sight, repo, tape, later)
    &&& looked_until(start, tape, later)
    &&& were_asked(steps, later, start)
    &&& run matches Run::Asks(ask, _) ==> later.next - start < steps.len() && ask == steps[
        later.next - start]
    &&& run matches Run::Gives(undone, _) ==> {
        &&& later.next - start == steps.len()
        &&& went_through(later, later.next - 1)
        &&& undone.rehearsal == sight.record.rehearsal
        &&& undone.applied_at_unix == sight.record.applied_at_unix
        &&& undone.record == record_in(sight.dir)
        &&& undone.restored == reversed_moves(sight.record.refs)
        &&& undone.reset == if is_rewound(sight.record.refs, sight.branch) {
            sight.branch
        } else {
            None
        }
    }
}

proof fn restoring_is_said(
    repo: Text,
    path: Text,
    record: RecordModel,
    reset: Option<Text>,
    sight: UndoSight,
    tape: Tape,
)
    requires
        is_complete(tape),
        sight.record == record,
        path == record_in(sight.dir),
        reset is Some == is_rewound(record.refs, sight.branch),
    ensures
        ({
            let run = undo::restore_script(repo, path, record, reset, tape);
            let later = left_by(run);
            let steps = undo_steps(sight, repo);
            &&& continues(later, tape)
            &&& were_asked(steps, later, tape.next)
            &&& run matches Run::Asks(ask, _) ==> later.next - tape.next < steps.len() && ask
                == steps[later.next - tape.next]
            &&& run matches Run::Gives(undone, _) ==> later.next - tape.next == steps.len()
                && went_through(later, later.next - 1) && undone.rehearsal == record.rehearsal
                && undone.applied_at_unix == record.applied_at_unix && undone.record == path
                && undone.restored == reversed_moves(record.refs) && undone.reset == reset
        }),
{
    going_on_adds_up();
    requests_are_exchanges();
    reveal(undo::restore_script);
    reveal(undo::move_refs_script);
    reveal(undo::reset_worktree_script);
    let commands = commands_text(commands_of(reversed_moves(record.refs)));
    let message = "git-rehearse undo "@ + record.rehearsal;
    if let Run::Gives(_, moved) = undo::move_refs_script(repo, commands, message, tape) {
        assert(continues(moved, tape));
        if let Run::Gives(_, followed) = undo::reset_worktree_script(repo, reset is Some, moved) {
            assert(continues(followed, moved));
        }
    }
}

/// What an undo does. Nothing is changed unless the record is that of the apply that
/// was meant, every branch is where that apply left it, and the worktree holds nothing
/// that following the branch back would destroy.
pub proof fn what_an_undo_does(repo: Text, id: Option<Text>, tape: Tape)
    requires
        is_complete(tape),
        acts(undo::run_script(repo, id, tape), tape),
    ensures
        exists|sight: UndoSight|
            is_undone_so(sight, repo, id, undo::run_script(repo, id, tape), tape),
{
    going_on_adds_up();
    requests_are_exchanges();
    reveal(undo::run_script);
    reveal(undo::undo_script);
    reveal(undo::record_path_script);
    reveal(undo::reset_script);
    reveal(undo::current_branch_script);
    reveal(undo::has_changes_script);
    reveal(git::refs_script);
    reveal(looks_on);
    reveal(continues);
    let run = undo::run_script(repo, id, tape);
    let later = left_by(run);
    let dir_words = seq!["rev-parse"@, "--absolute-git-dir"@];
    assert(is_reading(dir_words));
    assert(is_reading(git::refs_args("refs/heads/"@, 0)));
    assert(is_reading(branch_words()));
    assert(is_reading(status_words()));
    let t1 = further(tape, git_in(repo, dir_words));
    if let Run::Gives(dir, _) = git::run_script(repo, dir_words, tape) {
        let path = record_in(dir);
        let t2 = further(t1, Ask::ReadText(path));
        if let Run::Gives(HeardModel::Got(text), _) = crate::files::read_text_script(path, t1) {
            if let Ok(record) = parsed(text, path) {
                let refs_words = git::refs_args("refs/heads/"@, 0);
                let t3 = further(t2, git_in(repo, refs_words));
                if let Run::Gives(listing, _) = git::run_script(repo, refs_words, t2) {
                    let branches = git::refs_in(lines_of(listing));
                    undo::any_moved_ref_refuses_the_undo(record.refs, branches);
                    let t4 = further(t3, git_in(repo, branch_words()));
                    if let Run::Gives(branch, _) = undo::current_branch_script(repo, t3) {
                        let sight = UndoSight { dir, text, record, branches, branch };
                        let t5 = if is_rewound(record.refs, branch) {
                            further(t4, git_in(repo, status_words()))
                        } else {
                            t4
                        };
                        if let Run::Gives(reset, after) = undo::reset_script(repo, record.refs, t3) {
                            assert(after == t5);
                            restoring_is_said(repo, path, record, reset, sight, t5);
                            assert(continues(later, t5));
                            if is_rewound(record.refs, branch) {
                                assert(spoken(t4.log[t4.next])->0 =~= Seq::<char>::empty());
                            }
                            assert(undo_saw(sight, repo, id, tape, later));
                            assert(undo_may_go_on(sight, repo, tape, later));
                            assert(looked_until(t5.next, tape, later));
                            assert(were_asked(undo_steps(sight, repo), later, t5.next));
                            assert(is_undone_so(sight, repo, id, run, tape));
                        }
                    }
                }
            }
        }
    }
}

/// An undo that would lose work is refused: where git says that tracked files are
/// changed, it ends there, and nothing was asked for that changes anything.
pub proof fn an_undo_over_changed_files_is_refused(
    repo: Text,
    id: Option<Text>,
    tape: Tape,
    i: int,
    said: Text,
)
    requires
        is_complete(tape),
        was_told(
            repo,
            status_words(),
            said,
            tape,
            left_by(undo::run_script(repo, id, tape)),
            i,
        ),
        said.len() > 0,
    ensures
        undo::run_script(repo, id, tape) matches Run::Fails(Fault::Refused(_), later) && is_look(
            tape,
            later,
        ),
{
    going_on_adds_up();
    requests_are_exchanges();
    reveal(undo::run_script);
    reveal(undo::undo_script);
    reveal(undo::record_path_script);
    reveal(undo::reset_script);
    reveal(undo::current_branch_script);
    reveal(undo::has_changes_script);
    reveal(git::refs_script);
    reveal(continues);
    let run = undo::run_script(repo, id, tape);
    let later = left_by(run);
    let dir_words = seq!["rev-parse"@, "--absolute-git-dir"@];
    let refs_words = git::refs_args("refs/heads/"@, 0);
    reveal_strlit("status");
    reveal_strlit("rev-parse");
    reveal_strlit("for-each-ref");
    reveal_strlit("symbolic-ref");
    reveal_strlit("update-ref");
    reveal_strlit("reset");
    assert("status"@.len() == 6);
    assert("rev-parse"@.len() == 9);
    assert("for-each-ref"@.len() == 12);
    assert("symbolic-ref"@.len() == 12);
    assert("update-ref"@.len() == 10);
    assert("reset"@.len() == 5);
    assert(status_words()[0] == "status"@);
    assert(dir_words[0] == "rev-parse"@);
    assert(refs_words[0] == "for-each-ref"@);
    assert(branch_words()[0] == "symbolic-ref"@);
    assert(reset_words()[0] == "reset"@);
    assert(is_reading(dir_words));
    assert(is_reading(refs_words));
    assert(is_reading(branch_words()));
    assert(is_reading(status_words()));
    let t1 = further(tape, git_in(repo, dir_words));
    if let Run::Gives(dir, _) = git::run_script(repo, dir_words, tape) {
        let path = record_in(dir);
        let t2 = further(t1, Ask::ReadText(path));
        if let Run::Gives(HeardModel::Got(text), _) = crate::files::read_text_script(path, t1) {
            if let Ok(record) = parsed(text, path) {
                let t3 = further(t2, git_in(repo, refs_words));
                if let Run::Gives(listing, _) = git::run_script(repo, refs_words, t2) {
                    let branches = git::refs_in(lines_of(listing));
                    let t4 = further(t3, git_in(repo, branch_words()));
                    if let Run::Gives(branch, _) = undo::current_branch_script(repo, t3) {
                        let sight = UndoSight { dir, text, record, branches, branch };
                        if let Run::Gives(reset, after) = undo::reset_script(repo, record.refs, t3) {
                            restoring_is_said(repo, path, record, reset, sight, after);
                            let steps = undo_steps(sight, repo);
                            assert forall|k: int| 0 <= k < steps.len() implies #[trigger] steps[k]
                                != git_in(repo, status_words()) by {
                                if let Ask::Git { args, .. } = steps[k] {
                                    assert(args[0] == "update-ref"@ || args[0] == "reset"@);
                                }
                            }
                            if i >= after.next {
                                assert(later.asks[i] == steps[i - after.next]);
                            } else {
                                assert(later.asks[i] == after.asks[i]);
                            }
                        }
                    }
                }
            }
        }
    }
}

} // verus!
