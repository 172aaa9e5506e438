//! What the rehearsal actually did, read out of the sandbox and not inferred
//! from the command.
//!
//! Three questions, in the order a person asks them: what moved, where did it
//! stop, and did the content change. Everything is read by running git.

use vstd::prelude::*;

use crate::compose::{args2, args3, args4, args5, cat2, cat3};
use crate::error::{Error, Fault};
use crate::execute::{git_dir_args, split_zero, unmerged_args, zero_separated, Outcome};
use crate::files::{read_bytes, read_bytes_script, read_text, read_text_script};
use crate::git;
use crate::number::{number_of, parse};
use crate::parts::{bytes_start_with, pieces, split_bytes, trim, trimmed, words, words_of};
use crate::paths::{from_text, inside, join_path, path_named};
use crate::refs::{
    ascending, inserted, inserted_points, lookup, lookup_is_entry, names_of, Entries, RefMap,
};
use crate::session::{caught, ran, Heard, HeardModel, Reason, Run, Session, Stop, Tape};
use crate::text::{bytes_of, copy_text, precedes, put, same, same_text, Text};

pub mod replay;

pub use replay::{parse_range_diff, Replay, ReplayModel};

verus! {

/// One ref, before and after.
#[derive(Debug, PartialEq, Eq)]
pub struct RefMove {
    /// Full ref name, or [`HEAD_KEY`](crate::preflight::HEAD_KEY) for `HEAD` itself.
    pub name: String,
    /// Where it pointed before the command; `None` if the command created it.
    pub before: Option<String>,
    /// Where it points now; `None` if the command deleted it.
    pub after: Option<String>,
}

/// The model of a [`RefMove`].
pub struct RefMoveModel {
    pub name: Text,
    pub before: Option<Text>,
    pub after: Option<Text>,
}

impl DeepView for RefMove {
    type V = RefMoveModel;

    open spec fn deep_view(&self) -> RefMoveModel {
        RefMoveModel {
            name: self.name@,
            before: self.before.deep_view(),
            after: self.after.deep_view(),
        }
    }
}

impl RefMove {
    /// An equal move.
    pub fn copy(&self) -> (moved: RefMove)
        ensures
            moved.deep_view() == self.deep_view(),
    {
        RefMove {
            name: self.name.clone(),
            before: copy_text(&self.before),
            after: copy_text(&self.after),
        }
    }
}

/// A commit, identified and described.
#[derive(Debug, PartialEq, Eq)]
pub struct Commit {
    /// Full object name.
    pub sha: String,
    /// First line of the commit message.
    pub subject: String,
}

/// The model of a [`Commit`].
pub struct CommitModel {
    pub sha: Text,
    pub subject: Text,
}

impl DeepView for Commit {
    type V = CommitModel;

    open spec fn deep_view(&self) -> CommitModel {
        CommitModel { sha: self.sha@, subject: self.subject@ }
    }
}

/// An unmerged path.
#[derive(Debug, PartialEq, Eq)]
pub struct Conflict {
    /// Path, relative to the worktree root.
    pub path: String,
    /// Number of conflict hunks git left in the file. Zero means the file is
    /// unmerged but carries no markers: a binary file, or an add/add or
    /// delete/modify conflict.
    pub hunks: usize,
}

/// The model of a [`Conflict`].
pub struct ConflictModel {
    pub path: Text,
    pub hunks: int,
}

impl DeepView for Conflict {
    type V = ConflictModel;

    open spec fn deep_view(&self) -> ConflictModel {
        ConflictModel { path: self.path@, hunks: self.hunks as int }
    }
}

/// One file in a diff.
#[derive(Debug, PartialEq, Eq)]
pub struct FileChange {
    /// Git's status letter: `M`, `A`, `D`, `R` and so on.
    pub status: String,
    /// Path, relative to the worktree root.
    pub path: String,
}

/// The model of a [`FileChange`].
pub struct FileChangeModel {
    pub status: Text,
    pub path: Text,
}

impl DeepView for FileChange {
    type V = FileChangeModel;

    open spec fn deep_view(&self) -> FileChangeModel {
        FileChangeModel { status: self.status@, path: self.path@ }
    }
}

/// The content difference between a branch's old and new tip.
#[derive(Debug, PartialEq, Eq)]
pub struct Drift {
    /// The ref that was rewritten.
    pub reference: String,
    /// Files whose content differs between the two tips.
    pub changes: Vec<FileChange>,
    /// Commits between the common ancestor and the old tip.
    pub commits_before: usize,
    /// Commits between the common ancestor and the new tip.
    pub commits_after: usize,
    /// What happened to the individual commits when they were replayed.
    pub replay: Replay,
}

/// The model of a [`Drift`].
pub struct DriftModel {
    pub reference: Text,
    pub changes: Seq<FileChangeModel>,
    pub commits_before: int,
    pub commits_after: int,
    pub replay: ReplayModel,
}

impl DeepView for Drift {
    type V = DriftModel;

    open spec fn deep_view(&self) -> DriftModel {
        DriftModel {
            reference: self.reference@,
            changes: self.changes.deep_view(),
            commits_before: self.commits_before as int,
            commits_after: self.commits_after as int,
            replay: self.replay.deep_view(),
        }
    }
}

/// Everything the report needs to know about a rehearsal.
#[derive(Debug, PartialEq, Eq)]
pub struct Analysis {
    /// Refs whose commit changed, sorted by name.
    pub ref_moves: Vec<RefMove>,
    /// The commit the command stopped on, if it stopped.
    pub stopped_at: Option<Commit>,
    /// Unmerged paths and their conflict-hunk counts.
    pub conflicts: Vec<Conflict>,
    /// Content differences between the old and new tip of each rewritten
    /// branch.
    pub drift: Vec<Drift>,
    /// Whether [`Analysis::drift`] being non-empty is a surprise: true for
    /// `rebase` and `cherry-pick`, which replay the same changes onto a
    /// different parent.
    pub drift_expected_empty: bool,
}

/// The model of an [`Analysis`].
pub struct AnalysisModel {
    pub ref_moves: Seq<RefMoveModel>,
    pub stopped_at: Option<CommitModel>,
    pub conflicts: Seq<ConflictModel>,
    pub drift: Seq<DriftModel>,
    pub drift_expected_empty: bool,
}

impl DeepView for Analysis {
    type V = AnalysisModel;

    open spec fn deep_view(&self) -> AnalysisModel {
        AnalysisModel {
            ref_moves: self.ref_moves.deep_view(),
            stopped_at: self.stopped_at.deep_view(),
            conflicts: self.conflicts.deep_view(),
            drift: self.drift.deep_view(),
            drift_expected_empty: self.drift_expected_empty,
        }
    }
}

/// Whether a rehearsal changed content it was not supposed to change.
pub open spec fn drifts_unexpectedly(analysis: AnalysisModel) -> bool {
    analysis.drift_expected_empty && exists|i: int|
        0 <= i < analysis.drift.len() && replay::suspicious(#[trigger] analysis.drift[i].replay)
}

impl Analysis {
    /// Whether this rehearsal changed content it was not supposed to change.
    /// Not merely whether the trees differ: a rebase onto a base that has moved
    /// on differs by the base's own commits, every time.
    pub fn has_unexpected_drift(&self) -> (unexpected: bool)
        ensures
            unexpected == drifts_unexpectedly(self.deep_view()),
    {
        if !self.drift_expected_empty {
            return false;
        }
        let mut i: usize = 0;
        while i < self.drift.len()
            invariant
                i <= self.drift@.len(),
                self.drift_expected_empty,
                forall|j: int|
                    0 <= j < i ==> !replay::suspicious(
                        #[trigger] self.deep_view().drift[j].replay,
                    ),
            decreases self.drift@.len() - i,
        {
            if self.drift[i].replay.is_suspicious() {
                assert(replay::suspicious(self.deep_view().drift[i as int].replay));
                return true;
            }
            i = i + 1;
        }
        false
    }
}

// ---------------------------------------------------------------------------
// What moved
// ---------------------------------------------------------------------------
/// The entries of both, those of the second on top.
pub open spec fn merged(first: Entries, second: Entries) -> Entries
    decreases second.len(),
{
    if second.len() == 0 {
        first
    } else {
        inserted(merged(first, second.drop_last()), second.last().0, second.last().1)
    }
}

/// The moves of those of `names` that point elsewhere afterwards.
pub open spec fn moves_among(names: Seq<Text>, before: Entries, after: Entries) -> Seq<RefMoveModel>
    decreases names.len(),
{
    if names.len() == 0 {
        Seq::empty()
    } else {
        let name = names.last();
        let earlier = moves_among(names.drop_last(), before, after);
        if lookup(before, name) != lookup(after, name) {
            earlier.push(
                RefMoveModel { name, before: lookup(before, name), after: lookup(after, name) },
            )
        } else {
            earlier
        }
    }
}

/// Every ref whose commit differs between the two states, in the order of the
/// names.
pub open spec fn moves_between(before: Entries, after: Entries) -> Seq<RefMoveModel> {
    moves_among(names_of(merged(before, after)), before, after)
}

/// Every ref whose commit differs between the two states.
pub fn ref_moves(before: &RefMap, after: &RefMap) -> (moves: Vec<RefMove>)
    ensures
        moves.deep_view() == moves_between(before.deep_view(), after.deep_view()),
{
    let ghost b = before.deep_view();
    let ghost a = after.deep_view();
    let mut all = before.copy();
    let mut i: usize = 0;
    assert(a.take(0) =~= Seq::empty());
    while i < after.len()
        invariant
            i <= a.len(),
            a == after.deep_view(),
            all.deep_view() == merged(b, a.take(i as int)),
        decreases a.len() - i,
    {
        assert(a.take(i + 1).drop_last() =~= a.take(i as int));
        all.insert(after.name(i).clone(), after.value(i).clone());
        i = i + 1;
    }
    assert(a.take(a.len() as int) =~= a);
    let ghost names = names_of(all.deep_view());
    let mut moves: Vec<RefMove> = Vec::new();
    i = 0;
    assert(names.take(0) =~= Seq::empty());
    assert(moves.deep_view() =~= Seq::empty());
    while i < all.len()
        invariant
            i <= names.len(),
            names == names_of(all.deep_view()),
            a == after.deep_view(),
            b == before.deep_view(),
            moves.deep_view() == moves_among(names.take(i as int), b, a),
        decreases names.len() - i,
    {
        assert(names.take(i + 1).drop_last() =~= names.take(i as int));
        let name = all.name(i);
        let was = before.get(name);
        let is = after.get(name);
        if !same_text(&was, &is) {
            put(&mut moves, RefMove { name: name.clone(), before: was, after: is });
        }
        i = i + 1;
    }
    assert(names.take(names.len() as int) =~= names);
    moves
}

proof fn merged_points(first: Entries, second: Entries)
    requires
        ascending(first),
        ascending(second),
    ensures
        ascending(merged(first, second)),
        forall|name: Text| #[trigger]
            lookup(merged(first, second), name) is Some <==> lookup(first, name) is Some || lookup(
                second,
                name,
            ) is Some,
    decreases second.len(),
{
    if second.len() > 0 {
        let rest = second.drop_last();
        assert forall|i: int, j: int| 0 <= i < j < rest.len() implies precedes(
            #[trigger] rest[i].0,
            #[trigger] rest[j].0,
        ) by {
            assert(second[i] == rest[i] && second[j] == rest[j]);
        }
        merged_points(first, rest);
        inserted_points(merged(first, rest), second.last().0, second.last().1);
        assert forall|name: Text| #[trigger]
            lookup(merged(first, second), name) is Some <==> lookup(first, name) is Some || lookup(
                second,
                name,
            ) is Some by {
            assert(lookup(
                inserted(merged(first, rest), second.last().0, second.last().1),
                name,
            ) == if name == second.last().0 {
                Some(second.last().1)
            } else {
                lookup(merged(first, rest), name)
            });
        }
    }
}

proof fn moves_are_moves(names: Seq<Text>, before: Entries, after: Entries)
    requires
        forall|i: int, j: int|
            0 <= i < j < names.len() ==> precedes(#[trigger] names[i], #[trigger] names[j]),
    ensures
        forall|i: int, j: int|
            0 <= i < j < moves_among(names, before, after).len() ==> precedes(
                #[trigger] moves_among(names, before, after)[i].name,
                #[trigger] moves_among(names, before, after)[j].name,
            ),
        forall|i: int|
            0 <= i < moves_among(names, before, after).len() ==> {
                let moved = #[trigger] moves_among(names, before, after)[i];
                &&& names.contains(moved.name)
                &&& moved.before == lookup(before, moved.name)
                &&& moved.after == lookup(after, moved.name)
                &&& moved.before != moved.after
            },
        forall|k: int|
            0 <= k < names.len() && lookup(before, #[trigger] names[k]) != lookup(after, names[k])
                ==> exists|i: int|
                0 <= i < moves_among(names, before, after).len() && #[trigger] moves_among(
                    names,
                    before,
                    after,
                )[i].name == names[k],
    decreases names.len(),
{
    if names.len() > 0 {
        let rest = names.drop_last();
        moves_are_moves(rest, before, after);
        let fewer = moves_among(rest, before, after);
        let all = moves_among(names, before, after);
        assert forall|i: int| 0 <= i < fewer.len() implies names.contains(
            (#[trigger] fewer[i]).name,
        ) by {
            let k = choose|k: int| 0 <= k < rest.len() && rest[k] == fewer[i].name;
            assert(names[k] == fewer[i].name);
        }
        assert(names.contains(names[names.len() - 1]));
        assert forall|i: int, j: int| 0 <= i < j < all.len() implies precedes(
            #[trigger] all[i].name,
            #[trigger] all[j].name,
        ) by {
            if j == fewer.len() {
                let k = choose|k: int| 0 <= k < rest.len() && rest[k] == fewer[i].name;
                assert(names[k] == fewer[i].name);
                assert(precedes(names[k], names[names.len() - 1]));
            }
        }
        assert forall|k: int|
            0 <= k < names.len() && lookup(before, #[trigger] names[k]) != lookup(
                after,
                names[k],
            ) implies exists|i: int| 0 <= i < all.len() && #[trigger] all[i].name == names[k] by {
            if k < rest.len() {
                assert(rest[k] == names[k]);
                let i = choose|i: int|
                    0 <= i < fewer.len() && #[trigger] fewer[i].name == rest[k];
                assert(all[i].name == names[k]);
            } else {
                assert(all[all.len() - 1].name == names[k]);
            }
        }
    }
}

/// The moves name exactly the refs that point elsewhere afterwards, each once
/// and in order, with where they pointed before and where they point now.
pub proof fn moves_are_exact(before: Entries, after: Entries)
    requires
        ascending(before),
        ascending(after),
    ensures
        forall|i: int, j: int|
            0 <= i < j < moves_between(before, after).len() ==> precedes(
                #[trigger] moves_between(before, after)[i].name,
                #[trigger] moves_between(before, after)[j].name,
            ),
        forall|i: int|
            0 <= i < moves_between(before, after).len() ==> {
                let moved = #[trigger] moves_between(before, after)[i];
                &&& moved.before == lookup(before, moved.name)
                &&& moved.after == lookup(after, moved.name)
                &&& moved.before != moved.after
            },
        forall|name: Text|
            lookup(before, name) != #[trigger] lookup(after, name) ==> exists|i: int|
                0 <= i < moves_between(before, after).len() && #[trigger] moves_between(
                    before,
                    after,
                )[i].name == name,
{
    let all = merged(before, after);
    let names = names_of(all);
    merged_points(before, after);
    assert forall|i: int, j: int| 0 <= i < j < names.len() implies precedes(
        #[trigger] names[i],
        #[trigger] names[j],
    ) by {
        assert(precedes(all[i].0, all[j].0));
    }
    moves_are_moves(names, before, after);
    assert forall|name: Text|
        lookup(before, name) != #[trigger] lookup(after, name) implies exists|i: int|
        0 <= i < moves_between(before, after).len() && #[trigger] moves_between(
            before,
            after,
        )[i].name == name by {
        assert(lookup(all, name) is Some);
        lookup_is_entry(all, name);
        let k = choose|k: int| 0 <= k < all.len() && #[trigger] all[k] == (name, lookup(all, name)->0);
        assert(names[k] == name);
    }
}

/// Where a name points once the moves are made: where its move says, and where
/// it pointed before if it has none.
pub open spec fn landed(before: Entries, moves: Seq<RefMoveModel>, name: Text) -> Option<Text>
    decreases moves.len(),
{
    if moves.len() == 0 {
        lookup(before, name)
    } else if moves.last().name == name {
        moves.last().after
    } else {
        landed(before, moves.drop_last(), name)
    }
}

/// Where a name points once the moves are taken back.
pub open spec fn taken_back(after: Entries, moves: Seq<RefMoveModel>, name: Text) -> Option<Text>
    decreases moves.len(),
{
    if moves.len() == 0 {
        lookup(after, name)
    } else if moves.last().name == name {
        moves.last().before
    } else {
        taken_back(after, moves.drop_last(), name)
    }
}

proof fn landed_by_its_move(before: Entries, after: Entries, moves: Seq<RefMoveModel>, name: Text)
    requires
        forall|i: int|
            0 <= i < moves.len() ==> (#[trigger] moves[i]).after == lookup(after, moves[i].name)
                && moves[i].before == lookup(before, moves[i].name),
    ensures
        (exists|i: int| 0 <= i < moves.len() && (#[trigger] moves[i]).name == name) ==> landed(
            before,
            moves,
            name,
        ) == lookup(after, name) && taken_back(after, moves, name) == lookup(before, name),
        !(exists|i: int| 0 <= i < moves.len() && (#[trigger] moves[i]).name == name) ==> landed(
            before,
            moves,
            name,
        ) == lookup(before, name) && taken_back(after, moves, name) == lookup(after, name),
    decreases moves.len(),
{
    if moves.len() > 0 {
        let rest = moves.drop_last();
        assert(moves[moves.len() - 1] == moves.last());
        assert forall|i: int| 0 <= i < rest.len() implies (#[trigger] rest[i]).after == lookup(
            after,
            rest[i].name,
        ) && rest[i].before == lookup(before, rest[i].name) by {
            assert(moves[i] == rest[i]);
        }
        landed_by_its_move(before, after, rest, name);
        if moves.last().name != name {
            if exists|i: int| 0 <= i < moves.len() && (#[trigger] moves[i]).name == name {
                let i = choose|i: int| 0 <= i < moves.len() && (#[trigger] moves[i]).name == name;
                assert(rest[i].name == name);
            }
            if exists|i: int| 0 <= i < rest.len() && (#[trigger] rest[i]).name == name {
                let i = choose|i: int| 0 <= i < rest.len() && (#[trigger] rest[i]).name == name;
                assert(moves[i].name == name);
            }
        }
    }
}

/// Making the moves on the state before gives the state after, for every name,
/// and taking them back on the state after gives the state before.
pub proof fn moves_lead_there_and_back(before: Entries, after: Entries, name: Text)
    requires
        ascending(before),
        ascending(after),
    ensures
        landed(before, moves_between(before, after), name) == lookup(after, name),
        taken_back(after, moves_between(before, after), name) == lookup(before, name),
{
    moves_are_exact(before, after);
    landed_by_its_move(before, after, moves_between(before, after), name);
    assert(lookup(before, name) != lookup(after, name) ==> exists|i: int|
        0 <= i < moves_between(before, after).len() && #[trigger] moves_between(
            before,
            after,
        )[i].name == name);
}

// ---------------------------------------------------------------------------
// The sandbox as it is
// ---------------------------------------------------------------------------
pub open spec fn head_args() -> Seq<Text> {
    seq!["rev-parse"@, "--verify"@, "--quiet"@, "HEAD"@]
}

/// The refs right now, in the same shape as the pre-state. An unborn `HEAD`
/// has no entry, which the comparison reads as a deletion.
#[verifier::opaque]
pub open spec fn current_state_script(worktree: Text, tape: Tape) -> Run<Entries> {
    git::refs_script(worktree, "refs/heads/"@, 0, tape).and_then(|refs: Entries, tape: Tape|
    git::run_script(worktree, head_args(), tape).either(
        |head: Text, tape: Tape| Run::Gives(inserted(refs, "HEAD"@, head), tape),
        |fault: Fault, tape: Tape| Run::Gives(refs, tape),
    ))
}

/// The sandbox's refs right now, in the same shape as the pre-state.
pub fn current_state(session: &mut Session, worktree: &str) -> (outcome: Result<RefMap, Stop>)
    ensures
        ran(outcome, final(session)@) == current_state_script(worktree@, old(session)@),
{
    proof {
        reveal(current_state_script);
    }
    let mut refs = git::refs(session, worktree, "refs/heads/", 0)?;
    if let Ok(head) = caught(
        git::run(session, worktree, args4("rev-parse", "--verify", "--quiet", "HEAD")),
    )? {
        refs.insert("HEAD".to_owned(), head);
    }
    Ok(refs)
}

/// The commit that a rebase records as the one it was replaying.
#[verifier::opaque]
pub open spec fn recorded_stop_script(dir: Text, tape: Tape) -> Run<Option<Text>> {
    read_text_script(inside(dir, "rebase-merge/stopped-sha"@), tape).and_then(
        |first: HeardModel<Text>, tape: Tape|
            match first {
                HeardModel::Got(sha) => Run::Gives(Some(trimmed(sha)), tape),
                HeardModel::Trouble(_) => read_text_script(
                    inside(dir, "rebase-apply/original-commit"@),
                    tape,
                ).and_then(
                    |second: HeardModel<Text>, tape: Tape|
                        match second {
                            HeardModel::Got(sha) => Run::Gives(Some(trimmed(sha)), tape),
                            HeardModel::Trouble(_) => Run::Gives(None, tape),
                        },
                ),
            },
    )
}

fn recorded_stop(session: &mut Session, dir: &str) -> (outcome: Result<Option<String>, Stop>)
    ensures
        ran(outcome, final(session)@) == recorded_stop_script(dir@, old(session)@),
{
    proof {
        reveal(recorded_stop_script);
    }
    if let Heard::Got(sha) = read_text(session, &join_path(dir, "rebase-merge/stopped-sha"))? {
        return Ok(Some(trim(&sha)));
    }
    if let Heard::Got(sha) = read_text(session, &join_path(dir, "rebase-apply/original-commit"))? {
        return Ok(Some(trim(&sha)));
    }
    Ok(None)
}

pub open spec fn verify_args(name: Text) -> Seq<Text> {
    seq!["rev-parse"@, "--verify"@, "--quiet"@, name]
}

/// The commit that another sequencer operation records as a ref.
#[verifier::opaque]
pub open spec fn pending_head_script(worktree: Text, tape: Tape) -> Run<Option<Text>> {
    git::run_script(worktree, verify_args("CHERRY_PICK_HEAD"@), tape).either(
        |sha: Text, tape: Tape| Run::Gives(Some(sha), tape),
        |fault: Fault, tape: Tape|
            git::run_script(worktree, verify_args("REVERT_HEAD"@), tape).either(
                |sha: Text, tape: Tape| Run::Gives(Some(sha), tape),
                |fault: Fault, tape: Tape|
                    git::run_script(worktree, verify_args("MERGE_HEAD"@), tape).either(
                        |sha: Text, tape: Tape| Run::Gives(Some(sha), tape),
                        |fault: Fault, tape: Tape| Run::Gives(None, tape),
                    ),
            ),
    )
}

fn pending_head(session: &mut Session, worktree: &str) -> (outcome: Result<Option<String>, Stop>)
    ensures
        ran(outcome, final(session)@) == pending_head_script(worktree@, old(session)@),
{
    proof {
        reveal(pending_head_script);
    }
    if let Ok(sha) = caught(
        git::run(session, worktree, args4("rev-parse", "--verify", "--quiet", "CHERRY_PICK_HEAD")),
    )? {
        return Ok(Some(sha));
    }
    if let Ok(sha) = caught(
        git::run(session, worktree, args4("rev-parse", "--verify", "--quiet", "REVERT_HEAD")),
    )? {
        return Ok(Some(sha));
    }
    if let Ok(sha) = caught(
        git::run(session, worktree, args4("rev-parse", "--verify", "--quiet", "MERGE_HEAD")),
    )? {
        return Ok(Some(sha));
    }
    Ok(None)
}

/// The full commit that a candidate names, with its subject. What git does not
/// know as a commit is none.
#[verifier::opaque]
pub open spec fn described_script(
    worktree: Text,
    candidate: Text,
    tape: Tape,
) -> Run<Option<CommitModel>> {
    git::run_script(
        worktree,
        seq!["rev-parse"@, "--verify"@, candidate + "^{commit}"@],
        tape,
    ).either(
        |sha: Text, tape: Tape|
            git::run_script(worktree, seq!["log"@, "-1"@, "--format=%s"@, sha], tape).and_then(
                |subject: Text, tape: Tape|
                    Run::Gives(Some(CommitModel { sha, subject }), tape),
            ),
        |fault: Fault, tape: Tape| Run::Gives(None, tape),
    )
}

/// The commit the command stopped on.
#[verifier::opaque]
pub open spec fn stopped_at_script(worktree: Text, tape: Tape) -> Run<Option<CommitModel>> {
    git::path_script(worktree, git_dir_args(), tape).and_then(|dir: Text, tape: Tape|
    recorded_stop_script(dir, tape).and_then(|recorded: Option<Text>, tape: Tape|
    match recorded {
        Some(candidate) => described_script(worktree, candidate, tape),
        None => pending_head_script(worktree, tape).and_then(|pending: Option<Text>, tape: Tape|
            match pending {
                Some(candidate) => described_script(worktree, candidate, tape),
                None => Run::Gives(None, tape),
            }),
    }))
}

fn described(session: &mut Session, worktree: &str, candidate: &str) -> (outcome: Result<
    Option<Commit>,
    Stop,
>)
    ensures
        ran(outcome, final(session)@) == described_script(worktree@, candidate@, old(session)@),
{
    proof {
        reveal(described_script);
    }
    match caught(
        git::run(
            session,
            worktree,
            args3("rev-parse", "--verify", &cat2(candidate, "^{commit}")),
        ),
    )? {
        Ok(sha) => {
            let subject = git::run(session, worktree, args4("log", "-1", "--format=%s", &sha))?;
            Ok(Some(Commit { sha, subject }))
        },
        Err(_) => Ok(None),
    }
}

/// The commit the command stopped on.
pub fn stopped_at(session: &mut Session, worktree: &str) -> (outcome: Result<Option<Commit>, Stop>)
    ensures
        ran(outcome, final(session)@) == stopped_at_script(worktree@, old(session)@),
{
    proof {
        reveal(stopped_at_script);
    }
    let dir = git::run_path(session, worktree, args2("rev-parse", "--absolute-git-dir"))?;
    if let Some(candidate) = recorded_stop(session, &dir)? {
        return described(session, worktree, &candidate);
    }
    match pending_head(session, worktree)? {
        Some(candidate) => described(session, worktree, &candidate),
        None => Ok(None),
    }
}

// ---------------------------------------------------------------------------
// Conflicts
// ---------------------------------------------------------------------------
/// What a conflict hunk starts with.
pub open spec fn marker() -> Seq<u8> {
    vstd::utf8::encode_utf8("<<<<<<< "@)
}

/// How many of the lines start a conflict hunk.
pub open spec fn hunks_in(lines: Seq<Seq<u8>>) -> nat
    decreases lines.len(),
{
    if lines.len() == 0 {
        0
    } else {
        hunks_in(lines.drop_last()) + if marker().is_prefix_of(lines.last()) {
            1nat
        } else {
            0
        }
    }
}

/// Counts conflict hunks by their start marker. Bytes, because a conflicted
/// file need not be UTF-8.
pub fn count_hunks(contents: &Vec<u8>) -> (count: usize)
    ensures
        count == hunks_in(pieces(contents@, 10u8)),
{
    let found = split_bytes(contents, 10);
    let start = bytes_of("<<<<<<< ");
    let ghost all = found.deep_view();
    let mut count: usize = 0;
    let mut i: usize = 0;
    assert(all.take(0) =~= Seq::empty());
    while i < found.len()
        invariant
            i <= found@.len(),
            all == found.deep_view(),
            start@ == marker(),
            count == hunks_in(all.take(i as int)),
            count <= i,
        decreases found@.len() - i,
    {
        assert(all.take(i + 1).drop_last() =~= all.take(i as int));
        assert(all.take(i + 1).last() =~= found[i as int]@);
        if bytes_start_with(&found[i], &start) {
            count = count + 1;
        }
        i = i + 1;
    }
    assert(all.take(all.len() as int) =~= all);
    count
}

/// The hunks of a file that could be examined: one that is not there has none,
/// which is how a path looks that one side deleted.
pub open spec fn hunks_of(content: HeardModel<Seq<u8>>) -> Result<int, Text> {
    match content {
        HeardModel::Got(bytes) => Ok(hunks_in(pieces(bytes, 10u8)) as int),
        HeardModel::Trouble(trouble) => if trouble.reason == Reason::Missing {
            Ok(0)
        } else {
            Err(trouble.message)
        },
    }
}

/// Reads each of `paths`, after those in `done`. A file that is there and cannot
/// be read is not reported as one without hunks.
pub open spec fn conflicts_from(
    worktree: Text,
    paths: Seq<Text>,
    done: Seq<ConflictModel>,
    tape: Tape,
) -> Run<Seq<ConflictModel>>
    decreases paths.len(),
{
    if paths.len() == 0 {
        Run::Gives(done, tape)
    } else {
        read_bytes_script(inside(worktree, path_named(paths[0])), tape).and_then(
            |content: HeardModel<Seq<u8>>, tape: Tape|
                match hunks_of(content) {
                    Err(message) => Run::Fails(
                        Fault::Io(inside(worktree, path_named(paths[0])), message),
                        tape,
                    ),
                    Ok(hunks) => conflicts_from(
                        worktree,
                        paths.drop_first(),
                        done.push(ConflictModel { path: paths[0], hunks }),
                        tape,
                    ),
                },
        )
    }
}

/// Unmerged paths, with the number of conflict hunks in each.
#[verifier::opaque]
pub open spec fn conflicts_script(worktree: Text, tape: Tape) -> Run<Seq<ConflictModel>> {
    git::run_script(worktree, unmerged_args(), tape).and_then(
        |listing: Text, tape: Tape|
            conflicts_from(worktree, zero_separated(listing), Seq::empty(), tape),
    )
}

/// Unmerged paths, with the number of conflict hunks in each.
pub fn conflicts(session: &mut Session, worktree: &str) -> (outcome: Result<Vec<Conflict>, Stop>)
    ensures
        ran(outcome, final(session)@) == conflicts_script(worktree@, old(session)@),
{
    proof {
        reveal(conflicts_script);
    }
    let listing = git::run(
        session,
        worktree,
        args4("diff", "--name-only", "--diff-filter=U", "-z"),
    )?;
    let paths = split_zero(&listing);
    let ghost all = paths.deep_view();
    let mut done: Vec<Conflict> = Vec::new();
    let mut i: usize = 0;
    assert(all.skip(0) =~= all);
    assert(done.deep_view() =~= Seq::empty());
    while i < paths.len()
        invariant
            i <= paths@.len(),
            all == paths.deep_view(),
            conflicts_script(worktree@, old(session)@) == conflicts_from(
                worktree@,
                all.skip(i as int),
                done.deep_view(),
                session@,
            ),
        decreases paths@.len() - i,
    {
        assert(all.skip(i as int).drop_first() =~= all.skip(i + 1));
        assert(all.skip(i as int)[0] == paths[i as int]@);
        let file = join_path(worktree, &from_text(&paths[i]));
        let hunks = match read_bytes(session, &file)? {
            Heard::Got(content) => {
                assert(content.deep_view() =~= content@);
                count_hunks(&content)
            },
            Heard::Trouble(trouble) => {
                if trouble.reason != Reason::Missing {
                    return Err(Stop::Fail(Error::io(&file, &trouble.message)));
                }
                0
            },
        };
        put(&mut done, Conflict { path: paths[i].clone(), hunks });
        i = i + 1;
    }
    Ok(done)
}

// ---------------------------------------------------------------------------
// Drift
// ---------------------------------------------------------------------------
/// Whether a status is that of a rename or a copy, which has two paths.
pub open spec fn has_two_paths(status: Text) -> bool {
    status.len() > 0 && (status[0] == 'R' || status[0] == 'C')
}

/// The changes that the fields of a listing name: a status and a path each, and
/// for a rename or a copy the destination behind the source.
pub open spec fn changes_in(fields: Seq<Text>) -> Seq<FileChangeModel>
    decreases fields.len(),
{
    if fields.len() < 2 {
        Seq::empty()
    } else if has_two_paths(fields[0]) && fields.len() > 2 {
        seq![FileChangeModel { status: fields[0], path: fields[2] }] + changes_in(fields.skip(3))
    } else {
        seq![FileChangeModel { status: fields[0], path: fields[1] }] + changes_in(fields.skip(2))
    }
}

/// The changes that a NUL-separated listing names.
pub fn parse_changes(listing: &str) -> (changes: Vec<FileChange>)
    ensures
        changes.deep_view() == changes_in(zero_separated(listing@)),
{
    let fields = split_zero(listing);
    let len = fields.len();
    let ghost all = fields.deep_view();
    let mut changes: Vec<FileChange> = Vec::new();
    let mut i: usize = 0;
    assert(all.skip(0) =~= all);
    assert(changes.deep_view() + changes_in(all) =~= changes_in(all));
    while i < len && len - i >= 2
        invariant
            i <= len,
            len == fields@.len(),
            all == fields.deep_view(),
            changes.deep_view() + changes_in(all.skip(i as int)) == changes_in(all),
        decreases len - i,
    {
        let ghost rest = all.skip(i as int);
        let ghost done = changes.deep_view();
        assert(rest[0] == fields[i as int]@);
        let renamed = {
            let letter = crate::text::chars_of(&fields[i]);
            letter.len() > 0 && (letter[0] == 'R' || letter[0] == 'C')
        };
        if renamed && len - i > 2 {
            put(
                &mut changes,
                FileChange { status: fields[i].clone(), path: fields[i + 2].clone() },
            );
            assert(rest.skip(3) =~= all.skip(i + 3));
            assert(rest[2] == fields[i + 2]@);
            assert(changes.deep_view() + changes_in(all.skip(i + 3)) =~= done + changes_in(rest));
            i = i + 3;
        } else {
            put(
                &mut changes,
                FileChange { status: fields[i].clone(), path: fields[i + 1].clone() },
            );
            assert(rest.skip(2) =~= all.skip(i + 2));
            assert(rest[1] == fields[i + 1]@);
            assert(changes.deep_view() + changes_in(all.skip(i + 2)) =~= done + changes_in(rest));
            i = i + 2;
        }
    }
    assert(changes.deep_view() + Seq::empty() =~= changes.deep_view());
    changes
}

/// The files that differ between two commits.
#[verifier::opaque]
pub open spec fn name_status_script(
    worktree: Text,
    before: Text,
    after: Text,
    tape: Tape,
) -> Run<Seq<FileChangeModel>> {
    git::run_script(
        worktree,
        seq!["diff"@, "--name-status"@, "-z"@, before, after],
        tape,
    ).and_then(
        |listing: Text, tape: Tape| Run::Gives(changes_in(zero_separated(listing)), tape),
    )
}

fn name_status(session: &mut Session, worktree: &str, before: &str, after: &str) -> (outcome:
    Result<Vec<FileChange>, Stop>)
    ensures
        ran(outcome, final(session)@) == name_status_script(
            worktree@,
            before@,
            after@,
            old(session)@,
        ),
{
    proof {
        reveal(name_status_script);
    }
    let listing = git::run(
        session,
        worktree,
        args5("diff", "--name-status", "-z", before, after),
    )?;
    Ok(parse_changes(&listing))
}

/// The two sides since their common ancestor.
pub open spec fn both_sides(before: Text, after: Text) -> Text {
    before + "..."@ + after
}

/// Compares the commits behind the two tips, commit by commit. Where git will
/// not compare them nothing is known.
#[verifier::opaque]
pub open spec fn replay_script(
    worktree: Text,
    before: Text,
    after: Text,
    tape: Tape,
) -> Run<ReplayModel> {
    git::run_script(
        worktree,
        seq!["range-diff"@, "--no-color"@, "--no-patch"@, both_sides(before, after)],
        tape,
    ).either(
        |listing: Text, tape: Tape| Run::Gives(replay::replay_in(listing), tape),
        |fault: Fault, tape: Tape| Run::Gives(replay::empty_replay(false), tape),
    )
}

fn compare_commits(session: &mut Session, worktree: &str, before: &str, after: &str) -> (outcome:
    Result<Replay, Stop>)
    ensures
        ran(outcome, final(session)@) == replay_script(worktree@, before@, after@, old(session)@),
{
    proof {
        reveal(replay_script);
    }
    match caught(
        git::run(
            session,
            worktree,
            args4("range-diff", "--no-color", "--no-patch", &cat3(before, "...", after)),
        ),
    )? {
        Ok(listing) => Ok(parse_range_diff(&listing)),
        Err(_) => Ok(Replay::default()),
    }
}

/// The count that the word at `i` writes, and zero where it writes none.
pub open spec fn count_at(words: Seq<Text>, i: int) -> int {
    if 0 <= i < words.len() {
        match number_of(words[i], usize::MAX as nat) {
            Some(n) => n as int,
            None => 0,
        }
    } else {
        0
    }
}

fn count_word(found: &Vec<String>, i: usize) -> (count: usize)
    ensures
        count == count_at(found.deep_view(), i as int),
{
    if i < found.len() {
        match parse(&found[i], usize::MAX as u64) {
            Some(n) => n as usize,
            None => 0,
        }
    } else {
        0
    }
}

/// How many commits each tip carries since their common ancestor.
#[verifier::opaque]
pub open spec fn commit_counts_script(
    worktree: Text,
    before: Text,
    after: Text,
    tape: Tape,
) -> Run<(int, int)> {
    git::run_script(
        worktree,
        seq!["rev-list"@, "--left-right"@, "--count"@, both_sides(before, after)],
        tape,
    ).and_then(
        |counts: Text, tape: Tape|
            Run::Gives((count_at(words_of(counts), 0), count_at(words_of(counts), 1)), tape),
    )
}

/// Two counts.
pub struct Counts {
    pub before: usize,
    pub after: usize,
}

impl DeepView for Counts {
    type V = (int, int);

    open spec fn deep_view(&self) -> (int, int) {
        (self.before as int, self.after as int)
    }
}

fn commit_counts(session: &mut Session, worktree: &str, before: &str, after: &str) -> (outcome:
    Result<Counts, Stop>)
    ensures
        ran(outcome, final(session)@) == commit_counts_script(
            worktree@,
            before@,
            after@,
            old(session)@,
        ),
{
    proof {
        reveal(commit_counts_script);
    }
    let counts = git::run(
        session,
        worktree,
        args4("rev-list", "--left-right", "--count", &cat3(before, "...", after)),
    )?;
    let found = words(&counts);
    Ok(Counts { before: count_word(&found, 0), after: count_word(&found, 1) })
}

/// The content difference of one rewritten ref, where there is one.
#[verifier::opaque]
pub open spec fn drift_of_script(
    worktree: Text,
    reference: Text,
    before: Text,
    after: Text,
    tape: Tape,
) -> Run<Option<DriftModel>> {
    name_status_script(worktree, before, after, tape).and_then(
        |changes: Seq<FileChangeModel>, tape: Tape|
            if changes.len() == 0 {
                Run::Gives(None, tape)
            } else {
                commit_counts_script(worktree, before, after, tape).and_then(
                    |counts: (int, int), tape: Tape|
                        replay_script(worktree, before, after, tape).and_then(
                            |replay: ReplayModel, tape: Tape|
                                Run::Gives(
                                    Some(
                                        DriftModel {
                                            reference,
                                            changes,
                                            commits_before: counts.0,
                                            commits_after: counts.1,
                                            replay,
                                        },
                                    ),
                                    tape,
                                ),
                        ),
                )
            },
    )
}

fn drift_of(session: &mut Session, worktree: &str, reference: &str, before: &str, after: &str) -> (
    outcome: Result<Option<Drift>, Stop>)
    ensures
        ran(outcome, final(session)@) == drift_of_script(
            worktree@,
            reference@,
            before@,
            after@,
            old(session)@,
        ),
{
    proof {
        reveal(drift_of_script);
    }
    let changes = name_status(session, worktree, before, after)?;
    if changes.len() == 0 {
        return Ok(None);
    }
    let counts = commit_counts(session, worktree, before, after)?;
    let replay = compare_commits(session, worktree, before, after)?;
    Ok(
        Some(
            Drift {
                reference: reference.to_owned(),
                changes,
                commits_before: counts.before,
                commits_after: counts.after,
                replay,
            },
        ),
    )
}

/// Content differences for each of `moves`, after those in `done`. `HEAD` moves
/// with its branch, and a created or deleted branch has no content to compare
/// with.
pub open spec fn drift_from(
    worktree: Text,
    moves: Seq<RefMoveModel>,
    done: Seq<DriftModel>,
    tape: Tape,
) -> Run<Seq<DriftModel>>
    decreases moves.len(),
{
    if moves.len() == 0 {
        Run::Gives(done, tape)
    } else {
        match (moves[0].before, moves[0].after) {
            (Some(before), Some(after)) if moves[0].name != "HEAD"@ => drift_of_script(
                worktree,
                moves[0].name,
                before,
                after,
                tape,
            ).and_then(
                |drift: Option<DriftModel>, tape: Tape|
                    drift_from(
                        worktree,
                        moves.drop_first(),
                        match drift {
                            Some(drift) => done.push(drift),
                            None => done,
                        },
                        tape,
                    ),
            ),
            _ => drift_from(worktree, moves.drop_first(), done, tape),
        }
    }
}

/// Content differences for every branch that was rewritten.
pub fn drift(session: &mut Session, worktree: &str, moves: &Vec<RefMove>) -> (outcome: Result<
    Vec<Drift>,
    Stop,
>)
    ensures
        ran(outcome, final(session)@) == drift_from(
            worktree@,
            moves.deep_view(),
            Seq::empty(),
            old(session)@,
        ),
{
    let ghost all = moves.deep_view();
    let mut drifted: Vec<Drift> = Vec::new();
    let mut i: usize = 0;
    assert(all.skip(0) =~= all);
    assert(drifted.deep_view() =~= Seq::empty());
    while i < moves.len()
        invariant
            i <= moves@.len(),
            all == moves.deep_view(),
            drift_from(worktree@, all, Seq::empty(), old(session)@) == drift_from(
                worktree@,
                all.skip(i as int),
                drifted.deep_view(),
                session@,
            ),
        decreases moves@.len() - i,
    {
        assert(all.skip(i as int).drop_first() =~= all.skip(i + 1));
        let moved = &moves[i];
        assert(all.skip(i as int)[0] == moved.deep_view());
        if !same(&moved.name, "HEAD") {
            if let (Some(before), Some(after)) = (&moved.before, &moved.after) {
                if let Some(found) = drift_of(session, worktree, &moved.name, before, after)? {
                    put(&mut drifted, found);
                }
            }
        }
        i = i + 1;
    }
    Ok(drifted)
}

/// Whether a command is supposed to land on the same content it started with.
pub open spec fn keeps_content(command: Seq<Text>) -> bool {
    command.len() > 0 && (command[0] == "rebase"@ || command[0] == "cherry-pick"@)
}

/// Whether this command is supposed to land on the same content it started
/// with.
pub fn preserves_content(command: &Vec<String>) -> (yes: bool)
    ensures
        yes == keeps_content(command.deep_view()),
{
    if command.len() == 0 {
        return false;
    }
    assert(command.deep_view()[0] == command[0]@);
    same(&command[0], "rebase") || same(&command[0], "cherry-pick")
}

/// Where the command stopped and on what, if it stopped.
#[verifier::opaque]
pub open spec fn stop_script(
    worktree: Text,
    outcome: Outcome,
    tape: Tape,
) -> Run<(Option<CommitModel>, Seq<ConflictModel>)> {
    if outcome is Stopped {
        stopped_at_script(worktree, tape).and_then(|commit: Option<CommitModel>, tape: Tape|
        conflicts_script(worktree, tape).and_then(|conflicts: Seq<ConflictModel>, tape: Tape|
            Run::Gives((commit, conflicts), tape)))
    } else {
        Run::Gives((None, Seq::empty()), tape)
    }
}

/// Reads the sandbox and works out what the command did to it.
#[verifier::opaque]
pub open spec fn run_script(
    worktree: Text,
    pre_state: Entries,
    command: Seq<Text>,
    outcome: Outcome,
    tape: Tape,
) -> Run<AnalysisModel> {
    current_state_script(worktree, tape).and_then(|after: Entries, tape: Tape|
    stop_script(worktree, outcome, tape).and_then(
        |stop: (Option<CommitModel>, Seq<ConflictModel>), tape: Tape|
    drift_from(worktree, moves_between(pre_state, after), Seq::empty(), tape).and_then(
        |drift: Seq<DriftModel>, tape: Tape|
            Run::Gives(
                AnalysisModel {
                    ref_moves: moves_between(pre_state, after),
                    stopped_at: stop.0,
                    conflicts: stop.1,
                    drift,
                    drift_expected_empty: keeps_content(command),
                },
                tape,
            ))))
}

/// Where a command stopped, and the conflicts there.
pub struct StopPoint {
    pub commit: Option<Commit>,
    pub conflicts: Vec<Conflict>,
}

impl DeepView for StopPoint {
    type V = (Option<CommitModel>, Seq<ConflictModel>);

    open spec fn deep_view(&self) -> (Option<CommitModel>, Seq<ConflictModel>) {
        (self.commit.deep_view(), self.conflicts.deep_view())
    }
}

fn stop_point(session: &mut Session, worktree: &str, outcome: &Outcome) -> (result: Result<
    StopPoint,
    Stop,
>)
    ensures
        ran(result, final(session)@) == stop_script(worktree@, *outcome, old(session)@),
{
    proof {
        reveal(stop_script);
    }
    match outcome {
        Outcome::Stopped { .. } => {
            let commit = stopped_at(session, worktree)?;
            let conflicts = conflicts(session, worktree)?;
            Ok(StopPoint { commit, conflicts })
        },
        _ => {
            let conflicts: Vec<Conflict> = Vec::new();
            assert(conflicts.deep_view() =~= Seq::empty());
            Ok(StopPoint { commit: None, conflicts })
        },
    }
}

/// Reads the sandbox and works out what the command did to it. `pre_state` is
/// preflight's snapshot: the refs as they were before the clone, which is also
/// what the sandbox started from.
pub fn run(
    session: &mut Session,
    worktree: &str,
    pre_state: &RefMap,
    command: &Vec<String>,
    outcome: &Outcome,
) -> (result: Result<Analysis, Stop>)
    ensures
        ran(result, final(session)@) == run_script(
            worktree@,
            pre_state.deep_view(),
            command.deep_view(),
            *outcome,
            old(session)@,
        ),
{
    proof {
        reveal(run_script);
    }
    let after = current_state(session, worktree)?;
    let ref_moves = ref_moves(pre_state, &after);
    let stop = stop_point(session, worktree, outcome)?;
    let drift = drift(session, worktree, &ref_moves)?;
    Ok(
        Analysis {
            ref_moves,
            stopped_at: stop.commit,
            conflicts: stop.conflicts,
            drift,
            drift_expected_empty: preserves_content(command),
        },
    )
}

} // verus!
