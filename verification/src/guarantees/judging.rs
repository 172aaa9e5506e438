//! What the analysis of a rehearsal is made of.

use vstd::prelude::*;

use crate::analyze::replay::{empty_replay, replay_in, suspicious};
use crate::analyze::{
    self, changes_in, conflicts_from, count_at, current_state_script, drift_from, drift_of_script, moves_are_exact,
    moves_between, AnalysisModel, ConflictModel, DriftModel, RefMoveModel,
};
use crate::execute::{zero_separated, Outcome};
use crate::files::read_bytes_script;
use crate::git;
use crate::guarantees::applying::{
    state_was_told, states_are_asked_for, states_widen, told_states_are_in_order,
};
use crate::guarantees::carrying::unmerged_words;
use crate::guarantees::comparing::{
    a_listing_is_accounted_for, a_lost_commit_is_named, accounts_for, lists, subjects_with,
    PairModel,
};
use crate::guarantees::conversation::{
    continues, git_in, going_on_adds_up, is_complete, left_by, requests_are_exchanges, spoken,
    was_asked,
};
use crate::parts::{pieces, words_of};
use crate::paths::{inside, path_named};
use crate::refs::{ascending, lookup, Entries};
use crate::session::{Answer, Ask, Run, Tape};
use crate::text::Text;

verus! {

/// The arguments that ask git for the files that differ, from the first commit to the
/// second.
pub open spec fn difference_words(before: Text, after: Text) -> Seq<Text> {
    seq!["diff"@, "--name-status"@, "-z"@, before, after]
}

/// The arguments that ask git how many commits either side has, the first side first.
pub open spec fn counting_words(before: Text, after: Text) -> Seq<Text> {
    seq!["rev-list"@, "--left-right"@, "--count"@, before + "..."@ + after]
}

/// The arguments that have git compare the commits of two ranges, the old range on the
/// left and the new one on the right.
pub open spec fn range_words(before: Text, after: Text) -> Seq<Text> {
    seq!["range-diff"@, "--no-color"@, "--no-patch"@, before + "..."@ + after]
}

/// Whether a drift is what git said, from request number `i` on, of the commits that a
/// ref pointed to before and points to now.
pub open spec fn drift_was_told(
    drift: DriftModel,
    worktree: Text,
    before: Text,
    after: Text,
    tape: Tape,
    later: Tape,
    i: int,
) -> bool {
    &&& was_asked(git_in(worktree, difference_words(before, after)), tape, later, i)
    &&& spoken(later.log[i]) matches Some(listing) && drift.changes == changes_in(
        zero_separated(listing),
    )
    &&& drift.changes.len() > 0
    &&& was_asked(git_in(worktree, counting_words(before, after)), tape, later, i + 1)
    &&& spoken(later.log[i + 1]) matches Some(counts) && drift.commits_before == count_at(
        words_of(counts),
        0,
    ) && drift.commits_after == count_at(words_of(counts), 1)
    &&& was_asked(git_in(worktree, range_words(before, after)), tape, later, i + 2)
    &&& drift.replay == match spoken(later.log[i + 2]) {
        Some(listing) => replay_in(listing),
        None => empty_replay(false),
    }
}

/// Whether a drift is that of a branch that was moved.
pub open spec fn is_drift_of(
    drift: DriftModel,
    moved: RefMoveModel,
    worktree: Text,
    tape: Tape,
    later: Tape,
) -> bool {
    &&& drift.reference == moved.name
    &&& moved.name != "HEAD"@
    &&& moved.before is Some
    &&& moved.after is Some
    &&& exists|i: int|
        #[trigger] drift_was_told(
            drift,
            worktree,
            moved.before->0,
            moved.after->0,
            tape,
            later,
            i,
        )
}

/// Whether a branch that was moved is accounted for: git said that no file differs, or
/// there is a drift of it.
pub open spec fn is_accounted_for(
    moved: RefMoveModel,
    drifts: Seq<DriftModel>,
    worktree: Text,
    tape: Tape,
    later: Tape,
) -> bool {
    moved.name != "HEAD"@ && moved.before is Some && moved.after is Some ==> {
        ||| exists|i: int|
            #[trigger] was_asked(
                git_in(worktree, difference_words(moved.before->0, moved.after->0)),
                tape,
                later,
                i,
            ) && (spoken(later.log[i]) matches Some(listing) && changes_in(
                zero_separated(listing),
            ).len() == 0)
        ||| exists|k: int|
            0 <= k < drifts.len() && is_drift_of(
                #[trigger] drifts[k],
                moved,
                worktree,
                tape,
                later,
            )
    }
}

proof fn drifts_are_told(
    worktree: Text,
    reference: Text,
    before: Text,
    after: Text,
    tape: Tape,
)
    requires
        is_complete(tape),
    ensures
        ({
            let run = drift_of_script(worktree, reference, before, after, tape);
            let later = left_by(run);
            &&& continues(later, tape)
            &&& run matches Run::Gives(Some(drift), _) ==> drift.reference == reference
                && drift_was_told(drift, worktree, before, after, tape, later, tape.next)
            &&& run matches Run::Gives(None, _) ==> was_asked(
                git_in(worktree, difference_words(before, after)),
                tape,
                later,
                tape.next,
            ) && (spoken(later.log[tape.next]) matches Some(listing) && changes_in(
                zero_separated(listing),
            ).len() == 0)
        }),
{
    going_on_adds_up();
    requests_are_exchanges();
    reveal(drift_of_script);
    reveal(analyze::name_status_script);
    reveal(analyze::commit_counts_script);
    reveal(analyze::replay_script);
    reveal(continues);
}

proof fn told_drifts_stay(
    drift: DriftModel,
    moved: RefMoveModel,
    worktree: Text,
    earlier: Tape,
    tape: Tape,
    after: Tape,
    later: Tape,
)
    requires
        continues(tape, earlier),
        continues(after, tape),
        continues(later, after),
        is_drift_of(drift, moved, worktree, tape, after),
    ensures
        is_drift_of(drift, moved, worktree, earlier, later),
{
    reveal(continues);
    let i = choose|i: int|
        #[trigger] drift_was_told(
            drift,
            worktree,
            moved.before->0,
            moved.after->0,
            tape,
            after,
            i,
        );
    assert(drift_was_told(
        drift,
        worktree,
        moved.before->0,
        moved.after->0,
        earlier,
        later,
        i,
    ));
}

/// The drifts behind those that were there before are those of the moves, and every move
/// is accounted for.
proof fn all_drifts_are_told(
    worktree: Text,
    moves: Seq<RefMoveModel>,
    done: Seq<DriftModel>,
    tape: Tape,
)
    requires
        is_complete(tape),
    ensures
        ({
            let run = drift_from(worktree, moves, done, tape);
            let later = left_by(run);
            &&& continues(later, tape)
            &&& run matches Run::Gives(drifts, _) ==> {
                &&& drifts.len() >= done.len()
                &&& forall|k: int| 0 <= k < done.len() ==> #[trigger] drifts[k] == done[k]
                &&& forall|k: int|
                    done.len() <= k < drifts.len() ==> exists|m: int|
                        0 <= m < moves.len() && is_drift_of(
                            #[trigger] drifts[k],
                            #[trigger] moves[m],
                            worktree,
                            tape,
                            later,
                        )
                &&& forall|m: int|
                    0 <= m < moves.len() ==> is_accounted_for(
                        #[trigger] moves[m],
                        drifts,
                        worktree,
                        tape,
                        later,
                    )
            }
        }),
    decreases moves.len(),
{
    going_on_adds_up();
    let run = drift_from(worktree, moves, done, tape);
    let later = left_by(run);
    if moves.len() > 0 {
        let rest = moves.drop_first();
        let moved = moves[0];
        let counts = moved.name != "HEAD"@ && moved.before is Some && moved.after is Some;
        let one = drift_of_script(worktree, moved.name, moved.before->0, moved.after->0, tape);
        if counts {
            drifts_are_told(worktree, moved.name, moved.before->0, moved.after->0, tape);
        }
        let mid = if counts {
            left_by(one)
        } else {
            tape
        };
        let so_far = if counts && one is Gives && one->Gives_0 is Some {
            done.push(one->Gives_0->0)
        } else {
            done
        };
        if !counts || one is Gives {
            all_drifts_are_told(worktree, rest, so_far, mid);
            assert(run == drift_from(worktree, rest, so_far, mid));
            assert(continues(later, mid));
            if let Run::Gives(drifts, _) = run {
                assert forall|k: int| done.len() <= k < drifts.len() implies exists|m: int|
                    0 <= m < moves.len() && is_drift_of(
                        #[trigger] drifts[k],
                        #[trigger] moves[m],
                        worktree,
                        tape,
                        later,
                    ) by {
                    if k < so_far.len() {
                        assert(drifts[k] == so_far[k]);
                        assert(is_drift_of(so_far[k], moved, worktree, tape, mid));
                        told_drifts_stay(so_far[k], moved, worktree, tape, tape, mid, later);
                        assert(is_drift_of(drifts[k], moves[0], worktree, tape, later));
                    } else {
                        let m = choose|m: int|
                            0 <= m < rest.len() && is_drift_of(
                                drifts[k],
                                #[trigger] rest[m],
                                worktree,
                                mid,
                                later,
                            );
                        told_drifts_stay(drifts[k], rest[m], worktree, tape, mid, later, later);
                        assert(is_drift_of(drifts[k], moves[m + 1], worktree, tape, later));
                    }
                }
                assert forall|m: int| 0 <= m < moves.len() implies is_accounted_for(
                    #[trigger] moves[m],
                    drifts,
                    worktree,
                    tape,
                    later,
                ) by {
                    if m == 0 {
                        if counts {
                            if one->Gives_0 is Some {
                                let k = done.len() as int;
                                assert(drifts[k] == so_far[k]);
                                assert(is_drift_of(so_far[k], moved, worktree, tape, mid));
                                told_drifts_stay(
                                    so_far[k],
                                    moved,
                                    worktree,
                                    tape,
                                    tape,
                                    mid,
                                    later,
                                );
                                assert(is_drift_of(drifts[k], moved, worktree, tape, later));
                            } else {
                                assert(was_asked(
                                    git_in(
                                        worktree,
                                        difference_words(moved.before->0, moved.after->0),
                                    ),
                                    tape,
                                    later,
                                    tape.next,
                                ) && later.log == mid.log) by {
                                    reveal(continues);
                                }
                            }
                        }
                    } else {
                        assert(is_accounted_for(rest[m - 1], drifts, worktree, mid, later));
                        assert(moves[m] == rest[m - 1]);
                        accounts_stay(moves[m], drifts, worktree, tape, mid, later);
                    }
                }
            }
        }
    }
}

proof fn accounts_stay(
    moved: RefMoveModel,
    drifts: Seq<DriftModel>,
    worktree: Text,
    earlier: Tape,
    tape: Tape,
    later: Tape,
)
    requires
        continues(tape, earlier),
        continues(later, tape),
        is_accounted_for(moved, drifts, worktree, tape, later),
    ensures
        is_accounted_for(moved, drifts, worktree, earlier, later),
{
    going_on_adds_up();
    if moved.name != "HEAD"@ && moved.before is Some && moved.after is Some {
        let ask = git_in(worktree, difference_words(moved.before->0, moved.after->0));
        if exists|i: int|
            #[trigger] was_asked(ask, tape, later, i) && (spoken(later.log[i]) matches Some(listing)
                && changes_in(zero_separated(listing)).len() == 0) {
            let i = choose|i: int|
                #[trigger] was_asked(ask, tape, later, i) && (spoken(
                    later.log[i],
                ) matches Some(listing) && changes_in(zero_separated(listing)).len() == 0);
            reveal(continues);
            assert(was_asked(ask, earlier, later, i));
        } else {
            let k = choose|k: int|
                0 <= k < drifts.len() && is_drift_of(
                    #[trigger] drifts[k],
                    moved,
                    worktree,
                    tape,
                    later,
                );
            told_drifts_stay(drifts[k], moved, worktree, earlier, tape, later, later);
        }
    }
}

// ---------------------------------------------------------------------------
// Where it stopped
// ---------------------------------------------------------------------------
/// The conflicts behind those that were there before are those of the paths, each with
/// the number of conflict markers in the file.
proof fn conflicts_are_told(
    worktree: Text,
    paths: Seq<Text>,
    done: Seq<ConflictModel>,
    tape: Tape,
)
    requires
        is_complete(tape),
    ensures
        ({
            let run = conflicts_from(worktree, paths, done, tape);
            let later = left_by(run);
            &&& continues(later, tape)
            &&& run matches Run::Gives(found, _) ==> {
                &&& later.next == tape.next + paths.len()
                &&& found.len() == done.len() + paths.len()
                &&& forall|k: int| 0 <= k < done.len() ==> #[trigger] found[k] == done[k]
                &&& forall|k: int|
                    0 <= k < paths.len() ==> is_conflict_of(
                        #[trigger] found[done.len() + k],
                        paths[k],
                        worktree,
                        tape,
                        later,
                        tape.next + k,
                    )
            }
        }),
    decreases paths.len(),
{
    going_on_adds_up();
    requests_are_exchanges();
    let run = conflicts_from(worktree, paths, done, tape);
    let later = left_by(run);
    if paths.len() > 0 {
        let file = inside(worktree, path_named(paths[0]));
        if let Run::Gives(content, mid) = read_bytes_script(file, tape) {
            if let Ok(hunks) = analyze::hunks_of(content) {
                let one = ConflictModel { path: paths[0], hunks };
                let rest = paths.drop_first();
                conflicts_are_told(worktree, rest, done.push(one), mid);
                if let Run::Gives(found, _) = run {
                    assert forall|k: int| 0 <= k < paths.len() implies is_conflict_of(
                        #[trigger] found[done.len() + k],
                        paths[k],
                        worktree,
                        tape,
                        later,
                        tape.next + k,
                    ) by {
                        reveal(continues);
                        reveal(read_bytes_script);
                        if k == 0 {
                            assert(found[done.len() as int] == done.push(one)[done.len() as int]);
                        } else {
                            assert(found[done.push(one).len() + (k - 1)] == found[done.len() + k]);
                            assert(is_conflict_of(
                                found[done.push(one).len() + (k - 1)],
                                rest[k - 1],
                                worktree,
                                mid,
                                later,
                                mid.next + (k - 1),
                            ));
                        }
                    }
                    assert forall|k: int| 0 <= k < done.len() implies #[trigger] found[k]
                        == done[k] by {
                        assert(found[k] == done.push(one)[k]);
                    }
                }
            }
        }
    }
}

/// Whether a conflict is that of a path: the file was read in the sandbox, and the
/// hunks are the markers in it, or none where there is no file.
pub open spec fn is_conflict_of(
    conflict: ConflictModel,
    path: Text,
    worktree: Text,
    tape: Tape,
    later: Tape,
    i: int,
) -> bool {
    &&& conflict.path == path
    &&& was_asked(Ask::ReadBytes(inside(worktree, path_named(path))), tape, later, i)
    &&& match later.log[i] {
        Answer::Bytes(content) => conflict.hunks == analyze::hunks_in(pieces(content, 10u8)),
        _ => conflict.hunks == 0,
    }
}

proof fn stops_go_on(worktree: Text, outcome: Outcome, tape: Tape)
    requires
        is_complete(tape),
    ensures
        continues(left_by(analyze::stop_script(worktree, outcome, tape)), tape),
        analyze::stop_script(worktree, outcome, tape) matches Run::Gives(stop, later) ==> {
            &&& !(outcome is Stopped) ==> stop.0 is None && stop.1.len() == 0 && later == tape
            &&& outcome is Stopped ==> conflicts_were_told(stop.1, worktree, tape, later)
        },
{
    going_on_adds_up();
    requests_are_exchanges();
    reveal(analyze::stop_script);
    reveal(analyze::stopped_at_script);
    reveal(analyze::recorded_stop_script);
    reveal(analyze::pending_head_script);
    reveal(analyze::described_script);
    reveal(analyze::conflicts_script);
    if let Run::Gives(commit, t1) = analyze::stopped_at_script(worktree, tape) {
        assert(continues(t1, tape));
        if let Run::Gives(listing, t2) = git::run_script(worktree, unmerged_words(), t1) {
            assert(continues(t2, t1));
            let paths = zero_separated(listing);
            conflicts_are_told(worktree, paths, Seq::empty(), t2);
            assert(unmerged_words() =~= crate::execute::unmerged_args());
            if let Run::Gives(stop, later) = analyze::stop_script(worktree, outcome, tape) {
                if outcome is Stopped {
                    assert forall|k: int| 0 <= k < paths.len() implies is_conflict_of(
                        #[trigger] stop.1[k],
                        paths[k],
                        worktree,
                        tape,
                        later,
                        t1.next + 1 + k,
                    ) by {
                        assert(stop.1[Seq::<ConflictModel>::empty().len() + k] == stop.1[k]);
                        reveal(continues);
                    }
                    assert(was_asked(git_in(worktree, unmerged_words()), tape, later, t1.next)
                        && spoken(later.log[t1.next]) == Some(listing)) by {
                        reveal(continues);
                    }
                    assert(conflicts_were_told_at(t1.next, stop.1, worktree, tape, later));
                }
            }
        }
    }
}

/// Whether git was asked in the sandbox for the unmerged paths, with request number `i`,
/// and the conflicts are those of the paths that it named, in their order.
pub open spec fn conflicts_were_told_at(
    i: int,
    conflicts: Seq<ConflictModel>,
    worktree: Text,
    tape: Tape,
    later: Tape,
) -> bool {
    &&& was_asked(git_in(worktree, unmerged_words()), tape, later, i)
    &&& spoken(later.log[i]) matches Some(listing) && {
        &&& conflicts.len() == zero_separated(listing).len()
        &&& forall|k: int|
            0 <= k < conflicts.len() ==> is_conflict_of(
                #[trigger] conflicts[k],
                zero_separated(listing)[k],
                worktree,
                tape,
                later,
                i + 1 + k,
            )
    }
}

pub open spec fn conflicts_were_told(
    conflicts: Seq<ConflictModel>,
    worktree: Text,
    tape: Tape,
    later: Tape,
) -> bool {
    exists|i: int| #[trigger] conflicts_were_told_at(i, conflicts, worktree, tape, later)
}

// ---------------------------------------------------------------------------
// All of it
// ---------------------------------------------------------------------------
/// A drift is judged by the commits that a branch had before and has now. Where git
/// compares two ranges as the pairs of `ranges`, old on the left and new on the right,
/// every branch whose files differ is judged by the range up to where the rehearsal found
/// it against the range up to where the sandbox has it: the replay accounts for each of
/// those commits, and it is suspicious exactly where a commit is gone or does something
/// else.
pub proof fn drift_is_judged_by_the_replayed_commits(
    worktree: Text,
    pre_state: Entries,
    command: Seq<Text>,
    outcome: Outcome,
    tape: Tape,
    analysis: AnalysisModel,
    later: Tape,
    ranges: spec_fn(Text, Text) -> Seq<PairModel>,
)
    requires
        is_complete(tape),
        ascending(pre_state),
        analyze::run_script(worktree, pre_state, command, outcome, tape) == Run::Gives(
            analysis,
            later,
        ),
        forall|i: int, old: Text, new: Text|
            #[trigger] was_asked(git_in(worktree, range_words(old, new)), tape, later, i) ==> (
            spoken(later.log[i]) matches Some(listing) && lists(listing, ranges(old, new))),
    ensures
        exists|rehearsed: Entries|
            #[trigger] state_was_told(worktree, rehearsed, tape, later, tape.next)
                && is_judged_so(analysis, pre_state, rehearsed, worktree, ranges, tape, later),
        analysis.drift_expected_empty <==> command.len() > 0 && (command[0] == "rebase"@
            || command[0] == "cherry-pick"@),
        !(outcome is Stopped) ==> analysis.conflicts.len() == 0 && analysis.stopped_at is None,
        outcome is Stopped ==> conflicts_were_told(analysis.conflicts, worktree, tape, later),
{
    going_on_adds_up();
    reveal(analyze::run_script);
    states_are_asked_for(worktree, tape);
    if let Run::Gives(rehearsed, t1) = current_state_script(worktree, tape) {
        told_states_are_in_order(worktree, rehearsed, tape, t1, tape.next);
        let moves = moves_between(pre_state, rehearsed);
        moves_are_exact(pre_state, rehearsed);
        stops_go_on(worktree, outcome, t1);
        if let Run::Gives(stop, t2) = analyze::stop_script(worktree, outcome, t1) {
            all_drifts_are_told(worktree, moves, Seq::empty(), t2);
            assert(continues(later, t2));
            assert(continues(later, t1));
            states_widen(worktree, rehearsed, tape, tape, t1, later);
            assert forall|k: int| 0 <= k < analysis.drift.len() implies drift_is_right(
                #[trigger] analysis.drift[k],
                pre_state,
                rehearsed,
                ranges,
            ) by {
                let drift = analysis.drift[k];
                let m = choose|m: int|
                    0 <= m < moves.len() && is_drift_of(
                        drift,
                        #[trigger] moves[m],
                        worktree,
                        t2,
                        later,
                    );
                let moved = moves[m];
                assert(moves_between(pre_state, rehearsed)[m].before == lookup(
                    pre_state,
                    moved.name,
                ));
                let before = moved.before->0;
                let after = moved.after->0;
                let i = choose|i: int|
                    #[trigger] drift_was_told(drift, worktree, before, after, t2, later, i);
                let ask = git_in(worktree, range_words(before, after));
                assert(was_asked(ask, tape, later, i + 2)) by {
                    reveal(continues);
                }
                let listing = spoken(later.log[i + 2])->0;
                a_listing_is_accounted_for(listing, ranges(before, after));
                a_lost_commit_is_named(listing, ranges(before, after));
            }
            assert forall|name: Text, before: Text, after: Text|
                name != "HEAD"@ && lookup(pre_state, name) == Some(before) && #[trigger] lookup(
                    rehearsed,
                    name,
                ) == Some(after) && before != after implies is_accounted_for(
                #[trigger] moved_from(name, before, after),
                analysis.drift,
                worktree,
                tape,
                later,
            ) by {
                let m = choose|m: int|
                    0 <= m < moves_between(pre_state, rehearsed).len() && #[trigger] moves_between(
                        pre_state,
                        rehearsed,
                    )[m].name == name;
                assert(moves[m] == moved_from(name, before, after));
                assert(is_accounted_for(moves[m], analysis.drift, worktree, t2, later));
                accounts_stay(moves[m], analysis.drift, worktree, tape, t2, later);
            }
            assert(is_judged_so(analysis, pre_state, rehearsed, worktree, ranges, tape, later));
            if outcome is Stopped {
                let i = choose|i: int|
                    #[trigger] conflicts_were_told_at(i, stop.1, worktree, t1, t2);
                assert(conflicts_were_told_at(i, analysis.conflicts, worktree, tape, later)) by {
                    reveal(continues);
                    assert forall|k: int| 0 <= k < stop.1.len() implies is_conflict_of(
                        #[trigger] analysis.conflicts[k],
                        zero_separated(spoken(later.log[i])->0)[k],
                        worktree,
                        tape,
                        later,
                        i + 1 + k,
                    ) by {
                        assert(is_conflict_of(
                            stop.1[k],
                            zero_separated(spoken(t2.log[i])->0)[k],
                            worktree,
                            t1,
                            t2,
                            i + 1 + k,
                        ));
                    }
                }
            }
        }
    }
}

/// A ref moved from one commit to another.
pub open spec fn moved_from(name: Text, before: Text, after: Text) -> RefMoveModel {
    RefMoveModel { name, before: Some(before), after: Some(after) }
}

/// Whether a drift is that of a branch which the rehearsal found at one commit and the
/// sandbox has at another, judged by the commits behind those two.
pub open spec fn drift_is_right(
    drift: DriftModel,
    pre_state: Entries,
    rehearsed: Entries,
    ranges: spec_fn(Text, Text) -> Seq<PairModel>,
) -> bool {
    lookup(pre_state, drift.reference) matches Some(before) && {
        lookup(rehearsed, drift.reference) matches Some(after) && {
            let pairs = ranges(before, after);
            &&& drift.reference != "HEAD"@
            &&& before != after
            &&& accounts_for(drift.replay, pairs)
            &&& suspicious(drift.replay) <==> exists|i: int|
                0 <= i < pairs.len() && (#[trigger] pairs[i]).old is Some && (pairs[i].new is None
                    || !pairs[i].same)
            &&& forall|i: int|
                0 <= i < pairs.len() && (#[trigger] pairs[i]).old is Some && pairs[i].new is None
                    && !subjects_with(pairs, ">"@).contains(pairs[i].old->0)
                    ==> drift.replay.dropped.contains(pairs[i].old->0)
            &&& forall|i: int|
                0 <= i < pairs.len() && (#[trigger] pairs[i]).old is None && pairs[i].new is Some
                    && !subjects_with(pairs, "<"@).contains(pairs[i].new->0)
                    ==> drift.replay.added.contains(pairs[i].new->0)
        }
    }
}

/// Whether an analysis names the moves of the refs and judges every branch that was moved
/// and whose files differ.
pub open spec fn is_judged_so(
    analysis: AnalysisModel,
    pre_state: Entries,
    rehearsed: Entries,
    worktree: Text,
    ranges: spec_fn(Text, Text) -> Seq<PairModel>,
    tape: Tape,
    later: Tape,
) -> bool {
    &&& analysis.ref_moves == moves_between(pre_state, rehearsed)
    &&& forall|k: int|
        0 <= k < analysis.drift.len() ==> drift_is_right(
            #[trigger] analysis.drift[k],
            pre_state,
            rehearsed,
            ranges,
        )
    &&& forall|name: Text, before: Text, after: Text|
        name != "HEAD"@ && lookup(pre_state, name) == Some(before) && lookup(rehearsed, name)
            == Some(after) && before != after ==> is_accounted_for(
            #[trigger] moved_from(name, before, after),
            analysis.drift,
            worktree,
            tape,
            later,
        )
}

} // verus!
