//! What a report says.

use vstd::prelude::*;

use crate::analyze::replay::suspicious;
use crate::analyze::{drifts_unexpectedly, AnalysisModel, DriftModel, RefMoveModel};
use crate::execute::Outcome;
use crate::git;
use crate::guarantees::conversation::{
    continues, git_in, going_on_adds_up, is_complete, left_by, requests_are_exchanges, spoken,
    was_asked,
};
use crate::json::report_of;
use crate::parts::{pieces, trimmed};
use crate::report::{
    drift_head, drift_section, graphs_from, listed_lines, log_graph_script, report_text, Choice,
    GraphModel,
};
use crate::sandbox::meta::MetaModel;
use crate::sandbox::SandboxModel;
use crate::session::{Answer, Run, Tape};
use crate::signatures::{self, SignatureModel};
use crate::text::Text;

verus! {

// ---------------------------------------------------------------------------
// Drift
// ---------------------------------------------------------------------------
/// Whether one text stands in another.
pub open spec fn stands_in(part: Text, text: Text) -> bool {
    exists|before: Text, after: Text| #[trigger] (before + part + after) == text
}

proof fn standing_is_kept(part: Text, text: Text, before: Text, after: Text)
    requires
        stands_in(part, text),
    ensures
        stands_in(part, before + text + after),
{
    let (b, a) = choose|b: Text, a: Text| #[trigger] (b + part + a) == text;
    assert((before + b) + part + (a + after) =~= before + text + after);
}

proof fn lines_are_listed(head: Text, texts: Seq<Text>, i: int)
    requires
        0 <= i < texts.len(),
    ensures
        stands_in(head + texts[i] + "\n"@, listed_lines(head, texts)),
    decreases texts.len(),
{
    let earlier = listed_lines(head, texts.drop_last());
    let line = head + texts.last() + "\n"@;
    if i == texts.len() - 1 {
        assert(earlier + line + Seq::<char>::empty() =~= listed_lines(head, texts));
    } else {
        lines_are_listed(head, texts.drop_last(), i);
        standing_is_kept(head + texts[i] + "\n"@, earlier, Seq::empty(), line);
        assert(Seq::<char>::empty() + earlier + line =~= listed_lines(head, texts));
    }
}

proof fn sections_hold_their_heads(drifts: Seq<DriftModel>, expected_empty: bool, k: int)
    requires
        0 <= k < drifts.len(),
    ensures
        stands_in(drift_head(drifts[k], expected_empty), drift_section(drifts, expected_empty)),
    decreases drifts.len(),
{
    let earlier = drift_section(drifts.drop_last(), expected_empty);
    let whole = drift_section(drifts, expected_empty);
    if k == drifts.len() - 1 {
        let head = drift_head(drifts[k], expected_empty);
        let rest = crate::report::change_lines(drifts[k].changes) + "\n"@;
        assert(earlier + head + rest =~= whole);
    } else {
        sections_hold_their_heads(drifts.drop_last(), expected_empty, k);
        let rest = whole.skip(earlier.len() as int);
        assert(Seq::<char>::empty() + earlier + rest =~= whole);
        standing_is_kept(
            drift_head(drifts[k], expected_empty),
            earlier,
            Seq::empty(),
            rest,
        );
    }
}

/// A report warns of every branch on which a command that was to keep content did not, and
/// names each commit that is gone and each that does something else.
pub proof fn a_report_warns_of_every_lost_commit(
    meta: MetaModel,
    analysis: AnalysisModel,
    outcome: Outcome,
    graphs: Seq<GraphModel>,
    k: int,
)
    requires
        0 <= k < analysis.drift.len(),
        analysis.drift_expected_empty,
        analysis.drift[k].replay.compared,
        analysis.drift[k].replay.dropped.len() > 0 || analysis.drift[k].replay.changed.len() > 0,
    ensures
        ({
            let drift = analysis.drift[k];
            let text = report_text(meta, analysis, outcome, graphs);
            &&& stands_in("warning: content drift on "@ + drift.reference + "\n"@, text)
            &&& forall|i: int|
                0 <= i < drift.replay.dropped.len() ==> stands_in(
                    "    gone     "@ + #[trigger] drift.replay.dropped[i] + "\n"@,
                    text,
                )
            &&& forall|i: int|
                0 <= i < drift.replay.changed.len() ==> stands_in(
                    "    changed  "@ + #[trigger] drift.replay.changed[i] + "\n"@,
                    text,
                )
        }),
{
    let drift = analysis.drift[k];
    let text = report_text(meta, analysis, outcome, graphs);
    let section = drift_section(analysis.drift, true);
    let head = drift_head(drift, true);
    sections_hold_their_heads(analysis.drift, true, k);
    let front = text.take(text.len() - section.len());
    assert(front + section + Seq::<char>::empty() =~= text);
    standing_is_kept(head, section, front, Seq::empty());
    let first = "warning: content drift on "@ + drift.reference;
    let words =
        "\n  replaying a commit should not change what it does. These did change:\n"@;
    let changed = listed_lines("    changed  "@, drift.replay.changed);
    let gone = listed_lines("    gone     "@, drift.replay.dropped);
    let end = "  A conflict resolution, a merge driver or a dropped commit did this.\n"@;
    assert(head =~= first + words + changed + gone + end);
    reveal_strlit("\n  replaying a commit should not change what it does. These did change:\n");
    reveal_strlit("\n");
    let tail = words.skip(1) + changed + gone + end;
    assert(words =~= "\n"@ + words.skip(1));
    assert(Seq::<char>::empty() + (first + "\n"@) + tail =~= head);
    within_within(first + "\n"@, head, text);
    assert forall|i: int| 0 <= i < drift.replay.dropped.len() implies stands_in(
        "    gone     "@ + #[trigger] drift.replay.dropped[i] + "\n"@,
        text,
    ) by {
        lines_are_listed("    gone     "@, drift.replay.dropped, i);
        let line = "    gone     "@ + drift.replay.dropped[i] + "\n"@;
        standing_is_kept(line, gone, first + words + changed, end);
        within_within(line, head, text);
    }
    assert forall|i: int| 0 <= i < drift.replay.changed.len() implies stands_in(
        "    changed  "@ + #[trigger] drift.replay.changed[i] + "\n"@,
        text,
    ) by {
        lines_are_listed("    changed  "@, drift.replay.changed, i);
        let line = "    changed  "@ + drift.replay.changed[i] + "\n"@;
        standing_is_kept(line, changed, first + words, gone + end);
        assert(first + words + changed + (gone + end) =~= head);
        within_within(line, head, text);
    }
}

proof fn within_within(part: Text, whole: Text, text: Text)
    requires
        stands_in(part, whole),
        stands_in(whole, text),
    ensures
        stands_in(part, text),
{
    let (b, a) = choose|b: Text, a: Text| #[trigger] (b + whole + a) == text;
    standing_is_kept(part, whole, b, a);
}

/// A document says that content drifted unexpectedly exactly where the command was to keep
/// it and a comparison is suspicious, and that there was a conflict exactly where the
/// command stopped on one.
pub proof fn a_document_says_what_happened(
    sandbox: SandboxModel,
    analysis: AnalysisModel,
    outcome: Outcome,
    exit_code: u8,
    can_apply: bool,
    choice: Choice,
)
    ensures
        ({
            let report = report_of(
                sandbox,
                analysis,
                outcome,
                exit_code,
                can_apply,
                choice,
                None,
            );
            &&& report.drift_unexpected <==> analysis.drift_expected_empty && exists|i: int|
                0 <= i < analysis.drift.len() && (!(#[trigger] analysis.drift[i]).replay.compared
                    || analysis.drift[i].replay.changed.len() > 0
                    || analysis.drift[i].replay.dropped.len() > 0)
            &&& report.conflicted <==> outcome == (Outcome::Stopped { conflicts: true })
            &&& report.exit_code == exit_code
            &&& report.can_apply == can_apply
            &&& report.refs == analysis.ref_moves
            &&& report.conflicts == analysis.conflicts
            &&& report.stopped_at == analysis.stopped_at
            &&& report.drift == analysis.drift
            &&& report.id == sandbox.meta.id
            &&& report.command == sandbox.meta.command
        }),
{
    let drift = analysis.drift;
    if drifts_unexpectedly(analysis) {
        let i = choose|i: int| 0 <= i < drift.len() && suspicious(#[trigger] drift[i].replay);
        assert(!drift[i].replay.compared || drift[i].replay.changed.len() > 0
            || drift[i].replay.dropped.len() > 0);
    }
    if exists|i: int|
        0 <= i < drift.len() && (!(#[trigger] drift[i]).replay.compared
            || drift[i].replay.changed.len() > 0 || drift[i].replay.dropped.len() > 0) {
        let i = choose|i: int|
            0 <= i < drift.len() && (!(#[trigger] drift[i]).replay.compared
                || drift[i].replay.changed.len() > 0 || drift[i].replay.dropped.len() > 0);
        assert(suspicious(analysis.drift[i].replay));
    }
}

// ---------------------------------------------------------------------------
// Graphs
// ---------------------------------------------------------------------------
/// Whether a graph is that of a tip, drawn as far as the other side does not have it or,
/// where there is nothing of that, of its last commits; as git drew it between the two
/// tapes.
pub open spec fn was_drawn(
    graph: Text,
    worktree: Text,
    tip: Text,
    other: Text,
    tape: Tape,
    later: Tape,
) -> bool {
    let first = tape.next;
    let recent = seq!["log"@, "--graph"@, "--oneline"@, "--decorate"@, "-3"@, tip];
    &&& was_asked(
        git_in(
            worktree,
            seq![
                "log"@,
                "--graph"@,
                "--oneline"@,
                "--decorate"@,
                "--boundary"@,
                tip,
                "^"@ + other,
            ],
        ),
        tape,
        later,
        first,
    )
    &&& match spoken(later.log[first]) {
        Some(drawn) if trimmed(drawn).len() != 0 => graph == drawn && later.next == first + 1,
        _ => was_asked(git_in(worktree, recent), tape, later, first + 1) && spoken(
            later.log[first + 1],
        ) == Some(graph) && later.next == first + 2,
    }
}

/// A graph is of its own tip.
pub proof fn graphs_are_of_their_tips(worktree: Text, tip: Text, other: Text, tape: Tape)
    requires
        is_complete(tape),
    ensures
        continues(left_by(log_graph_script(worktree, tip, other, tape)), tape),
        log_graph_script(worktree, tip, other, tape) matches Run::Gives(graph, later) ==> was_drawn(
            graph,
            worktree,
            tip,
            other,
            tape,
            later,
        ),
{
    going_on_adds_up();
    requests_are_exchanges();
    reveal(log_graph_script);
}

/// Whether a graph is that of a branch that was moved: where it was before, and where it is
/// after.
pub open spec fn is_graph_of(
    graph: GraphModel,
    moved: RefMoveModel,
    worktree: Text,
    tape: Tape,
    later: Tape,
) -> bool {
    &&& graph.reference == moved.name
    &&& moved.before matches Some(before) && (moved.after matches Some(after) && exists|
        t1: Tape,
        t2: Tape,
        t3: Tape,
    |
        {
            &&& #[trigger] continues(t1, tape)
            &&& #[trigger] continues(later, t3)
            &&& #[trigger] was_drawn(graph.before, worktree, before, after, t1, t2)
            &&& was_drawn(graph.after, worktree, after, before, t2, t3)
        })
}

/// Every graph of a report is that of a branch that was moved.
pub proof fn graphs_are_of_moved_branches(
    worktree: Text,
    moves: Seq<RefMoveModel>,
    done: Seq<GraphModel>,
    tape: Tape,
)
    requires
        is_complete(tape),
    ensures
        ({
            let run = graphs_from(worktree, moves, done, tape);
            let later = left_by(run);
            &&& continues(later, tape)
            &&& run matches Run::Gives(graphs, _) ==> {
                &&& graphs.len() >= done.len()
                &&& forall|k: int| 0 <= k < done.len() ==> #[trigger] graphs[k] == done[k]
                &&& forall|k: int|
                    done.len() <= k < graphs.len() ==> exists|m: int|
                        0 <= m < moves.len() && is_graph_of(
                            #[trigger] graphs[k],
                            #[trigger] moves[m],
                            worktree,
                            tape,
                            later,
                        )
            }
        }),
    decreases moves.len(),
{
    going_on_adds_up();
    if moves.len() > 0 {
        let rest = moves.drop_first();
        let moved = moves[0];
        let run = graphs_from(worktree, moves, done, tape);
        let later = left_by(run);
        if moved.before is Some && moved.after is Some && moved.name != "HEAD"@ {
            let before = moved.before->0;
            let after = moved.after->0;
            graphs_are_of_their_tips(worktree, before, after, tape);
            if let Run::Gives(old_graph, t2) = log_graph_script(worktree, before, after, tape) {
                graphs_are_of_their_tips(worktree, after, before, t2);
                if let Run::Gives(new_graph, t3) = log_graph_script(worktree, after, before, t2) {
                    let one = GraphModel {
                        reference: moved.name,
                        before: old_graph,
                        after: new_graph,
                    };
                    graphs_are_of_moved_branches(worktree, rest, done.push(one), t3);
                    if let Run::Gives(graphs, _) = run {
                        assert forall|k: int| done.len() <= k < graphs.len() implies exists|m: int|
                            0 <= m < moves.len() && is_graph_of(
                                #[trigger] graphs[k],
                                #[trigger] moves[m],
                                worktree,
                                tape,
                                later,
                            ) by {
                            if k == done.len() {
                                assert(graphs[k] == done.push(one)[k]);
                                assert(continues(tape, tape));
                                assert(continues(later, t3));
                                assert(was_drawn(one.before, worktree, before, after, tape, t2));
                                assert(is_graph_of(graphs[k], moves[0], worktree, tape, later));
                            } else {
                                let m = choose|m: int|
                                    0 <= m < rest.len() && is_graph_of(
                                        graphs[k],
                                        #[trigger] rest[m],
                                        worktree,
                                        t3,
                                        later,
                                    );
                                assert(continues(t3, tape));
                                graphs_stay(graphs[k], rest[m], worktree, tape, t3, later);
                                assert(is_graph_of(graphs[k], moves[m + 1], worktree, tape, later));
                            }
                        }
                        assert forall|k: int| 0 <= k < done.len() implies #[trigger] graphs[k]
                            == done[k] by {
                            assert(graphs[k] == done.push(one)[k]);
                        }
                    }
                }
            }
        } else {
            graphs_are_of_moved_branches(worktree, rest, done, tape);
            if let Run::Gives(graphs, _) = run {
                assert forall|k: int| done.len() <= k < graphs.len() implies exists|m: int|
                    0 <= m < moves.len() && is_graph_of(
                        #[trigger] graphs[k],
                        #[trigger] moves[m],
                        worktree,
                        tape,
                        later,
                    ) by {
                    let m = choose|m: int|
                        0 <= m < rest.len() && is_graph_of(
                            graphs[k],
                            #[trigger] rest[m],
                            worktree,
                            tape,
                            later,
                        );
                    assert(is_graph_of(graphs[k], moves[m + 1], worktree, tape, later));
                }
            }
        }
    }
}

proof fn graphs_stay(
    graph: GraphModel,
    moved: RefMoveModel,
    worktree: Text,
    earlier: Tape,
    tape: Tape,
    later: Tape,
)
    requires
        continues(tape, earlier),
        is_graph_of(graph, moved, worktree, tape, later),
    ensures
        is_graph_of(graph, moved, worktree, earlier, later),
{
    going_on_adds_up();
    let before = moved.before->0;
    let after = moved.after->0;
    let (t1, t2, t3) = choose|t1: Tape, t2: Tape, t3: Tape|
        {
            &&& #[trigger] continues(t1, tape)
            &&& #[trigger] continues(later, t3)
            &&& #[trigger] was_drawn(graph.before, worktree, before, after, t1, t2)
            &&& was_drawn(graph.after, worktree, after, before, t2, t3)
        };
    assert(continues(t1, earlier));
    assert(continues(later, t3));
    assert(was_drawn(graph.before, worktree, before, after, t1, t2));
}

// ---------------------------------------------------------------------------
// Signatures
// ---------------------------------------------------------------------------
/// Every commit is examined by its own object, and counts as signed exactly where the
/// object's header says so.
pub proof fn signatures_are_read_off_the_commits(
    worktree: Text,
    commits: Seq<Text>,
    done: Seq<SignatureModel>,
    tape: Tape,
)
    requires
        is_complete(tape),
    ensures
        ({
            let run = signatures::inspect_from(worktree, commits, done, tape);
            let later = left_by(run);
            &&& continues(later, tape)
            &&& run matches Run::Gives(found, _) ==> {
                &&& found.len() == done.len() + commits.len()
                &&& forall|k: int| 0 <= k < done.len() ==> #[trigger] found[k] == done[k]
                &&& forall|k: int|
                    0 <= k < commits.len() ==> {
                        let signature = #[trigger] found[done.len() + k];
                        &&& signature.sha == commits[k]
                        &&& was_asked(
                            git_in(worktree, seq!["cat-file"@, "commit"@, commits[k]]),
                            tape,
                            later,
                            tape.next + k,
                        )
                        &&& later.log[tape.next + k] matches Answer::Ended(ended)
                            && signature.present == signatures::signed_above(
                            pieces(ended.stdout, 10u8),
                        )
                    }
            }
        }),
    decreases commits.len(),
{
    going_on_adds_up();
    requests_are_exchanges();
    if commits.len() > 0 {
        let rest = commits.drop_first();
        let words = seq!["cat-file"@, "commit"@, commits[0]];
        let run = signatures::inspect_from(worktree, commits, done, tape);
        let later = left_by(run);
        if let Run::Gives(object, mid) = git::run_bytes_script(worktree, words, tape) {
            let one = SignatureModel {
                sha: commits[0],
                present: signatures::signed_above(pieces(object, 10u8)),
            };
            signatures_are_read_off_the_commits(worktree, rest, done.push(one), mid);
            if let Run::Gives(found, _) = run {
                reveal(continues);
                assert forall|k: int| 0 <= k < commits.len() implies {
                    let signature = #[trigger] found[done.len() + k];
                    &&& signature.sha == commits[k]
                    &&& was_asked(
                        git_in(worktree, seq!["cat-file"@, "commit"@, commits[k]]),
                        tape,
                        later,
                        tape.next + k,
                    )
                    &&& later.log[tape.next + k] matches Answer::Ended(ended) && signature.present
                        == signatures::signed_above(pieces(ended.stdout, 10u8))
                } by {
                    if k == 0 {
                        assert(found[done.len() as int] == done.push(one)[done.len() as int]);
                    } else {
                        assert(found[done.push(one).len() + (k - 1)] == found[done.len() + k]);
                        assert(rest[k - 1] == commits[k]);
                    }
                }
                assert forall|k: int| 0 <= k < done.len() implies #[trigger] found[k] == done[k] by {
                    assert(found[k] == done.push(one)[k]);
                }
            }
        }
    }
}

} // verus!
