//! The terminal output, and the question at the end of it.
//!
//! Written like git's own output: lowercase section headings, no colour,
//! `warning:` where git would say `warning:`.

use vstd::prelude::*;

use crate::analyze::replay::suspicious;
use crate::analyze::{
    Analysis, AnalysisModel, Conflict, ConflictModel, Drift, DriftModel, FileChange,
    FileChangeModel, RefMove, RefMoveModel,
};
use crate::carry::{self, Carry, CarryModel, Replay, ReplayModel};
use crate::compose::{args6, args7, cat2, cat3, cat4, cat5, cat6};
use crate::error::{Error, Fault};
use crate::execute::Outcome;
use crate::git;
use crate::number::{decimal, show, show_signed, signed};
use crate::parts::{first_bytes, join, joined, lines, lines_of, take_bytes, trim, trimmed};
use crate::paths::{display, displayed};
use crate::sandbox::meta::{Meta, MetaModel};
use crate::session::{
    caught, done_in, heard, ran, text_in, Answer, Ask, Heard, HeardModel, Request, Run, Session,
    Stop, Tape,
};
use crate::text::{bytes_of, chars_of, put, same, Text};

verus! {

/// A before and after view of one rewritten ref.
#[derive(Debug, PartialEq, Eq)]
pub struct Graph {
    /// The ref that the two graphs describe.
    pub reference: String,
    /// `git log --graph` of the old tip, back to the common ancestor.
    pub before: String,
    /// The same for the new tip.
    pub after: String,
}

/// The model of a [`Graph`].
pub struct GraphModel {
    pub reference: Text,
    pub before: Text,
    pub after: Text,
}

impl DeepView for Graph {
    type V = GraphModel;

    open spec fn deep_view(&self) -> GraphModel {
        GraphModel { reference: self.reference@, before: self.before@, after: self.after@ }
    }
}

/// How much of the report gets drawn. This skips rendering, never analysis: the
/// graphs are the only thing that [`Detail::StatOnly`] switches off.
#[derive(Debug, Clone, Copy, PartialEq, Eq, Structural)]
pub enum Detail {
    /// The whole report, before and after graphs included.
    Full,
    /// Everything that says what happened, and nothing that draws where you
    /// were.
    StatOnly,
}

impl Default for Detail {
    fn default() -> (detail: Detail)
        ensures
            detail == Detail::Full,
    {
        Detail::Full
    }
}

impl Detail {
    /// Whether the before and after graphs are worth the processes they cost.
    pub fn wants_graphs(self) -> (yes: bool)
        ensures
            yes == (self == Detail::Full),
    {
        self == Detail::Full
    }
}

/// What the user decided to do with a rehearsal.
#[derive(Debug, Clone, Copy, PartialEq, Eq, Structural)]
pub enum Choice {
    /// Move the real repository's refs to the rehearsed commits.
    Apply,
    /// Delete the sandbox now.
    Discard,
    /// Leave it in the cache to look at later.
    Keep,
}

impl DeepView for Choice {
    type V = Choice;

    open spec fn deep_view(&self) -> Choice {
        *self
    }
}

// ---------------------------------------------------------------------------
// Graphs
// ---------------------------------------------------------------------------
/// The arguments that draw what one tip has and another does not.
pub open spec fn bounded_args(tip: Text, other: Text) -> Seq<Text> {
    seq![
        "log"@,
        "--graph"@,
        "--oneline"@,
        "--decorate"@,
        "--boundary"@,
        tip,
        "^"@ + other,
    ]
}

/// The arguments that draw the last few commits of a tip.
pub open spec fn recent_args(tip: Text) -> Seq<Text> {
    seq!["log"@, "--graph"@, "--oneline"@, "--decorate"@, "-3"@, tip]
}

/// The graph of a tip, stopping where it rejoins another. Where that range is
/// empty or cannot be computed, the last few commits stand for it.
#[verifier::opaque]
pub open spec fn log_graph_script(worktree: Text, tip: Text, other: Text, tape: Tape) -> Run<Text> {
    git::run_script(worktree, bounded_args(tip, other), tape).either(
        |graph: Text, tape: Tape|
            if trimmed(graph).len() != 0 {
                Run::Gives(graph, tape)
            } else {
                git::run_script(worktree, recent_args(tip), tape)
            },
        |fault: Fault, tape: Tape| git::run_script(worktree, recent_args(tip), tape),
    )
}

fn log_graph(session: &mut Session, worktree: &str, tip: &str, other: &str) -> (outcome: Result<
    String,
    Stop,
>)
    ensures
        ran(outcome, final(session)@) == log_graph_script(
            worktree@,
            tip@,
            other@,
            old(session)@,
        ),
{
    proof {
        reveal(log_graph_script);
    }
    let bounded = caught(
        git::run(
            session,
            worktree,
            args7(
                "log",
                "--graph",
                "--oneline",
                "--decorate",
                "--boundary",
                tip,
                &cat2("^", other),
            ),
        ),
    )?;
    if let Ok(graph) = bounded {
        if !trim(&graph).as_str().is_empty() {
            return Ok(graph);
        }
    }
    git::run(
        session,
        worktree,
        args6("log", "--graph", "--oneline", "--decorate", "-3", tip),
    )
}

/// The graphs of the refs that were there before and after. `HEAD` moves with
/// its branch, and drawing it twice says nothing new.
pub open spec fn graphs_from(
    worktree: Text,
    moves: Seq<RefMoveModel>,
    done: Seq<GraphModel>,
    tape: Tape,
) -> Run<Seq<GraphModel>>
    decreases moves.len(),
{
    if moves.len() == 0 {
        Run::Gives(done, tape)
    } else {
        let rest = moves.drop_first();
        match (moves[0].before, moves[0].after) {
            (Some(before), Some(after)) if moves[0].name != "HEAD"@ => match log_graph_script(
                worktree,
                before,
                after,
                tape,
            ) {
                Run::Gives(old_graph, tape) => match log_graph_script(
                    worktree,
                    after,
                    before,
                    tape,
                ) {
                    Run::Gives(new_graph, tape) => graphs_from(
                        worktree,
                        rest,
                        done.push(
                            GraphModel {
                                reference: moves[0].name,
                                before: old_graph,
                                after: new_graph,
                            },
                        ),
                        tape,
                    ),
                    Run::Fails(fault, tape) => Run::Fails(fault, tape),
                    Run::Asks(ask, tape) => Run::Asks(ask, tape),
                },
                Run::Fails(fault, tape) => Run::Fails(fault, tape),
                Run::Asks(ask, tape) => Run::Asks(ask, tape),
            },
            _ => graphs_from(worktree, rest, done, tape),
        }
    }
}

/// The before and after graphs of every rewritten ref, where they are wanted.
#[verifier::opaque]
pub open spec fn graphs_script(
    worktree: Text,
    analysis: AnalysisModel,
    detail: Detail,
    tape: Tape,
) -> Run<Seq<GraphModel>> {
    if detail == Detail::Full {
        graphs_from(worktree, analysis.ref_moves, Seq::empty(), tape)
    } else {
        Run::Gives(Seq::empty(), tape)
    }
}

/// Builds the before and after graphs of every rewritten ref. Only the affected
/// subgraph is drawn: each side back to the common ancestor of the old and the
/// new tip.
pub fn graphs(session: &mut Session, worktree: &str, analysis: &Analysis, detail: Detail) -> (outcome:
    Result<Vec<Graph>, Stop>)
    ensures
        ran(outcome, final(session)@) == graphs_script(
            worktree@,
            analysis.deep_view(),
            detail,
            old(session)@,
        ),
{
    proof {
        reveal(graphs_script);
    }
    let mut graphs: Vec<Graph> = Vec::new();
    assert(graphs.deep_view() =~= Seq::empty());
    if !detail.wants_graphs() {
        return Ok(graphs);
    }
    let moves = &analysis.ref_moves;
    let ghost all = moves.deep_view();
    let mut i: usize = 0;
    assert(all.skip(0) =~= all);
    while i < moves.len()
        invariant
            i <= moves@.len(),
            all == moves.deep_view(),
            graphs_script(worktree@, analysis.deep_view(), detail, old(session)@) == graphs_from(
                worktree@,
                all.skip(i as int),
                graphs.deep_view(),
                session@,
            ),
        decreases moves@.len() - i,
    {
        assert(all.skip(i as int).drop_first() =~= all.skip(i + 1));
        assert(all.skip(i as int)[0] == moves[i as int].deep_view());
        let moved = &moves[i];
        if let (Some(before), Some(after)) = (&moved.before, &moved.after) {
            if !same(&moved.name, "HEAD") {
                let old_graph = log_graph(session, worktree, before, after)?;
                let new_graph = log_graph(session, worktree, after, before)?;
                put(
                    &mut graphs,
                    Graph { reference: moved.name.clone(), before: old_graph, after: new_graph },
                );
            }
        }
        i = i + 1;
    }
    Ok(graphs)
}

// ---------------------------------------------------------------------------
// Words
// ---------------------------------------------------------------------------
/// A commit id as it is shown.
pub open spec fn shortened(sha: Text) -> Text {
    match first_bytes(sha, 8) {
        Some(head) => head,
        None => sha,
    }
}

/// Abbreviates a commit id for display.
pub fn short(sha: &str) -> (text: String)
    ensures
        text@ == shortened(sha@),
{
    match take_bytes(sha, 8) {
        Some(head) => head,
        None => sha.to_owned(),
    }
}

/// One ref's movement as a phrase.
pub open spec fn movement(moved: RefMoveModel) -> Text {
    match (moved.before, moved.after) {
        (Some(before), Some(after)) => shortened(before) + " -> "@ + shortened(after),
        (None, Some(after)) => "created at "@ + shortened(after),
        (Some(before), None) => "deleted (was "@ + shortened(before) + ")"@,
        (None, None) => "unchanged"@,
    }
}

fn describe_move(moved: &RefMove) -> (text: String)
    ensures
        text@ == movement(moved.deep_view()),
{
    match (&moved.before, &moved.after) {
        (Some(before), Some(after)) => cat3(&short(before), " -> ", &short(after)),
        (None, Some(after)) => cat2("created at ", &short(after)),
        (Some(before), None) => cat3("deleted (was ", &short(before), ")"),
        (None, None) => "unchanged".to_owned(),
    }
}

/// How many bytes the longest name has.
pub open spec fn widest(moves: Seq<RefMoveModel>) -> nat
    decreases moves.len(),
{
    if moves.len() == 0 {
        0
    } else {
        let earlier = widest(moves.drop_last());
        let width = vstd::utf8::encode_utf8(moves.last().name).len();
        if width > earlier {
            width
        } else {
            earlier
        }
    }
}

/// As many spaces.
pub open spec fn spaces(count: nat) -> Text
    decreases count,
{
    if count == 0 {
        Seq::empty()
    } else {
        spaces((count - 1) as nat).push(' ')
    }
}

/// A text brought to a width with spaces behind it.
pub open spec fn padded(text: Text, width: nat) -> Text {
    if text.len() < width {
        text + spaces((width - text.len()) as nat)
    } else {
        text
    }
}

fn pad(text: &str, width: usize) -> (result: String)
    ensures
        result@ == padded(text@, width as nat),
{
    let length = chars_of(text).len();
    let mut result = text.to_owned();
    let mut i: usize = 0;
    if length >= width {
        return result;
    }
    let missing = width - length;
    assert(result@ =~= text@ + spaces(0));
    while i < missing
        invariant
            i <= missing,
            result@ == text@ + spaces(i as nat),
        decreases missing - i,
    {
        result.push(' ');
        i = i + 1;
        assert(result@ =~= text@ + spaces(i as nat));
    }
    result
}

fn name_width(moves: &Vec<RefMove>) -> (width: usize)
    ensures
        width == widest(moves.deep_view()),
{
    let ghost all = moves.deep_view();
    let mut width: usize = 0;
    let mut i: usize = 0;
    assert(all.take(0) =~= Seq::empty());
    while i < moves.len()
        invariant
            i <= moves@.len(),
            all == moves.deep_view(),
            width == widest(all.take(i as int)),
        decreases moves@.len() - i,
    {
        assert(all.take(i + 1).drop_last() =~= all.take(i as int));
        assert(all.take(i + 1).last() == moves[i as int].deep_view());
        let own = bytes_of(&moves[i].name).len();
        if own > width {
            width = own;
        }
        i = i + 1;
    }
    assert(all.take(all.len() as int) =~= all);
    width
}

/// The lines of the refs.
pub open spec fn ref_lines(moves: Seq<RefMoveModel>, width: nat) -> Text
    decreases moves.len(),
{
    if moves.len() == 0 {
        Seq::empty()
    } else {
        ref_lines(moves.drop_last(), width) + ("  "@ + padded(moves.last().name, width) + "  "@
            + movement(moves.last()) + "\n"@)
    }
}

/// Which refs moved.
pub open spec fn refs_section(moves: Seq<RefMoveModel>) -> Text {
    if moves.len() == 0 {
        "refs\n  nothing moved\n\n"@
    } else {
        "refs\n"@ + ref_lines(moves, widest(moves)) + "\n"@
    }
}

fn render_refs(moves: &Vec<RefMove>) -> (text: String)
    ensures
        text@ == refs_section(moves.deep_view()),
{
    if moves.len() == 0 {
        return "refs\n  nothing moved\n\n".to_owned();
    }
    let ghost all = moves.deep_view();
    let width = name_width(moves);
    let mut found = String::new();
    let mut i: usize = 0;
    assert(all.take(0) =~= Seq::empty());
    assert(found@ =~= ref_lines(all.take(0), width as nat));
    while i < moves.len()
        invariant
            i <= moves@.len(),
            all == moves.deep_view(),
            found@ == ref_lines(all.take(i as int), width as nat),
        decreases moves@.len() - i,
    {
        assert(all.take(i + 1).drop_last() =~= all.take(i as int));
        assert(all.take(i + 1).last() == moves[i as int].deep_view());
        let moved = &moves[i];
        found.append(&cat5("  ", &pad(&moved.name, width), "  ", &describe_move(moved), "\n"));
        i = i + 1;
    }
    assert(all.take(all.len() as int) =~= all);
    cat3("refs\n", &found, "\n")
}

/// Texts as lines, each behind the same words.
pub open spec fn listed_lines(head: Text, texts: Seq<Text>) -> Text
    decreases texts.len(),
{
    if texts.len() == 0 {
        Seq::empty()
    } else {
        listed_lines(head, texts.drop_last()) + (head + texts.last() + "\n"@)
    }
}

fn list_lines(head: &str, texts: &Vec<String>) -> (text: String)
    ensures
        text@ == listed_lines(head@, texts.deep_view()),
{
    let ghost all = texts.deep_view();
    let mut found = String::new();
    let mut i: usize = 0;
    assert(all.take(0) =~= Seq::empty());
    assert(found@ =~= listed_lines(head@, all.take(0)));
    while i < texts.len()
        invariant
            i <= texts@.len(),
            all == texts.deep_view(),
            found@ == listed_lines(head@, all.take(i as int)),
        decreases texts@.len() - i,
    {
        assert(all.take(i + 1).drop_last() =~= all.take(i as int));
        assert(all.take(i + 1).last() == texts[i as int]@);
        found.append(&cat3(head, &texts[i], "\n"));
        i = i + 1;
    }
    assert(all.take(all.len() as int) =~= all);
    found
}

/// What became of the carried work.
pub open spec fn replay_lines(replay: Option<ReplayModel>) -> Text {
    match replay {
        None =>
            "  not put back — the command did not finish, so there was nothing to put them on\n"@,
        Some(ReplayModel::Restored { result }) => if result is Some {
            "  they come back clean on the rehearsed history\n"@
        } else {
            "  nothing comes back — the rehearsed history already contains these changes\n"@
        },
        Some(ReplayModel::Conflicted { paths }) => "  they do NOT come back clean — "@
            + decimal(paths.len()) + " path(s) conflict in the sandbox:\n"@ + listed_lines(
            "    "@,
            paths,
        ),
        Some(ReplayModel::Refused { reason }) => "  they could not be put back: "@ + reason
            + "\n"@,
        Some(ReplayModel::NotNeeded) =>
            "  they stay where they are — this rehearsal does not move your worktree\n"@,
    }
}

/// What was carried through the rehearsal, and whether it came back.
pub open spec fn carried_section(carry: Option<CarryModel>) -> Text {
    match carry {
        None => Seq::empty(),
        Some(carry) => "carried  "@ + decimal(carry.paths.len()) + " uncommitted path(s): "@
            + carry::described(carry.paths) + "\n"@ + replay_lines(carry.replay) + "\n"@,
    }
}

fn render_replay(replay: &Option<Replay>) -> (text: String)
    ensures
        text@ == replay_lines(replay.deep_view()),
{
    match replay {
        None =>
            "  not put back — the command did not finish, so there was nothing to put them on\n".to_owned(),
        Some(Replay::Restored { result }) => if result.is_some() {
            "  they come back clean on the rehearsed history\n".to_owned()
        } else {
            "  nothing comes back — the rehearsed history already contains these changes\n".to_owned()
        },
        Some(Replay::Conflicted { paths }) => cat4(
            "  they do NOT come back clean — ",
            &show(paths.len() as u64),
            " path(s) conflict in the sandbox:\n",
            &list_lines("    ", paths),
        ),
        Some(Replay::Refused { reason }) => cat3("  they could not be put back: ", reason, "\n"),
        Some(Replay::NotNeeded) =>
            "  they stay where they are — this rehearsal does not move your worktree\n".to_owned(),
    }
}

fn render_carried(carry: &Option<Carry>) -> (text: String)
    ensures
        text@ == carried_section(carry.deep_view()),
{
    match carry {
        None => {
            let nothing = String::new();
            assert(nothing@ =~= carried_section(carry.deep_view()));
            nothing
        },
        Some(carry) => {
            let head = cat5(
                "carried  ",
                &show(carry.paths.len() as u64),
                " uncommitted path(s): ",
                &carry::describe(&carry.paths),
                "\n",
            );
            cat3(&head, &render_replay(&carry.replay), "\n")
        },
    }
}

/// How many hunks, in words.
pub open spec fn hunk_words(hunks: int) -> Text {
    if hunks == 0 {
        "no text hunks (binary, or add/add)"@
    } else if hunks == 1 {
        "1 hunk"@
    } else {
        decimal(hunks as nat) + " hunks"@
    }
}

/// The lines of the unmerged paths.
pub open spec fn conflict_lines(conflicts: Seq<ConflictModel>) -> Text
    decreases conflicts.len(),
{
    if conflicts.len() == 0 {
        Seq::empty()
    } else {
        conflict_lines(conflicts.drop_last()) + ("  "@ + conflicts.last().path + "  "@
            + hunk_words(conflicts.last().hunks) + "\n"@)
    }
}

/// Where the command stopped and what is unmerged.
pub open spec fn conflicts_section(analysis: AnalysisModel) -> Text {
    match analysis.stopped_at {
        Some(commit) => "conflicts  stopped at "@ + shortened(commit.sha) + " \""@
            + commit.subject + "\"\n"@ + conflict_lines(analysis.conflicts) + "\n"@,
        None => if analysis.conflicts.len() == 0 {
            Seq::empty()
        } else {
            "conflicts\n"@ + conflict_lines(analysis.conflicts) + "\n"@
        },
    }
}

fn render_conflict_lines(conflicts: &Vec<Conflict>) -> (text: String)
    ensures
        text@ == conflict_lines(conflicts.deep_view()),
{
    let ghost all = conflicts.deep_view();
    let mut found = String::new();
    let mut i: usize = 0;
    assert(all.take(0) =~= Seq::empty());
    assert(found@ =~= conflict_lines(all.take(0)));
    while i < conflicts.len()
        invariant
            i <= conflicts@.len(),
            all == conflicts.deep_view(),
            found@ == conflict_lines(all.take(i as int)),
        decreases conflicts@.len() - i,
    {
        assert(all.take(i + 1).drop_last() =~= all.take(i as int));
        assert(all.take(i + 1).last() == conflicts[i as int].deep_view());
        let conflict = &conflicts[i];
        let hunks = if conflict.hunks == 0 {
            "no text hunks (binary, or add/add)".to_owned()
        } else if conflict.hunks == 1 {
            "1 hunk".to_owned()
        } else {
            cat2(&show(conflict.hunks as u64), " hunks")
        };
        found.append(&cat5("  ", &conflict.path, "  ", &hunks, "\n"));
        i = i + 1;
    }
    assert(all.take(all.len() as int) =~= all);
    found
}

fn render_conflicts(analysis: &Analysis) -> (text: String)
    ensures
        text@ == conflicts_section(analysis.deep_view()),
{
    match &analysis.stopped_at {
        Some(commit) => {
            let head = cat5(
                "conflicts  stopped at ",
                &short(&commit.sha),
                " \"",
                &commit.subject,
                "\"\n",
            );
            cat3(&head, &render_conflict_lines(&analysis.conflicts), "\n")
        },
        None => {
            if analysis.conflicts.len() == 0 {
                let nothing = String::new();
                assert(nothing@ =~= conflicts_section(analysis.deep_view()));
                return nothing;
            }
            cat3("conflicts\n", &render_conflict_lines(&analysis.conflicts), "\n")
        },
    }
}

/// The graphs, before and then after, under their ref.
pub open spec fn graphs_section(graphs: Seq<GraphModel>) -> Text
    decreases graphs.len(),
{
    if graphs.len() == 0 {
        Seq::empty()
    } else {
        let graph = graphs.last();
        graphs_section(graphs.drop_last()) + ("graph  "@ + graph.reference + "\n  before\n"@
            + listed_lines("    "@, lines_of(graph.before)) + "  after\n"@ + listed_lines(
            "    "@,
            lines_of(graph.after),
        ) + "\n"@)
    }
}

fn render_graphs(graphs: &Vec<Graph>) -> (text: String)
    ensures
        text@ == graphs_section(graphs.deep_view()),
{
    let ghost all = graphs.deep_view();
    let mut found = String::new();
    let mut i: usize = 0;
    assert(all.take(0) =~= Seq::empty());
    assert(found@ =~= graphs_section(all.take(0)));
    while i < graphs.len()
        invariant
            i <= graphs@.len(),
            all == graphs.deep_view(),
            found@ == graphs_section(all.take(i as int)),
        decreases graphs@.len() - i,
    {
        assert(all.take(i + 1).drop_last() =~= all.take(i as int));
        assert(all.take(i + 1).last() == graphs[i as int].deep_view());
        let graph = &graphs[i];
        let before = list_lines("    ", &lines(&graph.before));
        let after = list_lines("    ", &lines(&graph.after));
        let head = cat4("graph  ", &graph.reference, "\n  before\n", &before);
        found.append(&cat4(&head, "  after\n", &after, "\n"));
        i = i + 1;
    }
    assert(all.take(all.len() as int) =~= all);
    found
}

/// The lines of the files that differ.
pub open spec fn change_lines(changes: Seq<FileChangeModel>) -> Text
    decreases changes.len(),
{
    if changes.len() == 0 {
        Seq::empty()
    } else {
        change_lines(changes.drop_last()) + ("    "@ + changes.last().status + " "@
            + changes.last().path + "\n"@)
    }
}

/// What the report says of a branch whose content differs. The warning is for
/// commits that were to be replayed unchanged and were not; content that came
/// from the new base is said once, calmly.
pub open spec fn drift_head(drift: DriftModel, expected_empty: bool) -> Text {
    if expected_empty && suspicious(drift.replay) {
        if drift.replay.compared {
            "warning: content drift on "@ + drift.reference
                + "\n  replaying a commit should not change what it does. These did change:\n"@
                + listed_lines("    changed  "@, drift.replay.changed) + listed_lines(
                "    gone     "@,
                drift.replay.dropped,
            ) + "  A conflict resolution, a merge driver or a dropped commit did this.\n"@
        } else {
            "warning: content drift on "@ + drift.reference
                + "\n  the content differs and the old and new commits could not be compared,\n  so what changed cannot be narrowed down. Read the diff.\n"@
        }
    } else if expected_empty {
        "content  "@ + drift.reference
            + " — every replayed commit is unchanged; the difference is the "@ + decimal(
            drift.replay.added.len(),
        ) + " commit(s) picked up from the new base\n"@
    } else {
        "content  "@ + drift.reference + "\n"@
    }
}

/// Where content differs, and whether that is a surprise.
pub open spec fn drift_section(drifts: Seq<DriftModel>, expected_empty: bool) -> Text
    decreases drifts.len(),
{
    if drifts.len() == 0 {
        Seq::empty()
    } else {
        drift_section(drifts.drop_last(), expected_empty) + (drift_head(
            drifts.last(),
            expected_empty,
        ) + change_lines(drifts.last().changes) + "\n"@)
    }
}

fn render_changes(changes: &Vec<FileChange>) -> (text: String)
    ensures
        text@ == change_lines(changes.deep_view()),
{
    let ghost all = changes.deep_view();
    let mut found = String::new();
    let mut i: usize = 0;
    assert(all.take(0) =~= Seq::empty());
    assert(found@ =~= change_lines(all.take(0)));
    while i < changes.len()
        invariant
            i <= changes@.len(),
            all == changes.deep_view(),
            found@ == change_lines(all.take(i as int)),
        decreases changes@.len() - i,
    {
        assert(all.take(i + 1).drop_last() =~= all.take(i as int));
        assert(all.take(i + 1).last() == changes[i as int].deep_view());
        found.append(&cat5("    ", &changes[i].status, " ", &changes[i].path, "\n"));
        i = i + 1;
    }
    assert(all.take(all.len() as int) =~= all);
    found
}

fn render_drift_head(drift: &Drift, expected_empty: bool) -> (text: String)
    ensures
        text@ == drift_head(drift.deep_view(), expected_empty),
{
    let replay = &drift.replay;
    if expected_empty && replay.is_suspicious() {
        if replay.compared {
            cat6(
                "warning: content drift on ",
                &drift.reference,
                "\n  replaying a commit should not change what it does. These did change:\n",
                &list_lines("    changed  ", &replay.changed),
                &list_lines("    gone     ", &replay.dropped),
                "  A conflict resolution, a merge driver or a dropped commit did this.\n",
            )
        } else {
            cat3(
                "warning: content drift on ",
                &drift.reference,
                "\n  the content differs and the old and new commits could not be compared,\n  so what changed cannot be narrowed down. Read the diff.\n",
            )
        }
    } else if expected_empty {
        cat5(
            "content  ",
            &drift.reference,
            " — every replayed commit is unchanged; the difference is the ",
            &show(replay.added.len() as u64),
            " commit(s) picked up from the new base\n",
        )
    } else {
        cat3("content  ", &drift.reference, "\n")
    }
}

fn render_drift(analysis: &Analysis) -> (text: String)
    ensures
        text@ == drift_section(
            analysis.deep_view().drift,
            analysis.drift_expected_empty,
        ),
{
    let drifts = &analysis.drift;
    let expected_empty = analysis.drift_expected_empty;
    let ghost all = drifts.deep_view();
    let mut found = String::new();
    let mut i: usize = 0;
    assert(all.take(0) =~= Seq::empty());
    assert(found@ =~= drift_section(all.take(0), expected_empty));
    while i < drifts.len()
        invariant
            i <= drifts@.len(),
            all == drifts.deep_view(),
            found@ == drift_section(all.take(i as int), expected_empty),
        decreases drifts@.len() - i,
    {
        assert(all.take(i + 1).drop_last() =~= all.take(i as int));
        assert(all.take(i + 1).last() == drifts[i as int].deep_view());
        let drift = &drifts[i];
        found.append(
            &cat3(
                &render_drift_head(drift, expected_empty),
                &render_changes(&drift.changes),
                "\n",
            ),
        );
        i = i + 1;
    }
    assert(all.take(all.len() as int) =~= all);
    found
}

/// How the command ended, where it did not end well. Work that did not go back
/// on is not a command that stopped.
pub open spec fn outcome_section(meta: MetaModel, outcome: Outcome) -> Text {
    match outcome {
        Outcome::Clean => Seq::empty(),
        Outcome::Stopped { conflicts } => if carry::waits_on_replay(meta) {
            "the command ran, but your uncommitted changes did not go back on\n\n"@
        } else if conflicts {
            "the command stopped part-way on a conflict\n\n"@
        } else {
            "the command stopped part-way (nothing is unmerged — an edit or break in the todo)\n\n"@
        },
        Outcome::Failed { code } => match code {
            Some(code) => "git refused the command (exit "@ + signed(code as int) + ")\n\n"@,
            None => "git refused the command\n\n"@,
        },
    }
}

fn render_outcome(meta: &Meta, outcome: &Outcome) -> (text: String)
    ensures
        text@ == outcome_section(meta.deep_view(), *outcome),
{
    match outcome {
        Outcome::Clean => {
            let nothing = String::new();
            assert(nothing@ =~= outcome_section(meta.deep_view(), *outcome));
            nothing
        },
        Outcome::Stopped { conflicts } => if carry::stopped_on_replay(meta) {
            "the command ran, but your uncommitted changes did not go back on\n\n".to_owned()
        } else if *conflicts {
            "the command stopped part-way on a conflict\n\n".to_owned()
        } else {
            "the command stopped part-way (nothing is unmerged — an edit or break in the todo)\n\n".to_owned()
        },
        Outcome::Failed { code } => match code {
            Some(code) => cat3("git refused the command (exit ", &show_signed(*code), ")\n\n"),
            None => "git refused the command\n\n".to_owned(),
        },
    }
}

/// What was rehearsed and where.
pub open spec fn header(meta: MetaModel) -> Text {
    "rehearsed  git "@ + joined(meta.command, " "@) + "\nrepository "@ + displayed(meta.repo_path)
        + "\nrehearsal  "@ + meta.id + "\n\n"@
}

/// The whole report.
pub open spec fn report_text(
    meta: MetaModel,
    analysis: AnalysisModel,
    outcome: Outcome,
    graphs: Seq<GraphModel>,
) -> Text {
    header(meta) + outcome_section(meta, outcome) + refs_section(analysis.ref_moves)
        + carried_section(meta.carry) + conflicts_section(analysis) + graphs_section(graphs)
        + drift_section(analysis.drift, analysis.drift_expected_empty)
}

/// Renders the whole report. Everything it needs has already been read out of
/// the sandbox.
pub fn render(meta: &Meta, analysis: &Analysis, outcome: &Outcome, graphs: &Vec<Graph>) -> (text:
    String)
    ensures
        text@ == report_text(
            meta.deep_view(),
            analysis.deep_view(),
            *outcome,
            graphs.deep_view(),
        ),
{
    let first = cat6(
        "rehearsed  git ",
        &join(&meta.command, " "),
        "\nrepository ",
        &display(&meta.repo_path),
        "\nrehearsal  ",
        &meta.id,
    );
    let mut text = cat2(&first, "\n\n");
    text.append(&render_outcome(meta, outcome));
    text.append(&render_refs(&analysis.ref_moves));
    text.append(&render_carried(&meta.carry));
    text.append(&render_conflicts(analysis));
    text.append(&render_graphs(graphs));
    text.append(&render_drift(analysis));
    text
}

// ---------------------------------------------------------------------------
// The question
// ---------------------------------------------------------------------------
/// Whether applying makes sense: the command finished and moved something.
pub open spec fn is_applicable(analysis: AnalysisModel, outcome: Outcome) -> bool {
    outcome == Outcome::Clean && analysis.ref_moves.len() != 0
}

/// Whether applying makes sense for this rehearsal. A stopped or failed command
/// leaves the sandbox mid-operation, and its refs are no result.
pub fn can_apply(analysis: &Analysis, outcome: &Outcome) -> (yes: bool)
    ensures
        yes == is_applicable(analysis.deep_view(), *outcome),
{
    match outcome {
        Outcome::Clean => analysis.ref_moves.len() != 0,
        _ => false,
    }
}

/// The answer that is given when nobody can be asked.
pub open spec fn unattended(outcome: Outcome) -> Choice {
    match outcome {
        Outcome::Stopped { .. } => Choice::Keep,
        _ => Choice::Discard,
    }
}

/// What to do when nobody can be asked: never apply, keep what stopped, because
/// its sandbox is the only copy of where it got to, and discard the rest.
pub fn non_interactive(outcome: &Outcome) -> (choice: Choice)
    ensures
        choice == unattended(*outcome),
        choice != Choice::Apply,
{
    match outcome {
        Outcome::Stopped { .. } => Choice::Keep,
        _ => Choice::Discard,
    }
}

/// A letter without its case.
pub open spec fn lower(c: char) -> char {
    if 'A' <= c && c <= 'Z' {
        ((c as u8 + 32) as u8) as char
    } else {
        c
    }
}

/// A text without the case of its letters.
pub open spec fn lowered(text: Text) -> Text {
    text.map_values(|c: char| lower(c))
}

fn lower_text(text: &str) -> (result: String)
    ensures
        result@ == lowered(text@),
{
    let chars = chars_of(text);
    let mut result = String::new();
    let mut i: usize = 0;
    assert(result@ =~= lowered(text@).take(0));
    while i < chars.len()
        invariant
            i <= chars@.len(),
            chars@ == text@,
            result@ == lowered(text@).take(i as int),
        decreases chars@.len() - i,
    {
        let c = chars[i];
        if 'A' <= c && c <= 'Z' {
            result.push((c as u8 + 32) as char);
        } else {
            result.push(c);
        }
        i = i + 1;
        assert(lowered(text@).take(i as int) =~= lowered(text@).take(i - 1).push(
            lowered(text@)[i - 1],
        ));
    }
    assert(lowered(text@).take(text@.len() as int) =~= lowered(text@));
    result
}

/// What an answer means.
pub open spec fn choice_in(answer: Text, can_apply: bool) -> Option<Choice> {
    let word = lowered(answer);
    if can_apply && (word == "a"@ || word == "apply"@) {
        Some(Choice::Apply)
    } else if word == "d"@ || word == "discard"@ {
        Some(Choice::Discard)
    } else if word == "k"@ || word == "keep"@ {
        Some(Choice::Keep)
    } else {
        None
    }
}

/// Parses one answer. Nothing is decided by an empty one.
pub fn parse(answer: &str, can_apply: bool) -> (choice: Option<Choice>)
    ensures
        choice == choice_in(answer@, can_apply),
{
    let word = lower_text(answer);
    if can_apply && (same(&word, "a") || same(&word, "apply")) {
        Some(Choice::Apply)
    } else if same(&word, "d") || same(&word, "discard") {
        Some(Choice::Discard)
    } else if same(&word, "k") || same(&word, "keep") {
        Some(Choice::Keep)
    } else {
        None
    }
}

/// Writes to standard output.
#[verifier::opaque]
pub open spec fn say_script(text: Text, tape: Tape) -> Run<()> {
    heard(Ask::Print(text), |answer: Answer| done_in(answer), tape).and_then(
        |said: HeardModel<()>, tape: Tape|
            match said {
                HeardModel::Got(_) => Run::Gives((), tape),
                HeardModel::Trouble(trouble) => Run::Fails(Fault::Spawn(trouble.message), tape),
            },
    )
}

/// Writes to standard output.
pub fn say(session: &mut Session, text: String) -> (outcome: Result<(), Stop>)
    ensures
        ran(outcome, final(session)@) == say_script(text@, old(session)@),
{
    proof {
        reveal(say_script);
    }
    match session.done(Request::Print(text))? {
        Heard::Got(_) => Ok(()),
        Heard::Trouble(trouble) => Err(Stop::Fail(Error::Spawn(trouble.message))),
    }
}

/// The options that are offered.
pub open spec fn options(can_apply: bool) -> Text {
    if can_apply {
        "[a]pply / [d]iscard / [k]eep"@
    } else {
        "[d]iscard / [k]eep"@
    }
}

/// A line of standard input, empty at its end.
#[verifier::opaque]
pub open spec fn read_line_script(tape: Tape) -> Run<Text> {
    heard(Ask::ReadLine, |answer: Answer| text_in(answer), tape).and_then(
        |line: HeardModel<Text>, tape: Tape|
            match line {
                HeardModel::Got(line) => Run::Gives(line, tape),
                HeardModel::Trouble(trouble) => Run::Fails(Fault::Spawn(trouble.message), tape),
            },
    )
}

fn read_line(session: &mut Session) -> (outcome: Result<String, Stop>)
    ensures
        ran(outcome, final(session)@) == read_line_script(old(session)@),
{
    proof {
        reveal(read_line_script);
    }
    match session.text(Request::ReadLine)? {
        Heard::Got(line) => Ok(line),
        Heard::Trouble(trouble) => Err(Stop::Fail(Error::Spawn(trouble.message))),
    }
}

/// Writing uses up one reply.
pub proof fn say_advances(text: Text, tape: Tape, after: Tape)
    requires
        say_script(text, tape) matches Run::Gives(done, reached) && reached == after,
    ensures
        after.log == tape.log,
        tape.next < after.next <= tape.log.len(),
        0 <= tape.next,
{
    reveal(say_script);
}

/// Reading a line uses up one reply.
pub proof fn read_line_advances(tape: Tape, line: Text, after: Tape)
    requires
        read_line_script(tape) == Run::Gives(line, after),
    ensures
        after.log == tape.log,
        tape.next < after.next <= tape.log.len(),
        0 <= tape.next,
{
    reveal(read_line_script);
}

/// Asks until there is an answer. There is no default on Enter; the end of input
/// is not a person, and means discard.
pub open spec fn ask_from(can_apply: bool, tape: Tape) -> Run<Choice>
    decreases tape.log.len() - tape.next,
{
    match say_script(options(can_apply) + "? "@, tape) {
        Run::Gives(_, asked) => match read_line_script(asked) {
            Run::Gives(line, heard) => if line.len() == 0 {
                say_script("\n"@, heard).and_then(
                    |done: (), tape: Tape| Run::Gives(Choice::Discard, tape),
                )
            } else {
                match choice_in(trimmed(line), can_apply) {
                    Some(choice) => Run::Gives(choice, heard),
                    None => match say_script(
                        "please answer with one of "@ + options(can_apply) + "\n"@,
                        heard,
                    ) {
                        Run::Gives(_, told) => {
                            proof {
                                say_advances(options(can_apply) + "? "@, tape, asked);
                                read_line_advances(asked, line, heard);
                                say_advances(
                                    "please answer with one of "@ + options(can_apply) + "\n"@,
                                    heard,
                                    told,
                                );
                            }
                            ask_from(can_apply, told)
                        },
                        Run::Fails(fault, tape) => Run::Fails(fault, tape),
                        Run::Asks(ask, tape) => Run::Asks(ask, tape),
                    },
                }
            },
            Run::Fails(fault, tape) => Run::Fails(fault, tape),
            Run::Asks(ask, tape) => Run::Asks(ask, tape),
        },
        Run::Fails(fault, tape) => Run::Fails(fault, tape),
        Run::Asks(ask, tape) => Run::Asks(ask, tape),
    }
}

/// Asks what to do with the rehearsal. There is no default on Enter: discarding
/// a rehearsal somebody wanted, or keeping one they did not, are both worse than
/// asking again.
pub fn ask(session: &mut Session, can_apply: bool) -> (outcome: Result<Choice, Stop>)
    ensures
        ran(outcome, final(session)@) == ask_from(can_apply, old(session)@),
{
    let options = if can_apply {
        "[a]pply / [d]iscard / [k]eep"
    } else {
        "[d]iscard / [k]eep"
    };
    let ghost start = session@;
    loop
        invariant
            options@ == self::options(can_apply),
            start == old(session)@,
            ask_from(can_apply, start) == ask_from(can_apply, session@),
        decreases session@.log.len() - session@.next,
    {
        let ghost before = session@;
        say(session, cat2(options, "? "))?;
        let ghost asked = session@;
        let line = read_line(session)?;
        let ghost heard = session@;
        if line.as_str().is_empty() {
            say(session, "\n".to_owned())?;
            return Ok(Choice::Discard);
        }
        if let Some(choice) = parse(&trim(&line), can_apply) {
            return Ok(choice);
        }
        say(session, cat3("please answer with one of ", options, "\n"))?;
        proof {
            say_advances(options@ + "? "@, before, asked);
            read_line_advances(asked, line@, heard);
            say_advances("please answer with one of "@ + options@ + "\n"@, heard, session@);
        }
    }
}

/// Drift that was not expected is always warned of, and only then: the head of a
/// branch's difference is a warning exactly where the command was to keep content
/// and a replayed commit is not what it was.
pub proof fn warnings_are_for_unexpected_drift(drift: DriftModel, expected_empty: bool)
    ensures
        "warning: content drift on "@.is_prefix_of(drift_head(drift, expected_empty)) == (
        expected_empty && suspicious(drift.replay)),
{
    reveal_strlit("warning: content drift on ");
    reveal_strlit("content  ");
    let head = drift_head(drift, expected_empty);
    if expected_empty && suspicious(drift.replay) {
        assert(head.take("warning: content drift on "@.len() as int)
            =~= "warning: content drift on "@);
    } else {
        assert(head[0] == 'c');
        assert("warning: content drift on "@[0] == 'w');
    }
}

/// Nothing is applied that the question did not offer: where applying makes no
/// sense, no answer means apply.
pub proof fn only_what_is_offered_can_be_chosen(answer: Text)
    ensures
        choice_in(answer, false) != Some(Choice::Apply),
{
}

/// Leaving the graphs out leaves out the graphs alone: what a report says before
/// and after them is the same without them, the drift among it.
pub proof fn graphs_are_all_that_is_left_out(
    meta: MetaModel,
    analysis: AnalysisModel,
    outcome: Outcome,
    graphs: Seq<GraphModel>,
)
    ensures
        ({
            let above = header(meta) + outcome_section(meta, outcome) + refs_section(
                analysis.ref_moves,
            ) + carried_section(meta.carry) + conflicts_section(analysis);
            let below = drift_section(analysis.drift, analysis.drift_expected_empty);
            &&& report_text(meta, analysis, outcome, graphs) == above + graphs_section(graphs)
                + below
            &&& report_text(meta, analysis, outcome, Seq::empty()) == above + below
        }),
{
    let above = header(meta) + outcome_section(meta, outcome) + refs_section(analysis.ref_moves)
        + carried_section(meta.carry) + conflicts_section(analysis);
    assert(above + Seq::<char>::empty() =~= above);
}

} // verus!
