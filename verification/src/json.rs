//! The machine-readable report: what `--json` prints.
//!
//! Everything in this module is an interface of its own. The types are not those
//! of the analysis, even though several are shaped like them: those change with
//! the terminal report, and a rename there must not rewrite a published document.
//!
//! A run prints one document and nothing else, and failures are documents too.

use vstd::prelude::*;

use crate::analyze::replay::ReplayModel;
use crate::analyze::{
    drifts_unexpectedly, Analysis, AnalysisModel, Commit, CommitModel, Conflict, ConflictModel,
    Drift, DriftModel, FileChange, FileChangeModel, RefMove, RefMoveModel, Replay,
};
use crate::apply::{Applied, AppliedModel};
use crate::execute::Outcome;
use crate::paths::{display, displayed};
use crate::report::Choice;
use crate::sandbox::meta::Status;
use crate::sandbox::{worktree_of, Sandbox, SandboxModel};
use crate::text::{copy_text, copy_texts, put, Text};
use crate::undo::{Undone, UndoneModel};

verus! {

/// Version of the documents.
pub const SCHEMA: u32 = 1;

/// How the rehearsed command ended.
#[derive(Debug, Clone, Copy, PartialEq, Eq, Structural)]
pub enum OutcomeKind {
    /// Finished, nothing left in progress.
    Clean,
    /// Stopped part-way: a conflict, or an interactive `break`.
    Stopped,
    /// Git refused the command outright.
    Failed,
}

/// How an outcome is spelled.
pub open spec fn outcome_name(kind: OutcomeKind) -> Text {
    match kind {
        OutcomeKind::Clean => "clean"@,
        OutcomeKind::Stopped => "stopped"@,
        OutcomeKind::Failed => "failed"@,
    }
}

impl OutcomeKind {
    /// How the outcome is spelled.
    pub fn name(self) -> (name: &'static str)
        ensures
            name@ == outcome_name(self),
    {
        match self {
            OutcomeKind::Clean => "clean",
            OutcomeKind::Stopped => "stopped",
            OutcomeKind::Failed => "failed",
        }
    }
}

/// What became of the rehearsal afterwards.
#[derive(Debug, Clone, Copy, PartialEq, Eq, Structural)]
pub enum Decision {
    /// Transplanted into the real repository.
    Applied,
    /// Left in the cache; the `id` can be used again.
    Kept,
    /// The sandbox is gone. `id` and `sandbox` describe something that no longer
    /// exists.
    Discarded,
}

/// How a decision is spelled.
pub open spec fn decision_name(decision: Decision) -> Text {
    match decision {
        Decision::Applied => "applied"@,
        Decision::Kept => "kept"@,
        Decision::Discarded => "discarded"@,
    }
}

impl Decision {
    /// How the decision is spelled.
    pub fn name(self) -> (name: &'static str)
        ensures
            name@ == decision_name(self),
    {
        match self {
            Decision::Applied => "applied",
            Decision::Kept => "kept",
            Decision::Discarded => "discarded",
        }
    }
}

/// One ref, before and after.
#[derive(Debug, PartialEq, Eq)]
pub struct Ref {
    /// Full ref name, or `HEAD`.
    pub name: String,
    /// Where it pointed before; absent if the command created it.
    pub before: Option<String>,
    /// Where it points now; absent if the command deleted it.
    pub after: Option<String>,
}

impl DeepView for Ref {
    type V = RefMoveModel;

    open spec fn deep_view(&self) -> RefMoveModel {
        RefMoveModel {
            name: self.name@,
            before: self.before.deep_view(),
            after: self.after.deep_view(),
        }
    }
}

/// A commit, identified and described.
#[derive(Debug, PartialEq, Eq)]
pub struct CommitRef {
    pub sha: String,
    pub subject: String,
}

impl DeepView for CommitRef {
    type V = CommitModel;

    open spec fn deep_view(&self) -> CommitModel {
        CommitModel { sha: self.sha@, subject: self.subject@ }
    }
}

/// An unmerged path.
#[derive(Debug, PartialEq, Eq)]
pub struct ConflictEntry {
    pub path: String,
    /// Conflict hunks git left in the file. Zero means unmerged but without
    /// markers.
    pub hunks: usize,
}

impl DeepView for ConflictEntry {
    type V = ConflictModel;

    open spec fn deep_view(&self) -> ConflictModel {
        ConflictModel { path: self.path@, hunks: self.hunks as int }
    }
}

/// One file in a diff.
#[derive(Debug, PartialEq, Eq)]
pub struct FileEntry {
    /// Git's status letter.
    pub status: String,
    pub path: String,
}

impl DeepView for FileEntry {
    type V = FileChangeModel;

    open spec fn deep_view(&self) -> FileChangeModel {
        FileChangeModel { status: self.status@, path: self.path@ }
    }
}

/// What happened to the individual commits when they were replayed.
#[derive(Debug, PartialEq, Eq)]
pub struct ReplayReport {
    /// Subjects of commits whose patch is not what it was.
    pub changed: Vec<String>,
    /// Subjects of commits that are simply gone.
    pub dropped: Vec<String>,
    /// Subjects present only on the new side.
    pub added: Vec<String>,
    /// Whether git could pair the two ranges up at all.
    pub compared: bool,
}

impl DeepView for ReplayReport {
    type V = ReplayModel;

    open spec fn deep_view(&self) -> ReplayModel {
        ReplayModel {
            changed: self.changed.deep_view(),
            dropped: self.dropped.deep_view(),
            added: self.added.deep_view(),
            compared: self.compared,
        }
    }
}

/// The content difference between a branch's old and new tip.
#[derive(Debug, PartialEq, Eq)]
pub struct DriftEntry {
    pub reference: String,
    pub files: Vec<FileEntry>,
    pub commits_before: usize,
    pub commits_after: usize,
    pub replay: ReplayReport,
}

impl DeepView for DriftEntry {
    type V = DriftModel;

    open spec fn deep_view(&self) -> DriftModel {
        DriftModel {
            reference: self.reference@,
            changes: self.files.deep_view(),
            commits_before: self.commits_before as int,
            commits_after: self.commits_after as int,
            replay: self.replay.deep_view(),
        }
    }
}

/// What an apply moved.
#[derive(Debug, PartialEq, Eq)]
pub struct AppliedReport {
    /// Refs moved, created or deleted in the real repository.
    pub refs: Vec<Ref>,
    /// The branch whose worktree was reset, if any.
    pub worktree_reset: Option<String>,
    /// Where the pre-state was written down.
    pub undo: String,
}

/// The model of an [`AppliedReport`].
pub struct AppliedReportModel {
    pub refs: Seq<RefMoveModel>,
    pub worktree_reset: Option<Text>,
    pub undo: Text,
}

impl DeepView for AppliedReport {
    type V = AppliedReportModel;

    open spec fn deep_view(&self) -> AppliedReportModel {
        AppliedReportModel {
            refs: self.refs.deep_view(),
            worktree_reset: self.worktree_reset.deep_view(),
            undo: self.undo@,
        }
    }
}

/// The rehearsal report.
#[derive(Debug, PartialEq, Eq)]
pub struct Report {
    pub schema: u32,
    /// The rehearsal id.
    pub id: String,
    /// The real repository this was rehearsed against.
    pub repository: String,
    /// The sandbox worktree, only usable when `decision` is not `discarded`.
    pub sandbox: String,
    /// The command, as git received it.
    pub command: Vec<String>,
    pub outcome: OutcomeKind,
    /// The process exit code.
    pub exit_code: u8,
    /// Git's own exit code, when git refused the command.
    pub git_exit_code: Option<i32>,
    /// Whether the stop involves unmerged paths.
    pub conflicted: bool,
    pub refs: Vec<Ref>,
    /// The commit being replayed when the command stopped.
    pub stopped_at: Option<CommitRef>,
    pub conflicts: Vec<ConflictEntry>,
    pub drift: Vec<DriftEntry>,
    /// Whether `drift` is a surprise.
    pub drift_unexpected: bool,
    /// Whether this rehearsal is in a state that could be applied.
    pub can_apply: bool,
    pub decision: Decision,
    /// Present only when `decision` is `applied`.
    pub applied: Option<AppliedReport>,
}

/// The model of a [`Report`].
pub struct ReportModel {
    pub schema: u32,
    pub id: Text,
    pub repository: Text,
    pub sandbox: Text,
    pub command: Seq<Text>,
    pub outcome: OutcomeKind,
    pub exit_code: u8,
    pub git_exit_code: Option<i32>,
    pub conflicted: bool,
    pub refs: Seq<RefMoveModel>,
    pub stopped_at: Option<CommitModel>,
    pub conflicts: Seq<ConflictModel>,
    pub drift: Seq<DriftModel>,
    pub drift_unexpected: bool,
    pub can_apply: bool,
    pub decision: Decision,
    pub applied: Option<AppliedReportModel>,
}

impl DeepView for Report {
    type V = ReportModel;

    open spec fn deep_view(&self) -> ReportModel {
        ReportModel {
            schema: self.schema,
            id: self.id@,
            repository: self.repository@,
            sandbox: self.sandbox@,
            command: self.command.deep_view(),
            outcome: self.outcome,
            exit_code: self.exit_code,
            git_exit_code: self.git_exit_code,
            conflicted: self.conflicted,
            refs: self.refs.deep_view(),
            stopped_at: self.stopped_at.deep_view(),
            conflicts: self.conflicts.deep_view(),
            drift: self.drift.deep_view(),
            drift_unexpected: self.drift_unexpected,
            can_apply: self.can_apply,
            decision: self.decision,
            applied: self.applied.deep_view(),
        }
    }
}

/// One entry of a listing.
#[derive(Debug, PartialEq, Eq)]
pub struct Entry {
    pub id: String,
    pub command: Vec<String>,
    pub sandbox: String,
    /// `fresh` or `kept`.
    pub status: String,
    /// Seconds since 1970.
    pub created_unix: u64,
    /// How the command ended, if it has run.
    pub outcome: Option<OutcomeKind>,
}

/// The model of an [`Entry`].
pub struct EntryModel {
    pub id: Text,
    pub command: Seq<Text>,
    pub sandbox: Text,
    pub status: Text,
    pub created_unix: u64,
    pub outcome: Option<OutcomeKind>,
}

impl DeepView for Entry {
    type V = EntryModel;

    open spec fn deep_view(&self) -> EntryModel {
        EntryModel {
            id: self.id@,
            command: self.command.deep_view(),
            sandbox: self.sandbox@,
            status: self.status@,
            created_unix: self.created_unix,
            outcome: self.outcome,
        }
    }
}

/// The answer to `list`.
#[derive(Debug, PartialEq, Eq)]
pub struct Listing {
    pub schema: u32,
    pub rehearsals: Vec<Entry>,
    /// Rehearsals deleted by the age-out sweep this run performed.
    pub pruned: Vec<String>,
}

/// The answer to `apply`.
#[derive(Debug, PartialEq, Eq)]
pub struct ApplyResult {
    pub schema: u32,
    pub id: String,
    pub repository: String,
    pub exit_code: u8,
    pub applied: AppliedReport,
}

/// The answer to `discard`.
#[derive(Debug, PartialEq, Eq)]
pub struct DiscardResult {
    pub schema: u32,
    /// The ids that are now gone.
    pub discarded: Vec<String>,
    pub exit_code: u8,
}

/// The answer to `undo`.
#[derive(Debug, PartialEq, Eq)]
pub struct UndoResult {
    pub schema: u32,
    /// The rehearsal whose apply was taken back.
    pub id: String,
    /// When that apply happened, seconds since 1970.
    pub applied_at_unix: u64,
    /// The refs that were put back.
    pub refs: Vec<Ref>,
    /// The branch whose worktree was reset, if any.
    pub worktree_reset: Option<String>,
    pub exit_code: u8,
}

/// Why a run failed.
#[derive(Debug, Clone, Copy, PartialEq, Eq, Structural)]
pub enum FailureKind {
    /// The tool works and declines.
    Refused,
    /// The tool is broken.
    Internal,
}

/// How a kind of failure is spelled.
pub open spec fn failure_name(kind: FailureKind) -> Text {
    match kind {
        FailureKind::Refused => "refused"@,
        FailureKind::Internal => "internal"@,
    }
}

impl FailureKind {
    /// How the kind of failure is spelled.
    pub fn name(self) -> (name: &'static str)
        ensures
            name@ == failure_name(self),
    {
        match self {
            FailureKind::Refused => "refused",
            FailureKind::Internal => "internal",
        }
    }
}

/// The document printed instead of a report when a run fails.
#[derive(Debug, PartialEq, Eq)]
pub struct Failure {
    pub schema: u32,
    pub kind: FailureKind,
    /// The same text a person would have seen.
    pub message: String,
    pub exit_code: u8,
}

/// The model of a [`Failure`].
pub struct FailureModel {
    pub schema: u32,
    pub kind: FailureKind,
    pub message: Text,
    pub exit_code: u8,
}

impl DeepView for Failure {
    type V = FailureModel;

    open spec fn deep_view(&self) -> FailureModel {
        FailureModel {
            schema: self.schema,
            kind: self.kind,
            message: self.message@,
            exit_code: self.exit_code,
        }
    }
}

/// A document that is printed.
#[derive(Debug, PartialEq, Eq)]
pub enum Document {
    Report(Report),
    Listing(Listing),
    Apply(ApplyResult),
    Discard(DiscardResult),
    Undo(UndoResult),
    Failure(Failure),
}

/// The model of a [`Document`].
pub enum DocumentModel {
    Report(ReportModel),
    Listing { schema: u32, rehearsals: Seq<EntryModel>, pruned: Seq<Text> },
    Apply {
        schema: u32,
        id: Text,
        repository: Text,
        exit_code: u8,
        applied: AppliedReportModel,
    },
    Discard { schema: u32, discarded: Seq<Text>, exit_code: u8 },
    Undo {
        schema: u32,
        id: Text,
        applied_at_unix: u64,
        refs: Seq<RefMoveModel>,
        worktree_reset: Option<Text>,
        exit_code: u8,
    },
    Failure(FailureModel),
}

impl DeepView for Document {
    type V = DocumentModel;

    open spec fn deep_view(&self) -> DocumentModel {
        match self {
            Document::Report(report) => DocumentModel::Report(report.deep_view()),
            Document::Listing(listing) => DocumentModel::Listing {
                schema: listing.schema,
                rehearsals: listing.rehearsals.deep_view(),
                pruned: listing.pruned.deep_view(),
            },
            Document::Apply(result) => DocumentModel::Apply {
                schema: result.schema,
                id: result.id@,
                repository: result.repository@,
                exit_code: result.exit_code,
                applied: result.applied.deep_view(),
            },
            Document::Discard(result) => DocumentModel::Discard {
                schema: result.schema,
                discarded: result.discarded.deep_view(),
                exit_code: result.exit_code,
            },
            Document::Undo(result) => DocumentModel::Undo {
                schema: result.schema,
                id: result.id@,
                applied_at_unix: result.applied_at_unix,
                refs: result.refs.deep_view(),
                worktree_reset: result.worktree_reset.deep_view(),
                exit_code: result.exit_code,
            },
            Document::Failure(failure) => DocumentModel::Failure(failure.deep_view()),
        }
    }
}

// ---------------------------------------------------------------------------
// Building them
// ---------------------------------------------------------------------------
/// The kind of a failure with an exit code.
pub open spec fn failure_of(message: Text, exit_code: u8) -> FailureModel {
    FailureModel {
        schema: SCHEMA,
        kind: if exit_code == crate::cli::exit::REFUSED {
            FailureKind::Refused
        } else {
            FailureKind::Internal
        },
        message,
        exit_code,
    }
}

impl Failure {
    /// The failure document for an error and the exit code it produced.
    pub fn new(message: String, exit_code: u8) -> (failure: Failure)
        ensures
            failure.deep_view() == failure_of(message@, exit_code),
    {
        Failure {
            schema: SCHEMA,
            kind: if exit_code == crate::cli::exit::REFUSED {
                FailureKind::Refused
            } else {
                FailureKind::Internal
            },
            message,
            exit_code,
        }
    }
}

/// The kind of an outcome.
pub open spec fn outcome_kind(outcome: Outcome) -> OutcomeKind {
    match outcome {
        Outcome::Clean => OutcomeKind::Clean,
        Outcome::Stopped { .. } => OutcomeKind::Stopped,
        Outcome::Failed { .. } => OutcomeKind::Failed,
    }
}

/// The document kind for an outcome.
pub fn kind_of(outcome: &Outcome) -> (kind: OutcomeKind)
    ensures
        kind == outcome_kind(*outcome),
{
    match outcome {
        Outcome::Clean => OutcomeKind::Clean,
        Outcome::Stopped { .. } => OutcomeKind::Stopped,
        Outcome::Failed { .. } => OutcomeKind::Failed,
    }
}

/// The entry of a rehearsal in a listing.
pub open spec fn entry_of(sandbox: SandboxModel) -> EntryModel {
    EntryModel {
        id: sandbox.meta.id,
        command: sandbox.meta.command,
        sandbox: displayed(worktree_of(sandbox.root)),
        status: match sandbox.meta.status {
            Status::Fresh => "fresh"@,
            Status::Kept => "kept"@,
        },
        created_unix: sandbox.meta.created_unix,
        outcome: match sandbox.meta.result {
            Some(outcome) => Some(outcome_kind(outcome)),
            None => None,
        },
    }
}

impl Entry {
    /// One listing entry for a rehearsal in the cache.
    pub fn of(sandbox: &Sandbox) -> (entry: Entry)
        ensures
            entry.deep_view() == entry_of(sandbox.deep_view()),
    {
        let meta = sandbox.meta();
        Entry {
            id: meta.id.clone(),
            command: copy_texts(&meta.command),
            sandbox: display(&sandbox.worktree()),
            status: match meta.status {
                Status::Fresh => "fresh".to_owned(),
                Status::Kept => "kept".to_owned(),
            },
            created_unix: meta.created_unix,
            outcome: match &meta.result {
                Some(outcome) => Some(kind_of(outcome)),
                None => None,
            },
        }
    }
}

/// The document of a moved ref.
pub fn reference(moved: &RefMove) -> (entry: Ref)
    ensures
        entry.deep_view() == moved.deep_view(),
{
    Ref {
        name: moved.name.clone(),
        before: copy_text(&moved.before),
        after: copy_text(&moved.after),
    }
}

/// The documents of moved refs.
pub fn references(moves: &Vec<RefMove>) -> (entries: Vec<Ref>)
    ensures
        entries.deep_view() == moves.deep_view(),
{
    let ghost all = moves.deep_view();
    let mut entries: Vec<Ref> = Vec::new();
    let mut i: usize = 0;
    assert(entries.deep_view() =~= all.take(0));
    while i < moves.len()
        invariant
            i <= moves@.len(),
            all == moves.deep_view(),
            entries.deep_view() == all.take(i as int),
        decreases moves@.len() - i,
    {
        put(&mut entries, reference(&moves[i]));
        i = i + 1;
        assert(all.take(i as int) =~= all.take(i - 1).push(moves[i - 1].deep_view()));
    }
    assert(all.take(all.len() as int) =~= all);
    entries
}

/// The document of a commit.
pub fn commit(found: &Commit) -> (entry: CommitRef)
    ensures
        entry.deep_view() == found.deep_view(),
{
    CommitRef { sha: found.sha.clone(), subject: found.subject.clone() }
}

/// The document of an unmerged path.
pub fn conflict(found: &Conflict) -> (entry: ConflictEntry)
    ensures
        entry.deep_view() == found.deep_view(),
{
    ConflictEntry { path: found.path.clone(), hunks: found.hunks }
}

fn conflicts(found: &Vec<Conflict>) -> (entries: Vec<ConflictEntry>)
    ensures
        entries.deep_view() == found.deep_view(),
{
    let ghost all = found.deep_view();
    let mut entries: Vec<ConflictEntry> = Vec::new();
    let mut i: usize = 0;
    assert(entries.deep_view() =~= all.take(0));
    while i < found.len()
        invariant
            i <= found@.len(),
            all == found.deep_view(),
            entries.deep_view() == all.take(i as int),
        decreases found@.len() - i,
    {
        put(&mut entries, conflict(&found[i]));
        i = i + 1;
        assert(all.take(i as int) =~= all.take(i - 1).push(found[i - 1].deep_view()));
    }
    assert(all.take(all.len() as int) =~= all);
    entries
}

fn file(change: &FileChange) -> (entry: FileEntry)
    ensures
        entry.deep_view() == change.deep_view(),
{
    FileEntry { status: change.status.clone(), path: change.path.clone() }
}

fn files(changes: &Vec<FileChange>) -> (entries: Vec<FileEntry>)
    ensures
        entries.deep_view() == changes.deep_view(),
{
    let ghost all = changes.deep_view();
    let mut entries: Vec<FileEntry> = Vec::new();
    let mut i: usize = 0;
    assert(entries.deep_view() =~= all.take(0));
    while i < changes.len()
        invariant
            i <= changes@.len(),
            all == changes.deep_view(),
            entries.deep_view() == all.take(i as int),
        decreases changes@.len() - i,
    {
        put(&mut entries, file(&changes[i]));
        i = i + 1;
        assert(all.take(i as int) =~= all.take(i - 1).push(changes[i - 1].deep_view()));
    }
    assert(all.take(all.len() as int) =~= all);
    entries
}

fn replay(found: &Replay) -> (report: ReplayReport)
    ensures
        report.deep_view() == found.deep_view(),
{
    ReplayReport {
        changed: copy_texts(&found.changed),
        dropped: copy_texts(&found.dropped),
        added: copy_texts(&found.added),
        compared: found.compared,
    }
}

fn drift(found: &Drift) -> (entry: DriftEntry)
    ensures
        entry.deep_view() == found.deep_view(),
{
    DriftEntry {
        reference: found.reference.clone(),
        files: files(&found.changes),
        commits_before: found.commits_before,
        commits_after: found.commits_after,
        replay: replay(&found.replay),
    }
}

fn drifts(found: &Vec<Drift>) -> (entries: Vec<DriftEntry>)
    ensures
        entries.deep_view() == found.deep_view(),
{
    let ghost all = found.deep_view();
    let mut entries: Vec<DriftEntry> = Vec::new();
    let mut i: usize = 0;
    assert(entries.deep_view() =~= all.take(0));
    while i < found.len()
        invariant
            i <= found@.len(),
            all == found.deep_view(),
            entries.deep_view() == all.take(i as int),
        decreases found@.len() - i,
    {
        put(&mut entries, drift(&found[i]));
        i = i + 1;
        assert(all.take(i as int) =~= all.take(i - 1).push(found[i - 1].deep_view()));
    }
    assert(all.take(all.len() as int) =~= all);
    entries
}

/// What an apply moved, as a document.
pub open spec fn applied_document(applied: AppliedModel) -> AppliedReportModel {
    AppliedReportModel {
        refs: applied.moved,
        worktree_reset: applied.reset,
        undo: displayed(applied.undo),
    }
}

/// The applied-refs document.
pub fn applied_report(applied: &Applied) -> (report: AppliedReport)
    ensures
        report.deep_view() == applied_document(applied.deep_view()),
{
    AppliedReport {
        refs: references(&applied.moved),
        worktree_reset: copy_text(&applied.reset),
        undo: display(&applied.undo),
    }
}

/// What a choice makes of a rehearsal.
pub open spec fn decision_of(choice: Choice) -> Decision {
    match choice {
        Choice::Apply => Decision::Applied,
        Choice::Keep => Decision::Kept,
        Choice::Discard => Decision::Discarded,
    }
}

/// Git's own exit code, when git refused the command.
pub open spec fn git_code(outcome: Outcome) -> Option<i32> {
    match outcome {
        Outcome::Failed { code } => code,
        _ => None,
    }
}

/// The report of a rehearsal. An interactive `break` is stopped but not
/// conflicted.
pub open spec fn report_of(
    sandbox: SandboxModel,
    analysis: AnalysisModel,
    outcome: Outcome,
    exit_code: u8,
    can_apply: bool,
    choice: Choice,
    applied: Option<AppliedModel>,
) -> ReportModel {
    ReportModel {
        schema: SCHEMA,
        id: sandbox.meta.id,
        repository: displayed(sandbox.meta.repo_path),
        sandbox: displayed(worktree_of(sandbox.root)),
        command: sandbox.meta.command,
        outcome: outcome_kind(outcome),
        exit_code,
        git_exit_code: git_code(outcome),
        conflicted: outcome == (Outcome::Stopped { conflicts: true }),
        refs: analysis.ref_moves,
        stopped_at: analysis.stopped_at,
        conflicts: analysis.conflicts,
        drift: analysis.drift,
        drift_unexpected: drifts_unexpectedly(analysis),
        can_apply,
        decision: decision_of(choice),
        applied: match applied {
            Some(applied) => Some(applied_document(applied)),
            None => None,
        },
    }
}

impl Report {
    /// Builds the report document.
    pub fn new(
        sandbox: &Sandbox,
        analysis: &Analysis,
        outcome: &Outcome,
        exit_code: u8,
        can_apply: bool,
        choice: Choice,
        applied: Option<&Applied>,
    ) -> (report: Report)
        ensures
            report.deep_view() == report_of(
                sandbox.deep_view(),
                analysis.deep_view(),
                *outcome,
                exit_code,
                can_apply,
                choice,
                applied.deep_view(),
            ),
    {
        let meta = sandbox.meta();
        Report {
            schema: SCHEMA,
            id: meta.id.clone(),
            repository: display(&meta.repo_path),
            sandbox: display(&sandbox.worktree()),
            command: copy_texts(&meta.command),
            outcome: kind_of(outcome),
            exit_code,
            git_exit_code: match outcome {
                Outcome::Failed { code } => *code,
                _ => None,
            },
            conflicted: match outcome {
                Outcome::Stopped { conflicts } => *conflicts,
                _ => false,
            },
            refs: references(&analysis.ref_moves),
            stopped_at: match &analysis.stopped_at {
                Some(found) => Some(commit(found)),
                None => None,
            },
            conflicts: conflicts(&analysis.conflicts),
            drift: drifts(&analysis.drift),
            drift_unexpected: analysis.has_unexpected_drift(),
            can_apply,
            decision: match choice {
                Choice::Apply => Decision::Applied,
                Choice::Keep => Decision::Kept,
                Choice::Discard => Decision::Discarded,
            },
            applied: match applied {
                Some(applied) => Some(applied_report(applied)),
                None => None,
            },
        }
    }
}

/// The answer to an undo.
pub open spec fn undo_document(undone: UndoneModel, exit_code: u8) -> DocumentModel {
    DocumentModel::Undo {
        schema: SCHEMA,
        id: undone.rehearsal,
        applied_at_unix: undone.applied_at_unix,
        refs: undone.restored,
        worktree_reset: undone.reset,
        exit_code,
    }
}

impl UndoResult {
    /// The answer to an undo.
    pub fn new(undone: &Undone, exit_code: u8) -> (result: UndoResult)
        ensures
            Document::Undo(result).deep_view() == undo_document(undone.deep_view(), exit_code),
    {
        UndoResult {
            schema: SCHEMA,
            id: undone.rehearsal.clone(),
            applied_at_unix: undone.applied_at_unix,
            refs: references(&undone.restored),
            worktree_reset: copy_text(&undone.reset),
            exit_code,
        }
    }
}

} // verus!
