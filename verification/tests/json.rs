use git_rehearse::analyze::{Analysis, Commit, Conflict};
use git_rehearse::cli::exit;
use git_rehearse::execute::Outcome;
use git_rehearse::json::{
    commit, conflict, kind_of, Decision, Failure, FailureKind, OutcomeKind, Report, SCHEMA,
};

fn analysis() -> Analysis {
    Analysis {
        ref_moves: Vec::new(),
        stopped_at: Some(Commit {
            sha: "0a7bfa18".to_owned(),
            subject: "raise the timeout".to_owned(),
        }),
        conflicts: vec![Conflict {
            path: "config.toml".to_owned(),
            hunks: 1,
        }],
        drift: Vec::new(),
        drift_expected_empty: true,
    }
}

#[test]
fn the_schema_is_stated_in_every_document() {
    // A caller reading a captured document has nothing else to key on.
    assert_eq!(SCHEMA, 1);
    assert_eq!(Failure::new("no".to_owned(), exit::REFUSED).schema, SCHEMA);
}

#[test]
fn a_refusal_and_a_bug_are_different_kinds() {
    // Neither is retryable, but they are reported to a human very
    // differently: one is the tool working, the other is the tool broken.
    assert_eq!(
        Failure::new("dirty".to_owned(), exit::REFUSED).kind,
        FailureKind::Refused
    );
    assert_eq!(
        Failure::new("oops".to_owned(), exit::INTERNAL).kind,
        FailureKind::Internal
    );
}

#[test]
fn an_interactive_break_is_stopped_but_not_conflicted() {
    // `break` stops with no unmerged paths. Reporting that as a conflict
    // would send a caller looking for files that are not there.
    let report = report(&Outcome::Stopped { conflicts: false });
    assert_eq!(report.outcome.name(), "stopped");
    assert_eq!(report.conflicted, false);
}

#[test]
fn absent_things_are_absent_rather_than_null() {
    let report = report(&Outcome::Stopped { conflicts: true });
    assert!(
        report.applied.is_none(),
        "nothing was applied, so there is no applied object: {report:?}"
    );
    assert!(
        report.git_exit_code.is_none(),
        "git did not refuse anything: {report:?}"
    );
    assert_eq!(report.stopped_at.as_ref().expect("stopped").sha, "0a7bfa18");
    assert_eq!(report.conflicts[0].hunks, 1);
}

#[test]
fn a_git_failure_carries_gits_own_exit_code() {
    let report = report(&Outcome::Failed { code: Some(128) });
    assert_eq!(report.outcome.name(), "failed");
    assert_eq!(report.git_exit_code, Some(128));
}

/// A report that does not need a sandbox on disk — the fields under test
/// here all come from the analysis and the outcome.
fn report(outcome: &Outcome) -> Report {
    Report {
        schema: SCHEMA,
        id: "1786281796-00".to_owned(),
        repository: "/repo".to_owned(),
        sandbox: "/cache/1786281796-00/sandbox".to_owned(),
        command: vec!["rebase".to_owned(), "main".to_owned()],
        outcome: kind_of(outcome),
        exit_code: exit::STOPPED,
        git_exit_code: match outcome {
            Outcome::Failed { code } => *code,
            Outcome::Clean | Outcome::Stopped { .. } => None,
        },
        conflicted: matches!(outcome, Outcome::Stopped { conflicts: true }),
        refs: Vec::new(),
        stopped_at: analysis().stopped_at.as_ref().map(commit),
        conflicts: analysis().conflicts.iter().map(conflict).collect(),
        drift: Vec::new(),
        drift_unexpected: false,
        can_apply: false,
        decision: Decision::Kept,
        applied: None,
    }
}

#[test]
fn outcome_names_are_the_wire_format() {
    // Renaming any of these is a schema change, not a refactor.
    for (outcome, name) in [
        (Outcome::Clean, "clean"),
        (Outcome::Stopped { conflicts: true }, "stopped"),
        (Outcome::Failed { code: None }, "failed"),
    ] {
        assert_eq!(kind_of(&outcome).name(), name);
    }
    assert_eq!(OutcomeKind::Clean.name(), "clean");
}

#[test]
fn the_other_names_are_the_wire_format_too() {
    assert_eq!(Decision::Applied.name(), "applied");
    assert_eq!(Decision::Kept.name(), "kept");
    assert_eq!(Decision::Discarded.name(), "discarded");
    assert_eq!(FailureKind::Refused.name(), "refused");
    assert_eq!(FailureKind::Internal.name(), "internal");
}
