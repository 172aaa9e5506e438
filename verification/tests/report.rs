use git_rehearse::analyze::{Analysis, Commit, Conflict, Drift, FileChange, RefMove, Replay};
use git_rehearse::carry::{Carry, Replay as Carried};
use git_rehearse::execute::Outcome;
use git_rehearse::refs::RefMap;
use git_rehearse::report::{
    ask, can_apply, graphs, non_interactive, parse, render, short, Choice, Detail, Graph,
};
use git_rehearse::sandbox::{Checkout, Meta, Status, META_SCHEMA};
use git_rehearse::session::{Ended, Reply, Request, Session, Stop};

/// Runs a procedure over these replies.
fn over<T>(
    replies: Vec<Reply>,
    procedure: impl Fn(&mut Session) -> Result<T, Stop>,
) -> Result<T, Stop> {
    let mut session = Session::new(&replies);
    procedure(&mut session)
}

/// What a procedure prints on its way through these replies.
fn printed<T>(
    replies: &Vec<Reply>,
    procedure: impl Fn(&mut Session) -> Result<T, Stop>,
) -> String {
    let mut shown = String::new();
    for count in 0..=replies.len() {
        let known: Vec<Reply> = replies[..count].iter().map(again).collect();
        let mut session = Session::new(&known);
        if let Err(Stop::Ask(Request::Print(text))) = procedure(&mut session) {
            shown.push_str(&text);
        }
    }
    shown
}

/// The same reply once more.
fn again(reply: &Reply) -> Reply {
    match reply {
        Reply::Done => Reply::Done,
        Reply::Text(text) => Reply::Text(text.clone()),
        _ => panic!("no such reply here"),
    }
}

fn meta(command: &[&str]) -> Meta {
    Meta {
        schema: META_SCHEMA,
        id: "1786248000-00".to_owned(),
        repo_id: "app-0123456789abcdef".to_owned(),
        repo_path: "/repos/app".to_owned(),
        command: command.iter().map(|arg| (*arg).to_owned()).collect(),
        checkout: Checkout::Branch("feature".to_owned()),
        origin: None,
        pre_state: RefMap::new(),
        carry: None,
        created_unix: 1_786_248_000,
        status: Status::Fresh,
        result: None,
        extensions: Vec::new(),
    }
}

/// The same, with uncommitted work carried through it.
fn meta_carrying(command: &[&str], replay: Option<Carried>) -> Meta {
    Meta {
        carry: Some(Carry {
            snapshot: "5ea51a5h".to_owned(),
            paths: vec!["notes.txt".to_owned(), "src/main.rs".to_owned()],
            replay,
        }),
        ..meta(command)
    }
}

fn moved(name: &str) -> RefMove {
    RefMove {
        name: name.to_owned(),
        before: Some("aaaaaaaaaaaa1111".to_owned()),
        after: Some("bbbbbbbbbbbb2222".to_owned()),
    }
}

fn analysis() -> Analysis {
    Analysis {
        ref_moves: vec![moved("refs/heads/feature")],
        stopped_at: None,
        conflicts: Vec::new(),
        drift: Vec::new(),
        drift_expected_empty: true,
    }
}

#[test]
fn the_header_says_what_was_rehearsed_and_where() {
    let report = render(
        &meta(&["rebase", "-i", "main"]),
        &analysis(),
        &Outcome::Clean,
        &vec![],
    );
    assert!(report.contains("rehearsed  git rebase -i main"), "{report}");
    assert!(report.contains("/repos/app"), "{report}");
    assert!(report.contains("1786248000-00"), "{report}");
}

#[test]
fn ref_moves_are_shown_old_to_new_and_abbreviated() {
    let report = render(&meta(&["merge", "x"]), &analysis(), &Outcome::Clean, &vec![]);
    assert!(
        report.contains("refs/heads/feature  aaaaaaaa -> bbbbbbbb"),
        "{report}"
    );
}

#[test]
fn a_created_or_deleted_branch_reads_as_such() {
    let mut analysis = analysis();
    analysis.ref_moves = vec![
        RefMove {
            name: "refs/heads/new".to_owned(),
            before: None,
            after: Some("cccccccccccc".to_owned()),
        },
        RefMove {
            name: "refs/heads/gone".to_owned(),
            before: Some("dddddddddddd".to_owned()),
            after: None,
        },
    ];
    let report = render(&meta(&["merge", "x"]), &analysis, &Outcome::Clean, &vec![]);
    assert!(report.contains("created at cccccccc"), "{report}");
    assert!(report.contains("deleted (was dddddddd)"), "{report}");
}

#[test]
fn a_rehearsal_that_moved_nothing_says_so_rather_than_showing_an_empty_heading() {
    let mut analysis = analysis();
    analysis.ref_moves.clear();
    let report = render(&meta(&["merge", "main"]), &analysis, &Outcome::Clean, &vec![]);
    assert!(report.contains("nothing moved"), "{report}");
}

/// A drift entry whose replay says what `replay` says.
fn drift(replay: Replay) -> Drift {
    Drift {
        reference: "refs/heads/feature".to_owned(),
        changes: vec![FileChange {
            status: "M".to_owned(),
            path: "src/main.rs".to_owned(),
        }],
        commits_before: 1,
        commits_after: 2,
        replay,
    }
}

#[test]
fn a_commit_that_changed_when_replayed_is_a_warning_that_explains_itself() {
    let mut analysis = analysis();
    analysis.drift = vec![drift(Replay {
        changed: vec!["teach the parser about tabs".to_owned()],
        compared: true,
        added: vec!["main moves on".to_owned()],
        ..Replay::default()
    })];
    let report = render(&meta(&["rebase", "main"]), &analysis, &Outcome::Clean, &vec![]);

    assert!(report.contains("warning: content drift"), "{report}");
    assert!(
        report.contains("changed  teach the parser about tabs"),
        "{report}"
    );
    assert!(report.contains("M src/main.rs"), "{report}");
    // The explanation matters as much as the warning: a warning nobody
    // understands gets ignored the second time.
    assert!(report.contains("conflict resolution"), "{report}");
}

#[test]
fn a_dropped_commit_is_named_rather_than_left_to_be_noticed() {
    let mut analysis = analysis();
    analysis.drift = vec![drift(Replay {
        dropped: vec!["fix the off-by-one".to_owned()],
        compared: true,
        ..Replay::default()
    })];
    let report = render(
        &meta(&["rebase", "-i", "main"]),
        &analysis,
        &Outcome::Clean,
        &vec![],
    );

    assert!(report.contains("warning: content drift"), "{report}");
    assert!(report.contains("gone     fix the off-by-one"), "{report}");
}

#[test]
fn content_that_came_from_the_new_base_is_not_a_warning() {
    // The most ordinary rebase there is: `rebase main` where main has
    // moved on. The tip's tree differs by exactly the base's own commits,
    // and warning about that would train people to ignore the warning.
    let mut analysis = analysis();
    analysis.drift = vec![drift(Replay {
        added: vec!["a".to_owned(), "b".to_owned()],
        compared: true,
        ..Replay::default()
    })];
    let report = render(&meta(&["rebase", "main"]), &analysis, &Outcome::Clean, &vec![]);

    assert!(!report.contains("warning"), "{report}");
    assert!(
        report.contains("every replayed commit is unchanged"),
        "{report}"
    );
    assert!(
        report.contains("2 commit(s) picked up from the new base"),
        "{report}"
    );
    assert!(
        report.contains("M src/main.rs"),
        "still says what differs: {report}"
    );
}

#[test]
fn a_rewrite_git_could_not_compare_is_treated_as_suspicious() {
    let mut analysis = analysis();
    analysis.drift = vec![drift(Replay::default())];
    let report = render(&meta(&["rebase", "main"]), &analysis, &Outcome::Clean, &vec![]);

    assert!(report.contains("warning: content drift"), "{report}");
    assert!(report.contains("could not be compared"), "{report}");
}

#[test]
fn the_same_difference_after_a_merge_is_reported_without_alarm() {
    let mut analysis = analysis();
    analysis.drift_expected_empty = false;
    analysis.drift = vec![Drift {
        reference: "refs/heads/main".to_owned(),
        changes: vec![FileChange {
            status: "M".to_owned(),
            path: "src/main.rs".to_owned(),
        }],
        commits_before: 1,
        commits_after: 1,
        replay: Replay {
            compared: true,
            ..Replay::default()
        },
    }];
    let report = render(
        &meta(&["merge", "feature"]),
        &analysis,
        &Outcome::Clean,
        &vec![],
    );

    assert!(
        !report.contains("warning"),
        "a merge changes content: {report}"
    );
    assert!(report.contains("content  refs/heads/main"), "{report}");
    assert!(report.contains("M src/main.rs"), "{report}");
}

#[test]
fn carried_work_that_comes_back_clean_says_so_in_one_line() {
    let report = render(
        &meta_carrying(
            &["rebase", "main"],
            Some(Carried::Restored {
                result: Some("re914yed".to_owned()),
            }),
        ),
        &analysis(),
        &Outcome::Clean,
        &vec![],
    );
    assert!(
        report.contains("carried  2 uncommitted path(s): notes.txt, src/main.rs"),
        "{report}"
    );
    assert!(report.contains("come back clean"), "{report}");
}

#[test]
fn carried_work_the_new_history_already_contains_is_not_silently_dropped() {
    // The changes are gone from the worktree after an apply, and the
    // reason is that they are in the commits now. Saying nothing here
    // would look exactly like losing them.
    let report = render(
        &meta_carrying(
            &["rebase", "main"],
            Some(Carried::Restored { result: None }),
        ),
        &analysis(),
        &Outcome::Clean,
        &vec![],
    );
    assert!(report.contains("nothing comes back"), "{report}");
    assert!(report.contains("already contains"), "{report}");
}

#[test]
fn a_replay_that_conflicts_is_reported_as_the_command_having_run() {
    // The rebase worked. What stopped is putting the uncommitted work
    // back, and a report that said "the command stopped part-way" would
    // send someone looking for a half-finished rebase that is not there.
    let report = render(
        &meta_carrying(
            &["rebase", "main"],
            Some(Carried::Conflicted {
                paths: vec!["notes.txt".to_owned()],
            }),
        ),
        &analysis(),
        &Outcome::Stopped { conflicts: true },
        &vec![],
    );
    assert!(
        report.contains("the command ran, but your uncommitted changes did not go back on"),
        "{report}"
    );
    assert!(!report.contains("the command stopped part-way"), "{report}");
    assert!(report.contains("do NOT come back clean"), "{report}");
    assert!(report.contains("    notes.txt"), "{report}");
}

#[test]
fn a_replay_that_never_happened_says_why_rather_than_nothing() {
    let stopped = render(
        &meta_carrying(&["rebase", "main"], None),
        &analysis(),
        &Outcome::Stopped { conflicts: true },
        &vec![],
    );
    assert!(stopped.contains("not put back"), "{stopped}");
    // And the ordinary stopped-command wording is back, because this time
    // it is the command that stopped.
    assert!(
        stopped.contains("the command stopped part-way"),
        "{stopped}"
    );

    let blocked = render(
        &meta_carrying(
            &["--", "checkout", "-p"],
            Some(Carried::Refused {
                reason: "error: your local changes would be overwritten".to_owned(),
            }),
        ),
        &analysis(),
        &Outcome::Stopped { conflicts: false },
        &vec![],
    );
    assert!(blocked.contains("could not be put back"), "{blocked}");
    assert!(blocked.contains("would be overwritten"), "{blocked}");
}

#[test]
fn a_rehearsal_that_carried_nothing_has_no_carried_section_at_all() {
    let report = render(
        &meta(&["rebase", "main"]),
        &analysis(),
        &Outcome::Clean,
        &vec![],
    );
    assert!(!report.contains("carried"), "{report}");
}

#[test]
fn a_stopped_command_names_the_commit_and_counts_the_hunks() {
    let mut analysis = analysis();
    analysis.stopped_at = Some(Commit {
        sha: "eeeeeeeeeeee3333".to_owned(),
        subject: "teach the parser about tabs".to_owned(),
    });
    analysis.conflicts = vec![
        Conflict {
            path: "src/parse.rs".to_owned(),
            hunks: 2,
        },
        Conflict {
            path: "logo.png".to_owned(),
            hunks: 0,
        },
    ];
    let report = render(
        &meta(&["rebase", "main"]),
        &analysis,
        &Outcome::Stopped { conflicts: true },
        &vec![],
    );

    assert!(
        report.contains("stopped part-way on a conflict"),
        "{report}"
    );
    assert!(
        report.contains("stopped at eeeeeeee \"teach the parser about tabs\""),
        "{report}"
    );
    assert!(report.contains("src/parse.rs  2 hunks"), "{report}");
    assert!(
        report.contains("logo.png  no text hunks (binary, or add/add)"),
        "one hunk and none are different problems: {report}"
    );
}

#[test]
fn a_stop_without_conflicts_is_not_called_a_conflict() {
    let report = render(
        &meta(&["rebase", "-i", "main"]),
        &analysis(),
        &Outcome::Stopped { conflicts: false },
        &vec![],
    );
    assert!(report.contains("edit or break"), "{report}");
    assert!(!report.contains("on a conflict"), "{report}");
}

#[test]
fn a_refused_command_reports_gits_exit_code() {
    let report = render(
        &meta(&["merge", "nope"]),
        &analysis(),
        &Outcome::Failed { code: Some(128) },
        &vec![],
    );
    assert!(
        report.contains("git refused the command (exit 128)"),
        "{report}"
    );
}

#[test]
fn graphs_are_shown_before_then_after_and_indented_under_their_ref() {
    let graphs = vec![Graph {
        reference: "refs/heads/feature".to_owned(),
        before: "* aaaaaaa old tip".to_owned(),
        after: "* bbbbbbb new tip".to_owned(),
    }];
    let report = render(
        &meta(&["rebase", "main"]),
        &analysis(),
        &Outcome::Clean,
        &graphs,
    );
    assert!(report.contains("graph  refs/heads/feature"), "{report}");
    assert!(
        report.contains("  before\n    * aaaaaaa old tip"),
        "{report}"
    );
    assert!(
        report.contains("  after\n    * bbbbbbb new tip"),
        "{report}"
    );
}

#[test]
fn stat_only_asks_for_no_graphs_and_full_asks_for_them() {
    assert!(Detail::Full.wants_graphs());
    assert!(!Detail::StatOnly.wants_graphs());
    // The default is the whole report: a flag adds terseness, its absence
    // never removes anything.
    assert_eq!(Detail::default(), Detail::Full);
}

#[test]
fn stat_only_spawns_nothing_rather_than_spawning_and_discarding() {
    // The path is not a repository and does not exist, so any `git log`
    // against it fails. Coming back Ok is therefore proof that no process
    // ran at all — which is the point of the flag. A test that only
    // compared the two outputs would pass just as happily on an
    // implementation that drew the graphs and then threw them away.
    let nowhere = "/git-rehearse/no/such/worktree";

    let skipped = over(Vec::new(), |session| {
        graphs(session, nowhere, &analysis(), Detail::StatOnly)
    })
    .expect("nothing is spawned");
    assert!(skipped.is_empty());

    let refused = || Ended {
        code: Some(128),
        stdout: Vec::new(),
        stderr: b"fatal: cannot change to '/git-rehearse/no/such/worktree'".to_vec(),
    };
    over(vec![Reply::Ended(refused()), Reply::Ended(refused())], |session| {
        graphs(session, nowhere, &analysis(), Detail::Full)
    })
    .expect_err("the full report really does have to read the repository");
}

#[test]
fn a_report_without_graphs_still_says_everything_that_happened() {
    // What `--stat-only` costs, stated as a test: the graph section, and
    // nothing else. The drift line in particular survives — it is a result
    // of the analysis, which the flag never touches.
    let mut analysis = analysis();
    analysis.drift = vec![drift(Replay {
        changed: vec!["teach the parser about tabs".to_owned()],
        compared: true,
        ..Replay::default()
    })];
    let report = render(&meta(&["rebase", "main"]), &analysis, &Outcome::Clean, &vec![]);

    assert!(!report.contains("graph  "), "{report}");
    assert!(
        report.contains("refs/heads/feature  aaaaaaaa -> bbbbbbbb"),
        "{report}"
    );
    assert!(report.contains("warning: content drift"), "{report}");
}

#[test]
fn applying_is_only_offered_for_a_clean_rehearsal_that_moved_something() {
    assert!(can_apply(&analysis(), &Outcome::Clean));
    assert!(
        !can_apply(&analysis(), &Outcome::Stopped { conflicts: true }),
        "a sandbox mid-rebase holds no result to transplant"
    );
    assert!(!can_apply(&analysis(), &Outcome::Failed { code: Some(1) }));

    let mut unmoved = analysis();
    unmoved.ref_moves.clear();
    assert!(!can_apply(&unmoved, &Outcome::Clean), "nothing to apply");
}

#[test]
fn without_a_terminal_nothing_is_ever_applied() {
    for outcome in [
        Outcome::Clean,
        Outcome::Stopped { conflicts: true },
        Outcome::Failed { code: Some(1) },
    ] {
        assert_ne!(
            non_interactive(&outcome),
            Choice::Apply,
            "nothing reaches a real repository unasked: {outcome:?}"
        );
    }
}

#[test]
fn without_a_terminal_a_stopped_rehearsal_is_kept_and_the_others_discarded() {
    // The report has just printed a sandbox path and a `continue` command.
    // Discarding here would delete both between printing and reading them.
    assert_eq!(
        non_interactive(&Outcome::Stopped { conflicts: true }),
        Choice::Keep
    );
    assert_eq!(
        non_interactive(&Outcome::Stopped { conflicts: false }),
        Choice::Keep,
        "an interactive `break` stops without conflicts and is just as resumable"
    );
    // Nothing to come back for: reproducible by re-running, or never started.
    assert_eq!(non_interactive(&Outcome::Clean), Choice::Discard);
    assert_eq!(
        non_interactive(&Outcome::Failed { code: Some(1) }),
        Choice::Discard
    );
}

#[test]
fn answers_are_taken_short_or_spelled_out_in_any_case() {
    assert_eq!(parse("a", true), Some(Choice::Apply));
    assert_eq!(parse("Apply", true), Some(Choice::Apply));
    assert_eq!(parse("K", true), Some(Choice::Keep));
    assert_eq!(parse("discard", false), Some(Choice::Discard));
    assert_eq!(parse("", true), None, "Enter must not decide anything");
    assert_eq!(
        parse("a", false),
        None,
        "apply cannot be chosen when it is not offered"
    );
}

#[test]
fn the_prompt_repeats_until_it_gets_an_answer_it_understands() {
    let lines = vec![
        Reply::Done,
        Reply::Text("\n".to_owned()),
        Reply::Done,
        Reply::Done,
        Reply::Text("yes\n".to_owned()),
        Reply::Done,
        Reply::Done,
        Reply::Text("k\n".to_owned()),
    ];
    let shown = printed(&lines, |session| ask(session, true));
    let choice = over(lines, |session| ask(session, true)).expect("the streams work");

    assert_eq!(choice, Choice::Keep);
    assert_eq!(
        shown.matches("[a]pply / [d]iscard / [k]eep?").count(),
        3,
        "asked once, then again after each answer it could not read: {shown}"
    );
}

#[test]
fn end_of_input_discards_rather_than_looping_forever() {
    let replies = vec![Reply::Done, Reply::Text(String::new()), Reply::Done];

    let choice = over(replies, |session| ask(session, true)).expect("the streams work");

    assert_eq!(choice, Choice::Discard);
}

#[test]
fn ids_are_abbreviated_but_short_ones_survive_intact() {
    assert_eq!(short("aaaaaaaaaaaabbbb"), "aaaaaaaa");
    assert_eq!(short("abc"), "abc");
}
