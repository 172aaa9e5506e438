use git_rehearse::cli::{code_for, exit, parse, wants_json, Command, Decision};
use git_rehearse::error::Error;

fn args(args: &[&str]) -> Vec<String> {
    args.iter().map(|arg| (*arg).to_owned()).collect()
}

fn command_line(args: &[&str]) -> Vec<String> {
    args.iter().map(|arg| (*arg).to_owned()).collect()
}

#[test]
fn a_rehearsal_passes_every_git_argument_through_untouched() {
    assert_eq!(
        parse(&args(&["rebase", "-i", "--onto", "main", "HEAD~3"])).expect("parses"),
        Command::Rehearse {
            command: command_line(&["rebase", "-i", "--onto", "main", "HEAD~3"]),
            todo: None,
            decision: Decision::Ask,
        }
    );
}

#[test]
fn our_own_flags_after_the_command_belong_to_git() {
    // git will reject it, loudly and in git's own words, which is better
    // than us swallowing an argument the user meant for git.
    let Command::Rehearse {
        command, decision, ..
    } = parse(&args(&["rebase", "main", "--apply"])).expect("parses")
    else {
        panic!("expected a rehearsal");
    };
    assert_eq!(command, command_line(&["rebase", "main", "--apply"]));
    assert_eq!(decision, Decision::Ask, "--apply here was not ours");
}

#[test]
fn our_own_flags_before_the_command_are_ours() {
    let Command::Rehearse {
        command,
        decision,
        todo,
    } = parse(&args(&[
        "--apply",
        "--todo",
        "/tmp/todo",
        "rebase",
        "-i",
        "main",
    ]))
    .expect("parses")
    else {
        panic!("expected a rehearsal");
    };
    assert_eq!(command, command_line(&["rebase", "-i", "main"]));
    assert_eq!(decision, Decision::Apply);
    assert_eq!(todo, Some(String::from("/tmp/todo")));
}

#[test]
fn the_escape_hatch_takes_anything() {
    assert_eq!(
        parse(&args(&["--", "filter-branch", "--tree-filter", "rm -f x"])).expect("parses"),
        Command::Rehearse {
            command: command_line(&["filter-branch", "--tree-filter", "rm -f x"]),
            todo: None,
            decision: Decision::Ask,
        }
    );
}

#[test]
fn an_unknown_command_points_at_the_escape_hatch() {
    let error = parse(&args(&["status"])).expect_err("refused");
    let message = error.to_string();
    assert!(message.contains("git rehearse -- status"), "{message}");
}

#[test]
fn management_commands_take_an_optional_id() {
    assert_eq!(parse(&args(&["list"])).expect("parses"), Command::List);
    assert_eq!(
        parse(&args(&["show"])).expect("parses"),
        Command::Show { id: None }
    );
    assert_eq!(
        parse(&args(&["apply", "1786248000-00"])).expect("parses"),
        Command::Apply {
            id: Some("1786248000-00".to_owned())
        }
    );
    assert_eq!(
        parse(&args(&["discard", "--all"])).expect("parses"),
        Command::Discard {
            id: None,
            all: true
        }
    );
    assert_eq!(
        parse(&args(&["discard", "1786"])).expect("parses"),
        Command::Discard {
            id: Some("1786".to_owned()),
            all: false
        }
    );
}

#[test]
fn continue_takes_an_optional_id_and_honours_the_decision_flags() {
    assert_eq!(
        parse(&args(&["continue"])).expect("parses"),
        Command::Continue {
            id: None,
            decision: Decision::Ask
        }
    );
    // The flags have to reach `continue`: carrying a rehearsal on ends in
    // exactly the same apply/keep/discard question a rehearsal ends on, so
    // a scripted continue that ignored --keep would silently discard the
    // work it had just advanced.
    assert_eq!(
        parse(&args(&["--keep", "continue", "1786"])).expect("parses"),
        Command::Continue {
            id: Some("1786".to_owned()),
            decision: Decision::Keep
        }
    );
    assert_eq!(
        parse(&args(&["--apply", "continue"])).expect("parses"),
        Command::Continue {
            id: None,
            decision: Decision::Apply
        }
    );
}

#[test]
fn help_and_version_win_wherever_they_appear() {
    assert_eq!(parse(&args(&[])).expect("parses"), Command::Help);
    assert_eq!(parse(&args(&["--help"])).expect("parses"), Command::Help);
    assert_eq!(
        parse(&args(&["--apply", "--version"])).expect("parses"),
        Command::Version
    );
}

#[test]
fn a_todo_without_a_file_is_refused_rather_than_ignored() {
    let error = parse(&args(&["--todo"])).expect_err("refused").to_string();
    assert!(error.contains("--todo needs a file"), "{error}");
}

#[test]
fn an_empty_escape_hatch_is_refused() {
    let error = parse(&args(&["--"])).expect_err("refused").to_string();
    assert!(error.contains("needs a git command"), "{error}");
}

#[test]
fn git_can_still_invoke_us_as_its_sequence_editor() {
    assert_eq!(
        parse(&args(&[
            "__sequence-editor",
            "/tmp/todo",
            "/repo/.git/todo"
        ]))
        .expect("parses"),
        Command::SequenceEditor {
            todo: String::from("/tmp/todo"),
            target: String::from("/repo/.git/todo"),
        }
    );
}

#[test]
fn refusals_and_internal_errors_get_different_exit_codes() {
    // v2's agent mode reads these; they are API from here on.
    assert_eq!(code_for(&Ok(exit::STOPPED)), 2);
    assert_eq!(
        code_for(&Err(Error::Refused("dirty".to_owned()))),
        exit::REFUSED
    );
    assert_eq!(
        code_for(&Err(Error::NoCacheDir)),
        exit::INTERNAL,
        "a bug of ours is not a refusal"
    );
}

#[test]
fn options_in_front_are_ours_and_everything_behind_is_gits() {
    for (command, behind) in [
        (vec!["rebase"], vec!["-i", "main", "--keep", "--todo", "x", "--json"]),
        (vec!["--"], vec!["--apply", "--help", "rebase"]),
    ] {
        let mut line = vec!["--keep", "--todo", "first", "--json", "--todo", "--", "--apply"];
        line.extend(command.iter());
        line.extend(behind.iter());
        let Ok(Command::Rehearse { command: given, todo, decision }) = parse(&args(&line)) else {
            panic!("{line:?}");
        };
        let mut expected: Vec<&str> = if command[0] == "--" { vec![] } else { command.clone() };
        expected.extend(behind.iter());
        assert_eq!(given, args(&expected));
        assert_eq!(todo.as_deref(), Some("--"), "the last file, whatever it is called");
        assert_eq!(decision, Decision::Apply, "the last word");
        assert!(wants_json(&args(&line)));
        let quiet: Vec<&str> = command.iter().chain(behind.iter()).copied().collect();
        assert!(!wants_json(&args(&quiet)), "{quiet:?}");
    }
}
