use git_rehearse::execute::{sequence_editor, shell_quote, Operation, Todo};
use git_rehearse::session::{Kind, Reason, Reply, Session, Stop, Trouble};

/// Runs a procedure over these replies.
fn over<T>(
    replies: Vec<Reply>,
    procedure: impl Fn(&mut Session) -> Result<T, Stop>,
) -> Result<T, Stop> {
    let mut session = Session::new(&replies);
    procedure(&mut session)
}

/// What a failed procedure says.
fn refusal<T>(outcome: Result<T, Stop>) -> String {
    match outcome {
        Err(Stop::Fail(error)) => error.to_string(),
        _ => panic!("it did not fail"),
    }
}

fn command(args: &[&str]) -> Vec<String> {
    args.iter().map(|arg| (*arg).to_owned()).collect()
}

fn todo() -> Todo {
    // Cargo.toml is only standing in for "a file that exists".
    Todo {
        file: "Cargo.toml".to_owned(),
        editor: "/usr/local/bin/git-rehearse".to_owned(),
    }
}

#[test]
fn every_resumable_operation_knows_the_subcommand_that_carries_it_on() {
    assert_eq!(Operation::Rebase.subcommand(), Some("rebase".to_owned()));
    assert_eq!(Operation::CherryPick.subcommand(), Some("cherry-pick".to_owned()));
    assert_eq!(Operation::Revert.subcommand(), Some("revert".to_owned()));
    assert_eq!(Operation::Merge.subcommand(), Some("merge".to_owned()));
    assert_eq!(
        Operation::Bisect.subcommand(),
        None,
        "a bisect advances on an answer only the user has, so there is nothing to run"
    );
}

#[test]
fn paths_with_spaces_survive_the_shell() {
    assert_eq!(
        shell_quote("/Users/someone/My Tools/git-rehearse"),
        "'/Users/someone/My Tools/git-rehearse'"
    );
}

#[test]
fn a_quote_in_a_path_cannot_break_out_of_the_quoting() {
    let quoted = shell_quote("/tmp/it's here/git-rehearse");
    assert_eq!(quoted, r"'/tmp/it'\''s here/git-rehearse'");
}

#[test]
fn an_interactive_rebase_gets_the_editor_command() {
    let editor = over(vec![Reply::Kind(Kind::File)], |session| {
        sequence_editor(session, &todo(), &command(&["rebase", "-i", "main"]))
    })
    .expect("an interactive rebase accepts a todo");
    assert!(editor.contains("__sequence-editor"), "{editor}");
    assert!(editor.contains("git-rehearse"), "{editor}");
    assert!(editor.contains("Cargo.toml"), "{editor}");
}

#[test]
fn a_todo_for_something_that_is_not_a_rebase_is_refused() {
    let error = refusal(over(vec![Reply::Kind(Kind::File)], |session| {
        sequence_editor(session, &todo(), &command(&["merge", "feature"]))
    }));
    assert!(error.contains("only applies to `rebase`"), "{error}");
}

#[test]
fn a_todo_for_a_non_interactive_rebase_is_refused_not_quietly_added() {
    let error = refusal(over(vec![Reply::Kind(Kind::File)], |session| {
        sequence_editor(session, &todo(), &command(&["rebase", "main"]))
    }));
    assert!(error.contains("Add -i"), "{error}");
}

#[test]
fn a_missing_todo_file_is_refused_before_git_runs() {
    let missing = Todo {
        file: "no-such-todo-file".to_owned(),
        ..todo()
    };
    let gone = || {
        vec![Reply::Failed(Trouble {
            reason: Reason::Missing,
            message: "No such file or directory".to_owned(),
        })]
    };
    let error = refusal(over(gone(), |session| {
        sequence_editor(session, &missing, &command(&["rebase", "-i", "main"]))
    }));
    assert!(error.contains("no such todo file"), "{error}");
}
