use git_rehearse::git::arguments::command_boundary;
use git_rehearse::git::{describe, flag_with_path, run};
use git_rehearse::session::{Ended, Reply, Session, Stop};

/// Git that ended like this.
fn ended(code: i32, stdout: &str, stderr: &str) -> Vec<Reply> {
    vec![Reply::Ended(Ended {
        code: Some(code),
        stdout: stdout.as_bytes().to_vec(),
        stderr: stderr.as_bytes().to_vec(),
    })]
}

fn words(words: &[&str]) -> Vec<String> {
    words.iter().map(|word| (*word).to_owned()).collect()
}

#[test]
fn a_failing_git_command_reports_gits_own_words() {
    let replies = ended(
        1,
        "",
        "fatal: unable to read config file '/nonexistent/gitconfig': No such file or directory\n",
    );
    let mut session = Session::new(&replies);
    let outcome = run(
        &mut session,
        "/repo",
        words(&["config", "--file", "/nonexistent/gitconfig", "--get", "a.b"]),
    );
    let Err(Stop::Fail(error)) = outcome else {
        panic!("git must reject an unreadable config file");
    };
    let message = error.to_string();
    assert!(message.contains("config"), "{message}");
    assert!(
        message.contains("/nonexistent/gitconfig"),
        "git's stderr must survive into the error: {message}"
    );
}

#[test]
fn stdout_comes_back_without_its_trailing_newline() {
    let replies = ended(0, "git version 2.50.1\n", "");
    let mut session = Session::new(&replies);
    let version = run(&mut session, "/repo", words(&["--version"])).expect("git --version");
    assert!(version.starts_with("git version"), "{version}");
    assert!(!version.ends_with('\n'));
}

#[test]
fn arguments_render_readably_for_error_messages() {
    let args = words(&["checkout", "--detach", "deadbeef"]);
    assert_eq!(describe(&args), "checkout --detach deadbeef");
}

#[test]
fn path_flags_keep_the_path_intact() {
    let arg = flag_with_path("--template=", "/tmp/no hooks");
    assert_eq!(arg, "--template=/tmp/no hooks");
}

#[test]
fn configuration_is_inserted_after_global_options_before_the_command() {
    for (args, expected) in [
        (vec!["merge", "--no-edit", "feature"], 0),
        (vec!["-c", "core.hooksPath=hooks", "commit"], 2),
        (vec!["-C", "a path", "-c", "a.b=c", "commit"], 4),
        (vec!["--config-env=core.hooksPath=HOOKS", "commit"], 1),
        (vec!["-cfoo.bar=baz", "--no-pager", "log"], 2),
        (
            vec!["--git-dir", "repo.git", "--work-tree=repo", "status"],
            3,
        ),
        (vec!["--version"], 0),
        (vec!["-h"], 0),
        (vec!["--"], 0),
        (vec!["-c"], 1),
        (vec![], 0),
    ] {
        let args = words(&args);
        assert_eq!(command_boundary(&args), expected, "{args:?}");
    }
}
