use git_rehearse::error::Error;

#[test]
fn io_errors_name_the_path_they_happened_to() {
    let err = Error::io("/nowhere/meta.json", "no such file");
    assert!(err.to_string().contains("/nowhere/meta.json"));
    assert!(err.to_string().contains("no such file"));
}

#[test]
fn git_failures_quote_git_rather_than_paraphrase_it() {
    let err = Error::Git {
        args: "checkout --detach deadbeef".to_owned(),
        code: Some(128),
        stderr: "fatal: reference is not a tree: deadbeef".to_owned(),
    };
    let message = err.to_string();
    assert!(message.contains("exit 128"), "{message}");
    assert!(message.contains("reference is not a tree"), "{message}");
}

#[test]
fn signal_deaths_are_not_reported_as_exit_zero() {
    let err = Error::Git {
        args: "clone".to_owned(),
        code: None,
        stderr: String::new(),
    };
    assert!(err.to_string().contains("killed by signal"));
}
