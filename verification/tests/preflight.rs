use git_rehearse::preflight::dirty_message;

#[test]
fn a_dirty_worktree_is_told_what_is_dirty() {
    let message = dirty_message(" M src/main.rs\nM  Cargo.toml");
    assert!(message.contains("src/main.rs"), "{message}");
    assert!(message.contains("Cargo.toml"), "{message}");
    assert!(message.contains("commit or stash"), "{message}");
}

#[test]
fn a_very_dirty_worktree_is_summarised_not_dumped() {
    let status = (0..12)
        .map(|n| format!(" M file{n}.rs"))
        .collect::<Vec<_>>()
        .join("\n");
    let message = dirty_message(&status);
    assert!(
        message.contains("file0.rs, file1.rs, file2.rs"),
        "{message}"
    );
    assert!(message.contains("and 9 more"), "{message}");
    assert!(!message.contains("file11.rs"), "{message}");
}

#[test]
fn every_refusal_says_what_is_wrong_then_what_to_do() {
    // The two-line shape is the contract the CLI prints against, and the
    // reason these messages read as help rather than as an error dump.
    let message = dirty_message(" M src/main.rs");
    let (problem, remedy) = message.split_once('\n').expect("two lines");
    assert!(problem.ends_with('.'), "{problem}");
    assert!(!remedy.is_empty());
}
