use git_rehearse::analyze::RefMove;
use git_rehearse::refs::RefMap;
use git_rehearse::undo::{
    check_is_the_one_meant, check_still_applied, parse, render, restore_commands, worktree_action,
    Record, Worktree, ABSENT, RECORD_SCHEMA,
};

fn moved(name: &str, before: Option<&str>, after: Option<&str>) -> RefMove {
    RefMove {
        name: name.to_owned(),
        before: before.map(str::to_owned),
        after: after.map(str::to_owned),
    }
}

fn record() -> Record {
    Record {
        rehearsal: "1786248000-00".to_owned(),
        applied_at_unix: 1_786_248_000,
        refs: vec![
            moved("refs/heads/main", Some("aaa"), Some("bbb")),
            moved("refs/heads/spike", None, Some("ccc")),
            moved("refs/heads/gone", Some("ddd"), None),
        ],
    }
}

fn path() -> &'static str {
    "/repo/.git/rehearse-undo"
}

fn state(entries: &[(&str, &str)]) -> RefMap {
    let mut map = RefMap::new();
    for (name, sha) in entries {
        map.insert((*name).to_owned(), (*sha).to_owned());
    }
    map
}

#[test]
fn a_record_survives_a_round_trip_through_the_file() {
    assert_eq!(parse(&render(&record()), path()).expect("parses"), record());
}

#[test]
fn every_ref_line_is_a_usable_update_ref_invocation() {
    // The property the format exists for: the second field is where the ref
    // goes, the third is what git must find there first. Both spellings of
    // "absent" are git's own, so a line stays a working command even when
    // one side of the move is a branch that does not exist.
    let text = render(&record());
    assert!(text.contains("\nrefs/heads/main aaa bbb\n"), "{text}");
    assert!(
        text.contains(&format!("\nrefs/heads/spike {ABSENT} ccc\n")),
        "{text}"
    );
    assert!(
        text.contains(&format!("\nrefs/heads/gone ddd {ABSENT}\n")),
        "{text}"
    );
}

#[test]
fn the_record_says_which_version_which_rehearsal_and_when() {
    let text = render(&record());
    assert!(text.contains(&format!("version {RECORD_SCHEMA}")), "{text}");
    assert!(text.contains("rehearsal 1786248000-00"), "{text}");
    assert!(text.contains("applied-at 1786248000"), "{text}");
    // And a human is told what they are looking at before any of it.
    assert!(text.starts_with("# git-rehearse undo record"), "{text}");
}

#[test]
fn a_record_from_another_version_is_refused_rather_than_half_read() {
    let text = render(&record()).replace("version 1", "version 2");
    let error = parse(&text, path()).expect_err("refused");
    let message = error.to_string();
    assert!(message.contains("record version 2"), "{message}");
    assert!(message.contains("upgrade git-rehearse"), "{message}");
    assert!(message.contains("rehearse-undo"), "{message}");
}

#[test]
fn an_unreadable_record_names_the_line_it_choked_on() {
    let text = format!("{}refs/heads/half aaa\n", render(&record()));
    let error = parse(&text, path()).expect_err("refused");
    let message = error.to_string();
    assert!(message.contains("refs/heads/half aaa"), "{message}");
    assert!(
        message.contains("Nothing has been changed"),
        "a refusal has to say the repository is untouched: {message}"
    );
}

#[test]
fn a_record_without_a_version_is_not_read_at_all() {
    // Lines of `<sha> <name>` and a comment block: there is no version line,
    // so it must not be mistaken for a record with its fields in another order.
    let error = parse("# git-rehearse undo record\naaa refs/heads/main\n", path())
        .expect_err("refused");
    assert!(error.to_string().contains("no `version` line"), "{error:?}");
}

#[test]
fn the_transaction_reverses_every_kind_of_move() {
    let commands = restore_commands(&record().refs);
    assert!(
        commands.contains("update refs/heads/main\0aaa\0bbb\0"),
        "a move goes back, stating what the apply left: {commands:?}"
    );
    assert!(
        commands.contains("delete refs/heads/spike\0ccc\0"),
        "a branch the apply created is removed: {commands:?}"
    );
    assert!(
        commands.contains("create refs/heads/gone\0ddd\0"),
        "a branch the apply deleted comes back: {commands:?}"
    );
}

#[test]
fn head_is_never_updated_directly() {
    // A record does not contain it, and if a hand-edited one does, acting
    // on it would detach HEAD rather than restore anything.
    assert!(
        !Record::of_apply(
            "id".to_owned(),
            0,
            &vec![
                moved("HEAD", Some("aaa"), Some("bbb")),
                moved("refs/heads/main", Some("aaa"), Some("bbb")),
            ],
        )
        .refs
        .iter()
        .any(|reference| reference.name == "HEAD")
    );
    let commands = restore_commands(&vec![moved("HEAD", Some("aaa"), Some("bbb"))]);
    assert!(commands.is_empty(), "{commands:?}");
}

#[test]
fn a_repository_still_where_the_apply_left_it_passes() {
    let now = state(&[("refs/heads/main", "bbb"), ("refs/heads/spike", "ccc")]);
    assert!(check_still_applied(&record(), &now).is_ok());
}

#[test]
fn a_commit_since_the_apply_is_named_with_both_values() {
    let now = state(&[("refs/heads/main", "eee"), ("refs/heads/spike", "ccc")]);

    let error = check_still_applied(&record(), &now).expect_err("refused");

    let message = error.to_string();
    assert!(
        message.contains("refs/heads/main is now eee, the apply left it at bbb"),
        "{message}"
    );
    assert!(
        message.contains("throw away whatever happened"),
        "{message}"
    );
}

#[test]
fn a_ref_deleted_or_recreated_since_the_apply_is_also_a_change() {
    // The branch the apply moved has been deleted since.
    let gone = state(&[("refs/heads/spike", "ccc")]);
    let error = check_still_applied(&record(), &gone).expect_err("refused");
    assert!(error.to_string().contains("is gone"), "{error:?}");

    // And the branch the apply deleted has been recreated since.
    let back = state(&[
        ("refs/heads/main", "bbb"),
        ("refs/heads/spike", "ccc"),
        ("refs/heads/gone", "fff"),
    ]);
    let error = check_still_applied(&record(), &back).expect_err("refused");
    assert!(
        error.to_string().contains("refs/heads/gone is back at fff"),
        "{error:?}"
    );
}

#[test]
fn the_worktree_is_reset_only_when_the_checked_out_branch_is_rewound() {
    assert_eq!(
        worktree_action(&Some("main".to_owned()), &record().refs),
        Worktree::Reset("main".to_owned())
    );
    assert_eq!(
        worktree_action(&Some("other".to_owned()), &record().refs),
        Worktree::Untouched,
        "another branch going back leaves this worktree alone"
    );
    assert_eq!(
        worktree_action(&None, &record().refs),
        Worktree::Untouched,
        "a detached HEAD keeps pointing at a commit that is still valid"
    );
}

#[test]
fn undoing_into_a_branch_that_would_be_deleted_is_refused_not_reset() {
    // The apply created `spike` and the user has since checked it out.
    // There is no commit to reset to, and deleting the ref under HEAD would
    // leave an unborn branch over a full worktree.
    assert_eq!(
        worktree_action(&Some("spike".to_owned()), &record().refs),
        Worktree::Refuse("spike".to_owned())
    );
}

#[test]
fn undoing_a_different_apply_than_the_one_meant_is_refused() {
    let error = check_is_the_one_meant(&record(), Some("1786249999")).expect_err("refused");
    let message = error.to_string();
    assert!(
        message.contains("from the apply of rehearsal 1786248000-00"),
        "{message}"
    );
    assert!(
        message.contains("applying again overwrites it"),
        "the one-level-deep property has to be said out loud: {message}"
    );

    // A prefix of the recorded id is how every other command takes an id.
    assert!(check_is_the_one_meant(&record(), Some("17862480")).is_ok());
    assert!(check_is_the_one_meant(&record(), None).is_ok());
}
