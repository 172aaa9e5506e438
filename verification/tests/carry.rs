use git_rehearse::carry::{
    describe, first_line, paths_of, result_of, result_refspec, Carry, Replay,
};
use git_rehearse::execute::Outcome;

fn paths(names: &[&str]) -> Vec<String> {
    names.iter().map(|name| (*name).to_owned()).collect()
}

fn carry(replay: Option<Replay>) -> Carry {
    Carry {
        snapshot: "aaaa1111".to_owned(),
        paths: paths(&["src/main.rs"]),
        replay,
    }
}

#[test]
fn status_output_becomes_the_paths_that_were_carried() {
    assert_eq!(
        paths_of(" M src/main.rs\nM  Cargo.toml\nD  gone.rs"),
        paths(&["src/main.rs", "Cargo.toml", "gone.rs"])
    );
    assert!(paths_of("").is_empty());
}

#[test]
fn a_long_list_of_paths_is_summarised_rather_than_dumped() {
    let many: Vec<String> = (0..12).map(|n| format!("file{n}.rs")).collect();
    let summary = describe(&many);
    assert!(
        summary.starts_with("file0.rs, file1.rs, file2.rs"),
        "{summary}"
    );
    assert!(summary.ends_with("and 9 more"), "{summary}");
    assert!(!summary.contains("file11.rs"), "{summary}");
}

#[test]
fn a_short_list_is_named_in_full_without_a_count() {
    assert_eq!(describe(&paths(&["a.rs", "b.rs"])), "a.rs, b.rs");
}

#[test]
fn a_replay_that_conflicts_makes_the_whole_rehearsal_a_stopped_one() {
    // The decision this module exists to record: a conflicting replay is
    // the state `continue` already knows how to work with, not a new one.
    assert_eq!(
        Replay::Conflicted {
            paths: paths(&["notes.txt"])
        }
        .outcome(),
        Outcome::Stopped { conflicts: true }
    );
    assert_eq!(
        Replay::Refused {
            reason: "dirty".to_owned()
        }
        .outcome(),
        Outcome::Stopped { conflicts: false },
        "nothing is unmerged, so calling it a conflict would be a lie"
    );
    assert_eq!(
        Replay::Restored {
            result: Some("bbbb".to_owned())
        }
        .outcome(),
        Outcome::Clean
    );
}

#[test]
fn only_an_unfinished_replay_is_something_continue_takes_over() {
    assert!(Replay::Conflicted { paths: Vec::new() }.is_unfinished());
    assert!(
        Replay::Refused {
            reason: String::new()
        }
        .is_unfinished()
    );
    assert!(!Replay::Restored { result: None }.is_unfinished());
}

#[test]
fn only_a_restored_replay_offers_apply_something_to_check_out() {
    assert_eq!(
        result_of(&carry(Some(Replay::Restored {
            result: Some("cccc".to_owned())
        }))),
        Some("cccc")
    );
    // Nothing came back because the rehearsed history already contains it:
    // the worktree after the reset is already right.
    assert_eq!(
        result_of(&carry(Some(Replay::Restored { result: None }))),
        None
    );
    assert_eq!(
        result_of(&carry(Some(Replay::Conflicted { paths: Vec::new() }))),
        None
    );
    assert_eq!(result_of(&carry(None)), None);
}

#[test]
fn the_result_lands_beside_the_rehearsals_namespace_not_inside_it() {
    // Inside it, a branch called `carry` would make the fetch fail with a
    // directory/file conflict on a perfectly legal branch name.
    assert_eq!(
        result_refspec("1786248000-00"),
        "+refs/rehearse/replayed:refs/rehearse/1786248000-00-carry"
    );
}

#[test]
fn gits_first_words_are_the_ones_repeated_back() {
    assert_eq!(
        first_line("\nerror: your local changes would be overwritten\nhint: stash them\n"),
        "error: your local changes would be overwritten"
    );
    assert_eq!(first_line("   "), "git said nothing");
}
