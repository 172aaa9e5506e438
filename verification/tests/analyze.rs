use git_rehearse::analyze::{
    count_hunks, parse_range_diff, preserves_content, ref_moves, RefMove, Replay,
};
use git_rehearse::refs::RefMap;

fn state(entries: &[(&str, &str)]) -> RefMap {
    let mut map = RefMap::new();
    for (name, sha) in entries {
        map.insert((*name).to_owned(), (*sha).to_owned());
    }
    map
}

fn command(args: &[&str]) -> Vec<String> {
    args.iter().map(|arg| (*arg).to_owned()).collect()
}

#[test]
fn only_refs_that_actually_moved_are_reported() {
    let moves = ref_moves(
        &state(&[("refs/heads/main", "aaa"), ("refs/heads/feature", "bbb")]),
        &state(&[("refs/heads/main", "aaa"), ("refs/heads/feature", "ccc")]),
    );
    assert_eq!(
        moves,
        vec![RefMove {
            name: "refs/heads/feature".to_owned(),
            before: Some("bbb".to_owned()),
            after: Some("ccc".to_owned()),
        }]
    );
}

#[test]
fn created_and_deleted_branches_are_moves_too() {
    let moves = ref_moves(
        &state(&[("refs/heads/gone", "aaa")]),
        &state(&[("refs/heads/new", "bbb")]),
    );
    assert_eq!(moves.len(), 2);
    assert_eq!(moves[0].name, "refs/heads/gone");
    assert_eq!(moves[0].after, None, "deleted");
    assert_eq!(moves[1].name, "refs/heads/new");
    assert_eq!(moves[1].before, None, "created");
}

#[test]
fn conflict_hunks_are_counted_from_the_start_markers() {
    let conflicted = b"one\n<<<<<<< HEAD\nours\n=======\ntheirs\n>>>>>>> other\ntwo\n\
                       <<<<<<< HEAD\nours\n=======\ntheirs\n>>>>>>> other\n";
    assert_eq!(count_hunks(&conflicted.to_vec()), 2);
    assert_eq!(count_hunks(&b"nothing here\n".to_vec()), 0);
}

#[test]
fn a_line_that_merely_starts_with_angle_brackets_is_not_a_conflict() {
    // Documentation and diff output are full of these.
    assert_eq!(count_hunks(&b"<<<<<<<<<<<<<< a ruler\n".to_vec()), 0);
    assert_eq!(
        count_hunks(&b"<<<<<<<\n".to_vec()),
        0,
        "the marker includes its space"
    );
}

#[test]
fn invalid_utf8_does_not_hide_a_conflict() {
    let mut conflicted = b"<<<<<<< HEAD\n".to_vec();
    conflicted.push(0xff);
    conflicted.push(b'\n');
    assert_eq!(count_hunks(&conflicted), 1);
}

#[test]
fn a_range_diff_of_unchanged_commits_says_nothing_happened() {
    let replay = parse_range_diff(
        "1:  a1b2c3d = 1:  d4e5f6a teach the parser about tabs\n\
         2:  b2c3d4e = 2:  e5f6a7b fix the off-by-one\n",
    );
    assert!(replay.compared);
    assert!(!replay.is_suspicious(), "{replay:?}");
}

#[test]
fn commits_picked_up_from_a_new_base_are_counted_not_flagged() {
    let replay = parse_range_diff(
        "-:  ------- > 1:  d4e5f6a main moves on\n\
         1:  a1b2c3d = 2:  e5f6a7b teach the parser about tabs\n",
    );
    assert_eq!(replay.added, vec!["main moves on".to_owned()]);
    assert!(
        !replay.is_suspicious(),
        "the most ordinary rebase there is: {replay:?}"
    );
}

#[test]
fn a_commit_git_reports_as_changed_is_changed() {
    let replay =
        parse_range_diff("1:  a1b2c3d ! 1:  d4e5f6a teach the parser about tabs\n");
    assert_eq!(
        replay.changed,
        vec!["teach the parser about tabs".to_owned()]
    );
    assert!(replay.is_suspicious());
}

#[test]
fn a_commit_rewritten_beyond_recognition_is_changed_not_gone() {
    // What range-diff actually prints when a conflict was resolved
    // differently enough: it gives up pairing and reports a deletion and
    // an addition. The commit is not gone; it stopped doing what it did.
    let replay = parse_range_diff(
        "1:  a1b2c3d < -:  ------- teach the parser about tabs\n\
         -:  ------- > 1:  d4e5f6a main moves on\n\
         -:  ------- > 2:  e5f6a7b teach the parser about tabs\n",
    );
    assert_eq!(
        replay.changed,
        vec!["teach the parser about tabs".to_owned()]
    );
    assert!(replay.dropped.is_empty(), "{replay:?}");
    assert_eq!(replay.added, vec!["main moves on".to_owned()]);
}

#[test]
fn a_commit_that_really_is_gone_stays_gone() {
    let replay = parse_range_diff(
        "1:  a1b2c3d = 1:  d4e5f6a teach the parser about tabs\n\
         2:  b2c3d4e < -:  ------- fix the off-by-one\n",
    );
    assert_eq!(replay.dropped, vec!["fix the off-by-one".to_owned()]);
    assert!(replay.changed.is_empty(), "{replay:?}");
    assert!(replay.is_suspicious());
}

/// Verbatim `git range-diff --no-color --no-patch` output, git 2.50.1, for
/// a feature branch of two commits rebased onto a base that gained one.
///
/// Recorded from a real repository rather than written by hand: this is
/// the format the parser bets on, so the fixture has to be evidence of
/// what git prints and not a restatement of what we assumed it prints.
const REAL_REBASE: &str = "\
-:  ------- > 1:  b1a6479 main moves on
1:  cbd2376 = 2:  0bb1e77 teach the parser about tabs
2:  768e487 = 3:  67ca312 fix the off-by-one
";

/// Verbatim output, same git, for a branch whose first commit was dropped.
/// That commit was created with `--allow-empty-message`, so its pairing
/// line ends after the fifth field.
const REAL_DROPPED_EMPTY_MESSAGE: &str = "\
1:  d9e4f6e < -:  -------
2:  1add7b2 = 1:  537a8ec keeper
";

#[test]
fn the_recorded_shape_of_a_real_rebase_still_parses() {
    // If a git upgrade changes this format, this fails here rather than
    // silently downgrading the drift warning to "nothing to report".
    let replay = parse_range_diff(REAL_REBASE);
    assert!(replay.compared, "{replay:?}");
    assert_eq!(replay.added, vec!["main moves on".to_owned()]);
    assert!(!replay.is_suspicious(), "{replay:?}");
}

#[test]
fn a_dropped_commit_with_no_message_is_still_dropped() {
    // The line is `1:  d9e4f6e < -:  -------` — five fields and no
    // subject, because the commit has no message. Counting fields read
    // that as "not a pairing line" and skipped it, so a rebase that ate a
    // commit reported no drift at all.
    let replay = parse_range_diff(REAL_DROPPED_EMPTY_MESSAGE);
    assert_eq!(replay.dropped, vec![String::new()], "{replay:?}");
    assert!(
        replay.is_suspicious(),
        "a commit vanished; silence here is the failure this tool exists to prevent"
    );
}

#[test]
fn a_listing_in_an_unfamiliar_format_is_not_read_as_a_clean_one() {
    // Whatever a future git might print, it is not this parser's grammar,
    // and guessing at it would be worse than admitting we cannot tell.
    for listing in [
        "commit a1b2c3d was rewritten as d4e5f6a\n",
        "1:  a1b2c3d ~ 1:  d4e5f6a an operator we do not know\n",
        "1:  a1b2c3d = 1:  not-a-sha subject\n",
        "one:  a1b2c3d = 1:  d4e5f6a subject\n",
        "1:  a1b2c3d =\n",
    ] {
        let replay = parse_range_diff(listing);
        assert!(
            !replay.compared,
            "parsed {listing:?} as if it understood it"
        );
        assert!(replay.is_suspicious());
    }
}

#[test]
fn one_unreadable_line_discredits_the_whole_listing() {
    // Not "skip that line and report the rest": a listing we can only
    // partly read is one whose unread part may hold the drift.
    let replay = parse_range_diff(
        "1:  a1b2c3d = 1:  d4e5f6a teach the parser about tabs\n\
         something else entirely\n",
    );
    assert!(!replay.compared, "{replay:?}");
}

#[test]
fn a_subject_keeps_the_whitespace_inside_it() {
    // Subjects are matched against each other by reconcile_by_subject, so
    // normalising one side's spacing would stop a rewritten commit pairing
    // with itself.
    let replay = parse_range_diff("1:  a1b2c3d ! 1:  d4e5f6a two  spaces\tand a tab\n");
    assert_eq!(replay.changed, vec!["two  spaces\tand a tab".to_owned()]);
}

#[test]
fn a_comparison_git_could_not_make_is_suspicious_by_default() {
    assert!(
        Replay::default().is_suspicious(),
        "an unknown rewrite must not pass for a safe one"
    );
}

#[test]
fn only_replay_commands_are_expected_to_preserve_content() {
    assert!(preserves_content(&command(&["rebase", "-i", "main"])));
    assert!(preserves_content(&command(&["cherry-pick", "abc123"])));
    assert!(
        !preserves_content(&command(&["merge", "feature"])),
        "a merge changing content is the point of a merge"
    );
    assert!(!preserves_content(&command(&[])));
}
