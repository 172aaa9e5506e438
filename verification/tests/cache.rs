use git_rehearse::cache::{fnv1a64, repo_id, root_from};

const ABSOLUTE: &str = "/home/u/.cache";

#[test]
fn the_override_wins_and_is_used_verbatim() {
    let root = root_from(
        Some(String::from("/tmp/rehearsals")),
        Some(String::from("/home/u/.cache")),
        Some(String::from("/home/u/.cache")),
    )
    .expect("override is usable");
    assert_eq!(root, String::from("/tmp/rehearsals"));
}

#[test]
fn xdg_cache_home_gets_our_own_subdirectory() {
    let root =
        root_from(None, Some(String::from(ABSOLUTE)), None).expect("XDG_CACHE_HOME is usable");
    assert_eq!(root, format!("{ABSOLUTE}/git-rehearse"));
}

#[test]
fn a_relative_xdg_cache_home_is_ignored_per_spec() {
    let root = root_from(
        None,
        Some(String::from("relative/cache")),
        Some(String::from("/home/u/Library/Caches")),
    )
    .expect("falls back to the platform default");
    assert_eq!(root, String::from("/home/u/Library/Caches/git-rehearse"));
}

#[test]
fn an_empty_override_is_not_a_directory_name() {
    let root = root_from(Some(String::from("")), Some(String::from(ABSOLUTE)), None)
        .expect("empty override falls through");
    assert_eq!(root, format!("{ABSOLUTE}/git-rehearse"));
}

#[test]
fn no_environment_at_all_is_an_error_not_a_guess() {
    assert!(root_from(None, None, None).is_err());
}

#[test]
fn repo_ids_are_stable_readable_and_path_specific() {
    let a = repo_id("/Users/x/dev/git-city");
    let b = repo_id("/Users/x/other/git-city");
    assert_eq!(a, repo_id("/Users/x/dev/git-city"), "stable");
    assert_ne!(a, b, "same name, different checkout, different cache dir");
    assert!(a.starts_with("git-city-"), "{a}");
    assert!(
        a.chars().all(|c| c.is_ascii_alphanumeric() || c == '-'),
        "{a} must be safe as a directory name"
    );
}

#[test]
fn awkward_directory_names_still_produce_usable_ids() {
    let dotted = repo_id("/Users/x/.dotfiles");
    assert!(dotted.starts_with("dotfiles-"), "{dotted}");
    let spaced = repo_id("/Users/x/My Repo!");
    assert!(spaced.starts_with("my-repo-"), "{spaced}");
    let root_dir = repo_id("/");
    assert!(root_dir.starts_with("repo-"), "{root_dir}");
}

#[test]
fn fnv1a_matches_the_published_vectors() {
    // From the FNV reference: these two are the standard 64-bit checks.
    assert_eq!(fnv1a64(&b"".to_vec()), 0xcbf2_9ce4_8422_2325);
    assert_eq!(fnv1a64(&b"a".to_vec()), 0xaf63_dc4c_8601_ec8c);
}
