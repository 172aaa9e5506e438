use git_rehearse::analyze::RefMove;
use git_rehearse::apply::{branch_to_reset, check_unchanged};
use git_rehearse::refs::RefMap;
use git_rehearse::sandbox::Checkout;

fn state(entries: &[(&str, &str)]) -> RefMap {
    let mut map = RefMap::new();
    for (name, sha) in entries {
        map.insert((*name).to_owned(), (*sha).to_owned());
    }
    map
}

fn moved(name: &str) -> RefMove {
    RefMove {
        name: name.to_owned(),
        before: Some("aaa".to_owned()),
        after: Some("bbb".to_owned()),
    }
}

#[test]
fn an_unchanged_repository_passes() {
    let pre = state(&[("refs/heads/main", "aaa"), ("HEAD", "aaa")]);
    assert!(check_unchanged(&pre, &pre, "id").is_ok());
}

#[test]
fn a_ref_that_moved_is_named_with_both_commits() {
    let pre = state(&[("refs/heads/main", "aaa")]);
    let now = state(&[("refs/heads/main", "ccc")]);

    let error = check_unchanged(&pre, &now, "1786248000-00").expect_err("refused");

    let message = error.to_string();
    assert!(
        message.contains("refs/heads/main is now ccc, was aaa"),
        "{message}"
    );
    assert!(message.contains("Rehearse again"), "{message}");
}

#[test]
fn a_ref_that_disappeared_is_also_a_change() {
    let pre = state(&[("refs/heads/gone", "aaa")]);
    let now = state(&[]);

    let error = check_unchanged(&pre, &now, "id").expect_err("refused");

    assert!(error.to_string().contains("is gone"), "{error:?}");
}

#[test]
fn a_new_branch_appearing_is_not_by_itself_a_reason_to_refuse() {
    // It is not in the pre-state, so nothing about it can be clobbered by
    // a ref this rehearsal moves — and the transaction refuses anyway if
    // the rehearsal happens to create the same name.
    let pre = state(&[("refs/heads/main", "aaa")]);
    let now = state(&[("refs/heads/main", "aaa"), ("refs/heads/new", "ddd")]);
    assert!(check_unchanged(&pre, &now, "id").is_ok());
}

#[test]
fn the_worktree_is_reset_only_when_the_checked_out_branch_is_rewritten() {
    assert_eq!(
        branch_to_reset(
            &Checkout::Branch("feature".to_owned()),
            &vec![moved("refs/heads/feature")]
        ),
        Some("feature".to_owned())
    );
    assert_eq!(
        branch_to_reset(
            &Checkout::Branch("feature".to_owned()),
            &vec![moved("refs/heads/other")]
        ),
        None,
        "another branch moving leaves this worktree alone"
    );
    assert_eq!(
        branch_to_reset(
            &Checkout::Detached("aaa".to_owned()),
            &vec![moved("refs/heads/feature")]
        ),
        None,
        "a detached HEAD keeps pointing at a commit that is still valid"
    );
}
