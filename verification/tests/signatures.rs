use git_rehearse::signatures::has_signature;

#[test]
fn only_commit_headers_establish_presence() {
    assert!(has_signature(&b"tree abc\ngpgsig signature\n continuation\n\nmessage".to_vec()));
    assert!(has_signature(&b"tree abc\ngpgsig-sha256 signature\n\nmessage".to_vec()));
    assert!(!has_signature(&b"tree abc\n\ngpgsig message text".to_vec()));
    assert!(!has_signature(&b"tree abc\nmergetag tag\n gpgsig embedded tag\n\nmessage".to_vec()));
}
