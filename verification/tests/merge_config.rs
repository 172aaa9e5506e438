use git_rehearse::sandbox::merge_config::{append, parse, Entry};

#[test]
fn parses_driver_commands_without_decoding_their_bytes() {
    let entries = parse(&b"file:.git/config\0merge.raw.driver\nprintf '\xff' > %A\0".to_vec())
        .expect("config output parses");
    assert_eq!(
        entries,
        vec![Entry {
            key: b"merge.raw.driver".to_vec(),
            value: Some(b"printf '\xff' > %A".to_vec()),
        }]
    );
}

#[test]
fn appends_a_valueless_key_without_inventing_an_empty_value() {
    let config = b"[core]\r\n\tbare = true\r\n".to_vec();
    assert_eq!(
        append(
            &config,
            &vec![Entry {
                key: b"merge.raw.driver".to_vec(),
                value: None,
            }]
        )
        .expect("transforms"),
        b"[core]\r\n\tbare = true\r\n[merge \"raw\"]\n\tdriver\n"
    );
}

#[test]
fn appends_a_non_utf8_value_without_decoding_it() {
    let transformed = append(
        &b"[core]\n".to_vec(),
        &vec![Entry {
            key: b"merge.raw.driver".to_vec(),
            value: Some(b"printf '\xff' > %A".to_vec()),
        }],
    )
    .expect("transforms");
    assert_eq!(
        transformed,
        b"[core]\n[merge \"raw\"]\n\tdriver = \"printf '\xff' > %A\"\n"
    );
}
