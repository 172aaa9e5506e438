use git_rehearse::analyze::RefMove;
use git_rehearse::cache::{fnv1a64, repo_id, root_from};
use git_rehearse::cli::{self, exit};
use git_rehearse::collision::walk::remove_ignore_files;
use git_rehearse::error::Error;
use git_rehearse::execute::shell_quote;
use git_rehearse::git;
use git_rehearse::number::{parse, show, show_hex, show_signed, show_two_digits};
use git_rehearse::order::{place, sort_paths, sort_texts};
use git_rehearse::parts::{
    join, lines, skip_bytes, split_chunks, split_last, split_once, take_bytes, trim, words,
};
use git_rehearse::paths::{
    display, file_name, from_bytes, from_text, join_path, parent, same_path, to_bytes,
    with_extension,
};
use git_rehearse::refcommands::{every_payload, payload, reverse};
use git_rehearse::refs::RefMap;
use git_rehearse::sandbox::merge_config;
use git_rehearse::sandbox::store::claimed;
use git_rehearse::session::{Ended, Kind, Reason, Reply, Request, Session, Stop, Trouble};
use git_rehearse::signatures;
use git_rehearse::text::before;
use git_rehearse::worktree::{check_occupancy, transact, NoCheck, Origin};

fn texts(words: &[&str]) -> Vec<String> {
    words.iter().map(|word| (*word).to_owned()).collect()
}

fn said(text: &[u8]) -> Reply {
    Reply::Ended(Ended {
        code: Some(0),
        stdout: text.to_vec(),
        stderr: Vec::new(),
    })
}

fn refused(code: i32, text: &str) -> Reply {
    Reply::Ended(Ended {
        code: Some(code),
        stdout: Vec::new(),
        stderr: text.as_bytes().to_vec(),
    })
}

fn failed(reason: Reason, message: &str) -> Reply {
    Reply::Failed(Trouble {
        reason,
        message: message.to_owned(),
    })
}

fn moved(name: &str, before: Option<&str>, after: Option<&str>) -> RefMove {
    RefMove {
        name: name.to_owned(),
        before: before.map(str::to_owned),
        after: after.map(str::to_owned),
    }
}

// -- what comes from outside ------------------------------------------------

#[test]
fn bytes_that_are_no_text_are_replaced_when_git_speaks() {
    let replies = vec![said(b"caf\xe9 \xff\n")];
    let mut session = Session::new(&replies);
    let text = git::run(&mut session, "/repo", texts(&["log"])).expect("git ran");
    assert_eq!(text, "caf\u{fffd} \u{fffd}");
}

#[test]
fn names_that_are_no_text_come_back_byte_by_byte() {
    for bytes in [
        b"plain".to_vec(),
        "caf\u{e9}".as_bytes().to_vec(),
        b"caf\xe9/\xff".to_vec(),
        "odd \0\u{e9} mark".as_bytes().to_vec(),
        b"\0\xe9\0\0\xff\0".to_vec(),
        "\u{10ffff}\u{e9}".as_bytes().to_vec(),
    ] {
        assert_eq!(to_bytes(&from_bytes(&bytes)), bytes);
    }
    assert_eq!(from_bytes(&"caf\u{e9}".as_bytes().to_vec()), "caf\u{e9}");
    assert_eq!(from_bytes(&b"\xff".to_vec()), "\0\u{ff}");
    assert_eq!(display(&from_bytes(&b"a\xffb".to_vec())), "a\u{fffd}b");
}

#[test]
fn a_mark_in_what_git_prints_stands_for_itself() {
    for name in ["/repo/\u{10ffff}\u{e9}", "/repo/\0\u{e9}", "/repo/\0\0\u{ff}", "/repo/caf\u{e9}"] {
        assert_eq!(to_bytes(&from_text(name)), name.as_bytes());
        assert_eq!(display(&from_text(name)), name);
        let replies = vec![said(format!("{name}\n").as_bytes())];
        let mut session = Session::new(&replies);
        let path = git::run_path(&mut session, "/repo", texts(&["rev-parse", "--show-toplevel"]))
            .expect("git ran");
        assert_eq!(to_bytes(&path), name.as_bytes());
    }
    assert_eq!(from_text("/repo/caf\u{e9}"), "/repo/caf\u{e9}");
    assert_eq!(from_text("\u{10ffff}\u{e9}"), "\u{10ffff}\u{e9}");
    assert_ne!(from_text("\0\u{e9}"), "\0\u{e9}");
    assert_eq!(to_bytes("\u{10ffff}\u{e9}"), "\u{10ffff}\u{e9}".as_bytes());
}

/// What comes of the ignore file in a directory that is named so.
fn ignored_below(dir: &[u8]) -> Result<(), Stop> {
    let replies = vec![
        Reply::Names(vec![from_bytes(&dir.to_vec())]),
        Reply::Kind(Kind::Directory),
        Reply::Names(vec![".gitignore".to_owned()]),
        Reply::Kind(Kind::File),
        said(b".gitignore\n"),
        Reply::Done,
    ];
    let mut session = Session::new(&replies);
    remove_ignore_files(&mut session, "/probe", "/repo", "/sandbox", "target")
}

#[test]
fn an_ignore_file_is_examined_where_its_path_is_text() {
    assert!(ignored_below(b"plain").is_ok());
    assert!(ignored_below("caf\u{e9}".as_bytes()).is_ok());
    assert!(ignored_below("\u{10ffff}".as_bytes()).is_ok());
    assert!(ignored_below("\u{10ffff}\u{e9}".as_bytes()).is_ok());
    match ignored_below(b"caf\xe9") {
        Err(Stop::Fail(error)) => assert_eq!(
            error.to_string(),
            "cannot inspect a non-UTF-8 ignore file path"
        ),
        _ => panic!("a path that is no text is refused"),
    }
}

#[test]
fn a_setting_that_cannot_be_carried_is_shown_to_the_programmer() {
    let error = merge_config::parse(&b"file:a\tb".to_vec()).expect_err("no setting");
    assert_eq!(
        error,
        "repository-local merge config from \"file:a\\tb\" was truncated"
    );
    let entries = vec![merge_config::Entry {
        key: b"nodots\n\"".to_vec(),
        value: Some(b"x".to_vec()),
    }];
    let error = merge_config::append(&Vec::new(), &entries).expect_err("no section");
    assert_eq!(
        error,
        "repository-local merge config key has no variable: \"nodots\\n\\\"\""
    );
}

#[test]
fn a_journal_claims_the_rehearsal_it_names() {
    assert!(claimed("{\"rehearsal\": \"1786-00\"}", "1786-00"));
    assert!(!claimed("{\"rehearsal\": \"1786-00\"}", "1786-01"));
    assert!(claimed("{\"rehearsal\": 7}", "1786-01"), "not a string");
    assert!(claimed("{}", "1786-01"), "names nothing");
    assert!(claimed("not json", "1786-01"), "unreadable");
}

// -- texts ------------------------------------------------------------------

#[test]
fn texts_sort_by_their_characters_and_paths_by_their_components() {
    let given = texts(&["b", "a-b", "a", "a/b", "b"]);
    assert_eq!(sort_texts(&given), texts(&["a", "a-b", "a/b", "b", "b"]));
    assert_eq!(sort_paths(&given), texts(&["a", "a/b", "a-b", "b", "b"]));
    assert!(before("a", "b") && before("a", "ab") && !before("b", "b"));
    let mut set = texts(&["a", "c"]);
    place(&mut set, "b".to_owned());
    place(&mut set, "c".to_owned());
    assert_eq!(set, texts(&["a", "b", "c"]));
}

#[test]
fn numbers_are_written_and_read() {
    assert_eq!(show(0), "0");
    assert_eq!(show(u64::MAX), "18446744073709551615");
    assert_eq!(show_signed(-1), "-1");
    assert_eq!(show_signed(i32::MIN), "-2147483648");
    assert_eq!(show_two_digits(7), "07");
    assert_eq!(show_two_digits(42), "42");
    assert_eq!(show_hex(0x0123_4567_89ab_cdef, 16), "0123456789abcdef");
    assert_eq!(parse("18446744073709551615", u64::MAX), Some(u64::MAX));
    assert_eq!(parse("18446744073709551616", u64::MAX), None);
    assert_eq!(parse("+7", 9), Some(7));
    assert_eq!(parse("", 9), None);
    assert_eq!(parse("7x", 9), None);
    assert_eq!(parse("10", 9), None);
}

#[test]
fn texts_come_apart_where_they_should() {
    assert_eq!(lines("a\nb\r\n\nc"), texts(&["a", "b", "", "c"]));
    assert_eq!(lines(""), texts(&[]));
    assert_eq!(words("  a \t b\n"), texts(&["a", "b"]));
    assert_eq!(trim("\u{a0} a b \u{2003}"), "a b");
    assert_eq!(
        split_once("key=a=b", "="),
        Some(("key".to_owned(), "a=b".to_owned()))
    );
    assert_eq!(split_once("key", "="), None);
    assert_eq!(
        split_last("a.b.c", '.'),
        Some(("a.b".to_owned(), "c".to_owned()))
    );
    assert_eq!(split_chunks("a\0\0b\0\0", "\0\0"), texts(&["a", "b", ""]));
    assert_eq!(join(&texts(&["a", "b"]), ", "), "a, b");
    assert_eq!(take_bytes("\u{e9}a", 2), Some("\u{e9}".to_owned()));
    assert_eq!(take_bytes("\u{e9}a", 1), None, "in the middle of a character");
    assert_eq!(skip_bytes("\u{e9}a", 2), Some("a".to_owned()));
    assert_eq!(skip_bytes("a", 2), None);
}

#[test]
fn paths_are_joined_and_taken_apart() {
    assert_eq!(join_path("/a", "b"), "/a/b");
    assert_eq!(join_path("/a/", "b"), "/a/b");
    assert_eq!(join_path("/a", "/b"), "/b");
    assert_eq!(join_path("", "b"), "b");
    assert_eq!(parent("/a/b"), Some("/a".to_owned()));
    assert_eq!(parent("/"), None);
    assert_eq!(file_name("/a/b/"), Some("b".to_owned()));
    assert_eq!(file_name("/"), None);
    assert_eq!(file_name("/a/.."), None);
    assert_eq!(
        with_extension("/r/.git/rehearse-apply", "lock"),
        "/r/.git/rehearse-apply.lock"
    );
    assert_eq!(with_extension("/r/a.b", "tmp-42"), "/r/a.tmp-42");
    assert!(same_path("/a//b/./c/", "/a/b/c"));
    assert!(!same_path("/a/b", "a/b"));
}

#[test]
fn a_quoted_path_is_one_word_to_the_shell() {
    assert_eq!(shell_quote("it's here"), "'it'\\''s here'");
    assert_eq!(shell_quote(""), "''");
}

#[test]
fn cache_names_are_safe_and_stable() {
    assert_eq!(fnv1a64(&Vec::new()), 0xcbf2_9ce4_8422_2325);
    assert_eq!(fnv1a64(&b"a".to_vec()), 0xaf63_dc4c_8601_ec8c);
    for path in ["/home/ada/Report", "/", "/tmp/\u{fc}ber cool", "/a/.."] {
        let id = repo_id(path);
        assert!(
            id.chars().all(|c| c.is_ascii_alphanumeric() || c == '-'),
            "{id}"
        );
    }
    assert!(repo_id("/home/ada/Report").starts_with("report-"));
    assert!(repo_id("/").starts_with("repo-"));
}

// -- refs -------------------------------------------------------------------

#[test]
fn a_ref_map_keeps_names_in_order_and_once() {
    let mut map = RefMap::new();
    for (name, value) in [("b", "1"), ("a", "2"), ("b", "3")] {
        map.insert(name.to_owned(), value.to_owned());
    }
    assert_eq!(map.len(), 2);
    assert_eq!(map.name(0), "a");
    assert_eq!(map.value(1), "3");
    assert_eq!(map.get("b"), Some("3".to_owned()));
    assert_eq!(map.get("c"), None);
}

#[test]
fn moves_become_commands_and_back_again() {
    let moves = vec![
        moved("HEAD", Some("1"), Some("2")),
        moved("refs/heads/a", Some("1"), Some("2")),
        moved("refs/heads/b", None, Some("2")),
        moved("refs/heads/c", Some("1"), None),
        moved("refs/heads/d", None, None),
    ];
    assert_eq!(
        payload(&moves),
        "update refs/heads/a\x002\x001\0create refs/heads/b\x002\0delete refs/heads/c\x001\0"
    );
    let back = reverse(&moves[1..4].iter().map(|m| moved(&m.name, m.before.as_deref(), m.after.as_deref())).collect());
    assert_eq!(
        every_payload(&back),
        "update refs/heads/a\x001\x002\0delete refs/heads/b\x002\0create refs/heads/c\x001\0"
    );
}

// -- merge settings ---------------------------------------------------------

#[test]
fn merge_settings_are_written_so_that_git_reads_them_back() {
    let listing = b"file:.git/config\0merge.union.driver\nunion %A \"%B\" \\ # ; \t\0file:.git/config\0merge.keep.recursive\0";
    let entries = merge_config::parse(&listing.to_vec()).expect("settings");
    assert_eq!(entries.len(), 2);
    assert_eq!(entries[0].key, b"merge.union.driver");
    assert_eq!(
        entries[0].value.as_deref(),
        Some(&b"union %A \"%B\" \\ # ; \t"[..])
    );
    assert_eq!(entries[1].value, None);
    let config = merge_config::append(&b"[core]\n\tbare = false".to_vec(), &entries).expect("fits");
    let text = String::from_utf8(config).expect("a text");
    assert!(text.starts_with("[core]\n\tbare = false\n"), "{text}");
    assert!(
        text.contains("driver = \"union %A \\\"%B\\\" \\\\ # ; \\t\""),
        "{text}"
    );
}

// -- signatures -------------------------------------------------------------

#[test]
fn every_new_commit_is_looked_at_once() {
    let replies = vec![
        said(b"c2\nc1\n"),
        said(b"tree t\ngpgsig x\n\nsigned"),
        said(b"tree t\n\nplain"),
    ];
    let mut session = Session::new(&replies);
    let found = signatures::inspect(
        &mut session,
        "/sandbox",
        &vec![moved("refs/heads/a", Some("c0"), Some("c2"))],
    )
    .expect("read");
    let shown: Vec<(String, bool)> = found
        .iter()
        .map(|signature| (signature.sha.clone(), signature.present))
        .collect();
    assert_eq!(
        shown,
        vec![("c1".to_owned(), true), ("c2".to_owned(), false)]
    );
}

// -- worktrees --------------------------------------------------------------

/// Answers for one repository with a linked worktree on `occupied`.
fn occupancy(occupied: &str) -> impl Fn(&Request) -> Reply + '_ {
    move |request| match request {
        Request::Canonicalize(path) => Reply::Text(path.clone()),
        Request::Git { dir, args, .. } => match args.join(" ").as_str() {
            "rev-parse --absolute-git-dir" if dir == "/repo" => said(b"/repo/.git\n"),
            "rev-parse --absolute-git-dir" => said(b"/repo/.git/worktrees/other\n"),
            "rev-parse --path-format=absolute --git-common-dir" => said(b"/repo/.git\n"),
            "worktree list --porcelain -z" => {
                said(b"worktree /repo\0HEAD a\0\0worktree /other\0HEAD b\0\0")
            }
            "rev-parse --show-toplevel" => said(dir.as_bytes()),
            "symbolic-ref --quiet HEAD" if dir == "/repo" => said(b"refs/heads/main\n"),
            "symbolic-ref --quiet HEAD" => said(occupied.as_bytes()),
            other => panic!("{dir}: {other}"),
        },
        Request::ReadText(_) | Request::Target(_) => failed(Reason::Missing, "not there"),
        Request::Prepare { .. } | Request::Commit | Request::Abort => said(b""),
        other => panic!("{other:?}"),
    }
}

/// Runs a procedure, and gives what it asked for of the transactions.
fn answered<T>(
    answer: impl Fn(&Request) -> Reply,
    procedure: impl Fn(&mut Session) -> Result<T, Stop>,
) -> (Result<T, Error>, Vec<String>) {
    let mut log = Vec::new();
    let mut steps = Vec::new();
    loop {
        let stop = {
            let mut session = Session::new(&log);
            match procedure(&mut session) {
                Ok(value) => return (Ok(value), steps),
                Err(stop) => stop,
            }
        };
        match stop {
            Stop::Fail(error) => return (Err(error), steps),
            Stop::Ask(request) => {
                match &request {
                    Request::Prepare { dir, commands, .. } => {
                        steps.push(format!("prepare {dir} {commands:?}"));
                    }
                    Request::Commit => steps.push("commit".to_owned()),
                    Request::Abort => steps.push("abort".to_owned()),
                    _ => {}
                }
                let reply = answer(&request);
                log.push(reply);
            }
        }
    }
}

#[test]
fn a_branch_that_another_worktree_has_checked_out_is_refused() {
    let affected = texts(&["refs/heads/feature"]);
    let (free, _) = answered(occupancy("refs/heads/side\n"), |session| {
        check_occupancy(session, "/repo", &affected)
    });
    free.expect("nobody is on it");
    let (taken, _) = answered(occupancy("refs/heads/feature\n"), |session| {
        check_occupancy(session, "/repo", &affected)
    });
    let error = taken.expect_err("somebody is on it");
    assert!(error.to_string().contains("/other"), "{error:?}");
}

#[test]
fn refs_move_under_the_locks_of_every_worktree() {
    let affected = texts(&["refs/heads/feature"]);
    let (done, steps) = answered(occupancy("refs/heads/side\n"), |session| {
        transact(
            session,
            "/repo",
            "update refs/heads/feature\0b\0a\0",
            &affected,
            "test",
            &NoCheck,
        )
    });
    done.expect("moved");
    assert_eq!(
        steps,
        vec![
            "prepare /other \"symref-verify HEAD\\0refs/heads/side\\0\"",
            "prepare /repo \"update refs/heads/feature\\0b\\0a\\0symref-verify HEAD\\0refs/heads/main\\0\"",
            "commit",
            "commit",
        ]
    );

    let (refused, steps) = answered(occupancy("refs/heads/feature\n"), |session| {
        transact(
            session,
            "/repo",
            "update refs/heads/feature\0b\0a\0",
            &affected,
            "test",
            &NoCheck,
        )
    });
    refused.expect_err("another worktree is on it");
    assert!(!steps.contains(&"commit".to_owned()), "{steps:?}");
    assert_eq!(steps.last().map(String::as_str), Some("abort"));
}

#[test]
fn an_origin_that_changed_is_refused() {
    let origin = Origin {
        common_dir: "/repo/.git".to_owned(),
        git_dir: "/repo/.git".to_owned(),
    };
    let (same, _) = answered(occupancy(""), |session| origin.verify(session, "/repo"));
    same.expect("the same");
    let (other, _) = answered(occupancy(""), |session| origin.verify(session, "/other"));
    assert!(matches!(other, Err(Error::Refused(_))));
}

// -- errors -----------------------------------------------------------------

#[test]
fn every_error_has_its_words() {
    for (error, words) in [
        (
            Error::Io("/a".to_owned(), "denied".to_owned()),
            "/a: denied",
        ),
        (
            Error::Spawn("not found".to_owned()),
            "could not run git: not found",
        ),
        (Error::Refused("no".to_owned()), "no"),
        (Error::Sandbox("odd".to_owned()), "odd"),
    ] {
        assert_eq!(error.to_string(), words);
    }
    assert!(Error::NoCacheDir.to_string().contains("cache"));
    assert!(Error::Meta("/m".to_owned(), "bad".to_owned())
        .to_string()
        .contains("/m"));
    let git = Error::Git {
        args: "push".to_owned(),
        code: Some(1),
        stderr: "no".to_owned(),
    };
    assert!(git.to_string().contains("push"), "{}", git.to_string());
}

#[test]
fn git_that_cannot_be_started_or_fails_is_told_apart() {
    let replies = vec![failed(Reason::Missing, "No such file or directory")];
    let mut session = Session::new(&replies);
    let Err(Stop::Fail(Error::Spawn(message))) = git::run(&mut session, "/r", texts(&["log"]))
    else {
        panic!("git ran");
    };
    assert_eq!(message, "No such file or directory");

    let replies = vec![refused(128, " fatal: bad revision \n")];
    let mut session = Session::new(&replies);
    let Err(Stop::Fail(Error::Git { args, code, stderr })) =
        git::run(&mut session, "/r", texts(&["log", "x"]))
    else {
        panic!("git did not fail");
    };
    assert_eq!((args.as_str(), code, stderr.as_str()), ("log x", Some(128), "fatal: bad revision"));

    let replies = vec![Reply::Done];
    let mut session = Session::new(&replies);
    let Err(Stop::Fail(Error::Spawn(message))) = git::run(&mut session, "/r", texts(&["log"]))
    else {
        panic!("the reply fits");
    };
    assert_eq!(message, "the reply does not fit the request");
}

#[test]
fn the_exit_code_tells_a_refusal_from_a_fault() {
    assert_eq!(cli::code_for(&Ok(3)), 3);
    assert_eq!(
        cli::code_for(&Err(Error::Refused("no".to_owned()))),
        exit::REFUSED
    );
    assert_eq!(cli::code_for(&Err(Error::NoCacheDir)), exit::INTERNAL);
}

#[test]
fn no_usable_cache_directory_is_an_error() {
    assert!(matches!(
        root_from(None, Some("relative".to_owned()), None),
        Err(Error::NoCacheDir)
    ));
}

#[test]
fn a_path_that_is_no_text_is_shown_with_a_replacement_mark() {
    let path = from_bytes(&b"/tmp/a\xffb".to_vec());
    assert_eq!(
        Error::io(&path, "Permission denied").to_string(),
        "/tmp/a\u{fffd}b: Permission denied"
    );
    assert_eq!(
        Error::Meta(path.clone(), "expected value".to_owned()).to_string(),
        "/tmp/a\u{fffd}b: expected value"
    );
    assert_eq!(
        git::describe(&vec!["clone".to_owned(), path.clone()]),
        "clone /tmp/a\u{fffd}b"
    );
    assert_eq!(shell_quote(&path), "'/tmp/a\u{fffd}b'");
    assert_eq!(repo_id(&path), repo_id("/tmp/a\u{fffd}b"));
    assert!(repo_id(&path).starts_with("a-b-"), "{}", repo_id(&path));
    let error = git_rehearse::undo::parse("nothing of a record", &path).expect_err("no record");
    assert!(
        error.to_string().starts_with("/tmp/a\u{fffd}b is not a readable undo record: "),
        "{}",
        error.to_string()
    );
}
