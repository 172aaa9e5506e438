use std::cell::RefCell;
use std::collections::BTreeMap;

use git_rehearse::cli::flow::Setting;
use git_rehearse::cli::{self, exit};
use git_rehearse::error::Error;
use git_rehearse::json::{Decision, Document};
use git_rehearse::report::Detail;
use git_rehearse::sandbox::Meta;
use git_rehearse::session::{Ended, Kind, Reason, Reply, Request, Session, Stop, Trouble};

const OLD: &str = "0a7bfa18000000000000000000000000000000aa";
const NEW: &str = "74f61021291212257c19698105c43987491a29d6";
const BASE: &str = "355faf4e0000000000000000000000000000000b";
const SNAPSHOT: &str = "5ea5ed0000000000000000000000000000000000";
const REPLAYED: &str = "4e914ed000000000000000000000000000000000";
const SANDBOX: &str = "/cache/report-";

/// A repository, its sandbox and a person at the terminal.
#[derive(Default)]
struct World {
    /// The refs of the real repository.
    real: BTreeMap<String, String>,
    /// The refs of the sandbox.
    shadow: BTreeMap<String, String>,
    /// Where the command leaves the feature branch of the sandbox.
    lands: Option<String>,
    /// Whether the command stops on a conflict.
    stops: bool,
    /// Why a conflicted file cannot be read, where it cannot.
    unreadable: Option<Reason>,
    /// What `git status` says in the real repository.
    status: String,
    /// What some git commands say in the real repository, and `None` where they fail.
    facts: BTreeMap<String, Option<String>>,
    files: BTreeMap<String, Vec<u8>>,
    meta: Option<Meta>,
    answers: Vec<String>,
    terminal: bool,
    /// Everything printed.
    printed: String,
    documents: Vec<Document>,
    /// Every request, in words.
    asked: Vec<String>,
    /// Directories that hold something.
    dirs: Vec<String>,
    /// The directory that rehearsals are kept in.
    cache: String,
}

fn missing() -> Reply {
    Reply::Failed(Trouble {
        reason: Reason::Missing,
        message: "No such file or directory".to_owned(),
    })
}

fn said(text: &str) -> Reply {
    Reply::Ended(Ended {
        code: Some(0),
        stdout: text.as_bytes().to_vec(),
        stderr: Vec::new(),
    })
}

fn refused(code: i32, text: &str) -> Reply {
    Reply::Ended(Ended {
        code: Some(code),
        stdout: Vec::new(),
        stderr: text.as_bytes().to_vec(),
    })
}

impl World {
    /// A feature branch one commit away from where `main` has moved on.
    fn new() -> World {
        let refs: BTreeMap<String, String> = [
            ("refs/heads/feature".to_owned(), OLD.to_owned()),
            ("refs/heads/main".to_owned(), BASE.to_owned()),
        ]
        .into_iter()
        .collect();
        World {
            real: refs.clone(),
            shadow: refs,
            lands: Some(NEW.to_owned()),
            cache: "/cache".to_owned(),
            ..World::default()
        }
    }

    fn transaction(&mut self, input: &str) -> Reply {
        let fields: Vec<&str> = input.split('\0').collect();
        let mut next = self.real.clone();
        let mut i = 0;
        while i < fields.len() && !fields[i].is_empty() {
            let (verb, name) = fields[i].split_once(' ').expect("a command");
            let now = next.get(name).cloned();
            let takes = match verb {
                "update" => {
                    let fits = now.as_deref() == Some(fields[i + 2]);
                    next.insert(name.to_owned(), fields[i + 1].to_owned());
                    i += 3;
                    fits
                }
                "create" => {
                    next.insert(name.to_owned(), fields[i + 1].to_owned());
                    i += 2;
                    now.is_none()
                }
                "delete" => {
                    let fits = now.as_deref() == Some(fields[i + 1]);
                    next.remove(name);
                    i += 2;
                    fits
                }
                _ => panic!("no such command: {verb}"),
            };
            if !takes {
                return refused(128, "fatal: cannot lock ref");
            }
        }
        self.real = next;
        said("")
    }

    fn git(&mut self, dir: &str, args: &[String], input: Option<&str>) -> Reply {
        let inside = dir.starts_with(&format!("{}/report-", self.cache));
        let words: Vec<&str> = args.iter().map(String::as_str).collect();
        let refs = if inside { &self.shadow } else { &self.real };
        if !inside {
            match self.facts.get(&words.join(" ")) {
                Some(Some(text)) => return said(text),
                Some(None) => return refused(128, "fatal: no"),
                None => {}
            }
        }
        match words.as_slice() {
            ["rev-parse", "--is-bare-repository", "--is-inside-work-tree"] => said("false\ntrue\n"),
            ["rev-parse", "--show-toplevel"] => said("/home/ada/report\n"),
            ["rev-parse", "--is-shallow-repository"] => said("false\n"),
            ["rev-parse", "--absolute-git-dir"] => said(&format!("{dir}/.git\n")),
            ["rev-parse", "--path-format=absolute", "--git-common-dir"] => {
                said(&format!("{dir}/.git\n"))
            }
            ["rev-parse", "--git-path", "rehearse-apply"] => said(".git/rehearse-apply\n"),
            ["worktree", "list", "--porcelain"] => said("worktree /home/ada/report\n"),
            ["submodule", "status"] => said(""),
            ["ls-files", "--unmerged"] if self.stops => said("100644 0a7bfa1 1\tconfig.toml\n"),
            ["ls-files", ..] => said(""),
            ["ls-tree", ..] => said(""),
            ["rev-parse", "--verify", "--quiet", "HEAD"] => {
                said(&format!("{}\n", refs["refs/heads/feature"]))
            }
            ["rev-parse", "--verify", "--quiet", name] => match refs.get(*name) {
                Some(sha) => said(&format!("{sha}\n")),
                None => refused(1, ""),
            },
            ["rev-parse", "--verify", name] => said(&format!("{}\n", name.trim_end_matches("^{commit}"))),
            ["rev-parse", tree] => said(&format!("{tree}\n")),
            ["symbolic-ref", "--quiet", "--short", "HEAD"] => said("feature\n"),
            ["status", ..] => said(&self.status),
            ["stash", "create"] => said(if inside { REPLAYED } else { SNAPSHOT }),
            ["for-each-ref", format, pattern] => {
                let strip = if format.contains("lstrip=2") { 2 } else { 0 };
                let mut listing = String::new();
                for (name, sha) in refs {
                    if name.starts_with(pattern) {
                        let shown: Vec<&str> = name.split('/').skip(strip).collect();
                        listing.push_str(&format!("{sha} {}\n", shown.join("/")));
                    }
                }
                said(&listing)
            }
            ["remote"] => said(""),
            ["config", "--get", _] => refused(1, ""),
            ["config", "--local", ..] => refused(1, ""),
            ["diff", "--name-status", ..] => said("A\0LICENSE\0"),
            ["diff", "--name-only", ..] => said(if self.stops { "config.toml\0" } else { "" }),
            ["rev-list", ..] => said("1\t2\n"),
            ["range-diff", ..] => said(
                "-:  ------- > 1:  355faf4 add a licence\n1:  0a7bfa1 = 2:  74f6102 raise the row limit\n",
            ),
            ["log", "-1", "--format=%s", _] => said("raise the timeout to 90\n"),
            ["log", "--graph", "--oneline", "--decorate", "--boundary", tip, _] => {
                if *tip == OLD {
                    said("* 0a7bfa1 raise the row limit\no e353cbd add the readme\n")
                } else {
                    said(
                        "* 74f6102 (HEAD -> feature) raise the row limit\n* 355faf4 (main) add a licence\no e353cbd add the readme\n",
                    )
                }
            }
            ["update-ref", "-m", _, "--stdin", "-z"] => {
                let input = input.expect("commands").to_owned();
                self.transaction(&input)
            }
            ["clone" | "config" | "checkout" | "push" | "stash" | "update-ref" | "fetch" | "reset" | "read-tree", ..] => {
                said("")
            }
            _ => panic!("no such git command here: {words:?}"),
        }
    }

    fn perform(&mut self, request: Request) -> Reply {
        self.asked.push(match &request {
            Request::Git { dir, args, .. } => format!("{dir}$ git {}", args.join(" ")),
            Request::Spawn { dir, args, .. } => format!("{dir}$ run {}", args.join(" ")),
            other => format!("{other:?}"),
        });
        match request {
            Request::Git {
                dir, args, input, ..
            } => self.git(&dir, &args, input.as_deref()),
            Request::Spawn { .. } => {
                if self.stops {
                    return refused(1, "");
                }
                if let Some(lands) = &self.lands {
                    self.shadow
                        .insert("refs/heads/feature".to_owned(), lands.clone());
                }
                said("")
            }
            Request::Canonicalize(path) => Reply::Text(path),
            Request::Now => Reply::Number(1_786_178_829),
            Request::CreateDir(path) => {
                if self.dirs.contains(&path) {
                    return Reply::Failed(Trouble {
                        reason: Reason::Exists,
                        message: "File exists".to_owned(),
                    });
                }
                self.dirs.push(path);
                Reply::Done
            }
            Request::CreateDirs(path) => {
                for dir in [self.cache.clone(), path] {
                    if !self.dirs.contains(&dir) {
                        self.dirs.push(dir);
                    }
                }
                Reply::Done
            }
            Request::RemoveTree(path) => {
                self.dirs.retain(|dir| !dir.starts_with(&path));
                self.files.retain(|file, _| !file.starts_with(&path));
                Reply::Done
            }
            Request::RemoveDir(_) => Reply::Done,
            Request::List(path) => {
                let head = format!("{path}/");
                let names: Vec<String> = self
                    .dirs
                    .iter()
                    .filter_map(|dir| dir.strip_prefix(&head))
                    .filter(|name| !name.contains('/'))
                    .map(str::to_owned)
                    .collect();
                if self.dirs.contains(&path) {
                    Reply::Names(names)
                } else {
                    missing()
                }
            }
            Request::Kind(path) => {
                if self.dirs.contains(&path) {
                    Reply::Kind(Kind::Directory)
                } else if self.files.contains_key(&path) {
                    Reply::Kind(Kind::File)
                } else {
                    missing()
                }
            }
            Request::Target(path) => {
                if self.stops && path.ends_with("rebase-merge") {
                    Reply::Kind(Kind::Directory)
                } else if self.files.contains_key(&path) {
                    Reply::Kind(Kind::File)
                } else {
                    missing()
                }
            }
            Request::ReadText(path) => {
                if path.ends_with(".gitattributes") {
                    return Reply::Text("*.psd filter=lfs diff=lfs merge=lfs -text\n".to_owned());
                }
                if self.stops && path.ends_with("rebase-merge/stopped-sha") {
                    return Reply::Text(format!("{OLD}\n"));
                }
                match self.files.get(&path) {
                    Some(bytes) => {
                        Reply::Text(String::from_utf8(bytes.clone()).expect("a text"))
                    }
                    None => missing(),
                }
            }
            Request::ReadBytes(path) => {
                if let (true, Some(reason)) = (path.ends_with("config.toml"), self.unreadable) {
                    return Reply::Failed(Trouble {
                        reason,
                        message: "Permission denied".to_owned(),
                    });
                }
                if path.ends_with("config.toml") {
                    return Reply::Bytes(b"<<<<<<< a\n=======\n>>>>>>> b\n".to_vec());
                }
                match self.files.get(&path) {
                    Some(bytes) => Reply::Bytes(bytes.clone()),
                    None => missing(),
                }
            }
            Request::Write(path, bytes) | Request::WriteSynced(path, bytes) => {
                self.files.insert(path, bytes);
                Reply::Done
            }
            Request::Rename(from, to) => match self.files.remove(&from) {
                Some(bytes) => {
                    self.files.insert(to, bytes);
                    Reply::Done
                }
                None => missing(),
            },
            Request::RemoveFile(path) => match self.files.remove(&path) {
                Some(_) => Reply::Done,
                None => missing(),
            },
            Request::EncodeMeta(meta) => {
                self.meta = Some(meta);
                Reply::Text("{\"schema\": 3}".to_owned())
            }
            Request::DecodeMeta(_, _) => match &self.meta {
                Some(meta) => Reply::Meta(meta.copy()),
                None => missing(),
            },
            Request::Print(text) => {
                self.printed.push_str(&text);
                Reply::Done
            }
            Request::Terminal => Reply::Flag(self.terminal),
            Request::ReadLine => Reply::Text(if self.answers.is_empty() {
                String::new()
            } else {
                self.answers.remove(0)
            }),
            Request::Emit(document) => {
                self.documents.push(document);
                Reply::Done
            }
            other => panic!("nobody asks for this here: {other:?}"),
        }
    }

    /// Runs a command line, and gives what it printed with how it ended.
    fn run(&mut self, line: &[&str]) -> Result<u8, Error> {
        self.printed.clear();
        self.asked.clear();
        let args: Vec<String> = line.iter().map(|word| (*word).to_owned()).collect();
        let setting = Setting {
            cwd: "/home/ada/report".to_owned(),
            cache_root: Some(self.cache.clone()),
            json: cli::wants_json(&args),
            detail: cli::wanted_detail(&args),
        };
        let world = RefCell::new(self);
        let mut log: Vec<Reply> = Vec::new();
        loop {
            let stop = {
                let mut session = Session::new(&log);
                match cli::run(&mut session, cli::parse(&args)?, &setting) {
                    Ok(code) => return Ok(code),
                    Err(stop) => stop,
                }
            };
            match stop {
                Stop::Fail(error) => return Err(error),
                Stop::Ask(request) => {
                    let reply = world.borrow_mut().perform(request);
                    log.push(reply);
                }
            }
        }
    }

    fn position(&self, part: &str) -> usize {
        self.asked
            .iter()
            .position(|asked| asked.contains(part))
            .unwrap_or_else(|| panic!("nobody asked for {part}: {:#?}", self.asked))
    }
}

const REPORT: &str = "
rehearsed  git rebase main
repository /home/ada/report
rehearsal  1786178829-00

refs
  HEAD                0a7bfa18 -> 74f61021
  refs/heads/feature  0a7bfa18 -> 74f61021

graph  refs/heads/feature
  before
    * 0a7bfa1 raise the row limit
    o e353cbd add the readme
  after
    * 74f6102 (HEAD -> feature) raise the row limit
    * 355faf4 (main) add a licence
    o e353cbd add the readme

content  refs/heads/feature — every replayed commit is unchanged; the difference is the 1 commit(s) picked up from the new base
    A LICENSE

";

#[test]
fn a_rehearsal_that_is_kept_reads_as_documented() {
    let mut world = World::new();
    let code = world.run(&["--keep", "rebase", "main"]).expect("rehearsed");
    assert_eq!(code, exit::CLEAN);
    assert_eq!(
        world.printed,
        format!("{REPORT}kept as 1786178829-00 — `git rehearse show 1786178829-00` to see it again\n")
    );
    assert_eq!(world.real["refs/heads/feature"], OLD, "nothing was applied");
}

#[test]
fn a_kept_rehearsal_is_listed_shown_applied_and_undone() {
    let mut world = World::new();
    world.run(&["--keep", "rebase", "main"]).expect("rehearsed");

    world.run(&["list"]).expect("listed");
    assert_eq!(world.printed, "1786178829-00  Kept  git rebase main\n");

    world.run(&["show"]).expect("shown");
    assert_eq!(world.printed, REPORT[1..]);

    let before = world.real.clone();
    world.run(&["apply"]).expect("applied");
    assert_eq!(
        world.printed,
        format!(
            "applied:\n  refs/heads/feature {NEW}\n  worktree reset to feature\nwhere everything was is written down in /home/ada/report/.git/rehearse-undo\ntake it back with `git rehearse undo`\n"
        )
    );
    assert_eq!(world.real, world.shadow, "what was inspected is what one gets");
    assert!(
        world.position("Write(\"/home/ada/report/.git/rehearse-undo\"")
            < world.position("update-ref -m"),
        "the way back is written down first"
    );
    assert!(
        !world.dirs.iter().any(|dir| dir.starts_with(SANDBOX) && dir.ends_with("-00")),
        "an applied rehearsal is gone: {:?}",
        world.dirs
    );

    world.run(&["undo"]).expect("undone");
    assert_eq!(
        world.printed,
        format!(
            "put back:\n  refs/heads/feature {OLD}\n  worktree reset to feature\nfrom the apply of rehearsal 1786178829-00 at 1786178829 (unix time).\nThe record is used up — one apply is undoable at a time.\n"
        )
    );
    assert_eq!(world.real, before, "undoing restores the refs");
    assert!(world.position("update-ref -m") < world.position("RemoveFile"));

    let error = world.run(&["undo"]).expect_err("used up");
    assert!(matches!(error, Error::Refused(_)), "{error:?}");
}

/// Holds every request against where the sandbox of the repository lies.
fn assert_left_alone(world: &World) {
    let home = format!("{}/report-", world.cache);
    for asked in &world.asked {
        if let Some((dir, command)) = asked.split_once("$ ") {
            let looks = ["git rev-parse", "git for-each-ref", "git status", "git ls-files"]
                .iter()
                .any(|head| command.starts_with(head))
                || [
                    "git symbolic-ref --quiet --short HEAD",
                    "git worktree list --porcelain",
                    "git submodule status",
                ]
                .contains(&command)
                || command.starts_with("git config --get")
                || command.starts_with("git config --local --show-origin");
            assert!(dir.starts_with(&home) || looks, "{asked}");
        } else if asked.starts_with("Write") || asked.starts_with("Create") || asked.starts_with("Re")
        {
            assert!(
                asked.contains(&format!("\"{home}")) || asked.starts_with("Read"),
                "{asked}"
            );
        }
    }
}

#[test]
fn rehearsing_leaves_the_repository_alone() {
    let mut world = World::new();
    world.run(&["--keep", "rebase", "main"]).expect("rehearsed");
    assert_left_alone(&world);
}

#[test]
fn a_cache_around_the_repository_does_not_reach_it() {
    for cache in ["/home/ada", "/home", "/home/ada/rep"] {
        let mut world = World::new();
        world.cache = cache.to_owned();
        world.run(&["--keep", "rebase", "main"]).expect("rehearsed");
        assert_left_alone(&world);
        world.run(&["discard"]).expect("discarded");
        assert_left_alone(&world);
    }
}

#[test]
fn a_refused_apply_changes_nothing() {
    let mut world = World::new();
    world.run(&["--keep", "rebase", "main"]).expect("rehearsed");
    world
        .real
        .insert("refs/heads/feature".to_owned(), "c".repeat(40));

    let error = world.run(&["apply"]).expect_err("the branch has moved");

    assert!(
        error.to_string().contains("is now cccccc"),
        "{}",
        error.to_string()
    );
    assert_eq!(cli::code_for(&Err(error)), exit::REFUSED);
    for asked in &world.asked {
        for word in ["fetch", "update-ref", "reset", "read-tree", "Write", "Remove"] {
            assert!(!asked.contains(word), "{asked}");
        }
    }
}

#[test]
fn a_refused_undo_changes_nothing() {
    let mut world = World::new();
    world.run(&["--apply", "rebase", "main"]).expect("applied");
    let record = world.files["/home/ada/report/.git/rehearse-undo"].clone();
    world
        .real
        .insert("refs/heads/feature".to_owned(), "c".repeat(40));

    let error = world.run(&["undo"]).expect_err("the branch has moved");

    assert!(
        error.to_string().contains("the apply left it at"),
        "{}",
        error.to_string()
    );
    assert_eq!(world.files["/home/ada/report/.git/rehearse-undo"], record);
    assert_eq!(world.real["refs/heads/feature"], "c".repeat(40));
}

#[test]
fn an_undo_of_another_apply_is_refused() {
    let mut world = World::new();
    world.run(&["--apply", "rebase", "main"]).expect("applied");
    let other = world.run(&["undo", "1799"]).expect_err("another apply");
    assert_eq!(
        other.to_string(),
        "the undo record is from the apply of rehearsal 1786178829-00, not 1799.\nOnly the most recent apply can be undone: there is one record per repository, and applying again overwrites it."
    );
    assert_eq!(world.real["refs/heads/feature"], NEW);
    world.run(&["undo", "1786"]).expect("the beginning of the id will do");
    assert_eq!(world.real["refs/heads/feature"], OLD);
}

#[test]
fn carried_work_is_put_back_by_the_apply() {
    let mut world = World::new();
    world.status = " M limits.toml\n".to_owned();
    world.run(&["--apply", "rebase", "main"]).expect("applied");
    assert!(
        world.printed.contains(
            "carried  1 uncommitted path(s): limits.toml\n  they come back clean on the rehearsed history\n"
        ),
        "{}",
        world.printed
    );
    assert!(
        world.printed.contains("  1 uncommitted path(s) put back: limits.toml\n"),
        "{}",
        world.printed
    );
    assert!(world.position("git reset --hard") < world.position("git read-tree"));
}

#[test]
fn a_conflict_is_kept_where_nobody_can_answer() {
    let mut world = World::new();
    world.stops = true;
    let code = world.run(&["rebase", "main"]).expect("rehearsed");
    assert_eq!(code, exit::STOPPED);
    assert!(
        world.printed.contains("the command stopped part-way on a conflict\n"),
        "{}",
        world.printed
    );
    assert!(
        world.printed.contains(
            "conflicts  stopped at 0a7bfa18 \"raise the timeout to 90\"\n  config.toml  1 hunk\n"
        ),
        "{}",
        world.printed
    );
    assert!(
        world.printed.contains("\n  git rehearse continue 1786178829-00\n"),
        "{}",
        world.printed
    );
    assert!(
        world.printed.ends_with(
            "\nstdin is not a terminal, so there was nobody to ask: the rehearsal was kept.\nCarry it on with `git rehearse continue`, or throw it away with `git rehearse discard`.\nkept as 1786178829-00 — `git rehearse show 1786178829-00` to see it again\n"
        ),
        "{}",
        world.printed
    );

    let error = world.run(&["continue"]).expect_err("still unmerged");
    assert_eq!(
        error.to_string(),
        "1 path(s) are still unmerged in the sandbox:\n  config.toml\nResolve them and `git add` them there, then continue."
    );

    world.stops = false;
    let error = world.run(&["continue"]).expect_err("nothing is in progress");
    assert!(matches!(error, Error::Refused(_)), "{error:?}");
}

#[test]
fn a_clean_rehearsal_is_discarded_where_nobody_can_answer() {
    let mut world = World::new();
    let code = world.run(&["rebase", "main"]).expect("rehearsed");
    assert_eq!(code, exit::CLEAN, "the exit code describes the rehearsal");
    assert!(
        world.printed.ends_with(
            "\nstdin is not a terminal, so there was nobody to ask: the rehearsal was discarded.\nUse --apply to apply it, or --keep to keep it for `git rehearse apply`.\n"
        ),
        "{}",
        world.printed
    );
    assert_eq!(world.real["refs/heads/feature"], OLD);
    world.run(&["list"]).expect("listed");
    assert_eq!(world.printed, "no rehearsals for this repository\n");
}

#[test]
fn an_answer_at_the_terminal_is_what_happens() {
    let mut world = World::new();
    world.terminal = true;
    world.answers = vec!["what?\n".to_owned(), "a\n".to_owned()];
    world.run(&["rebase", "main"]).expect("rehearsed");
    assert_eq!(world.real["refs/heads/feature"], NEW);

    let mut world = World::new();
    world.terminal = true;
    world.lands = None;
    world.answers = vec!["a\n".to_owned(), "d\n".to_owned()];
    world.run(&["rebase", "main"]).expect("rehearsed");
    assert!(
        world.printed.contains("please answer with one of"),
        "applying is not offered where nothing moved: {}",
        world.printed
    );
    assert_eq!(world.real["refs/heads/feature"], OLD);
}

#[test]
fn applying_what_moved_nothing_is_refused() {
    let mut world = World::new();
    world.lands = None;
    let error = world.run(&["--apply", "rebase", "main"]).expect_err("refused");
    assert_eq!(
        error.to_string(),
        "--apply was asked for, but this rehearsal has nothing that can be applied.\nA command that stopped part-way or failed leaves no result to transplant."
    );
}

#[test]
fn a_document_is_all_that_is_written() {
    for line in [
        vec!["--json", "--keep", "rebase", "main"],
        vec!["--json", "list"],
        vec!["--json", "show"],
        vec!["--json", "apply"],
        vec!["--json", "undo"],
    ] {
        let mut world = World::new();
        world.terminal = true;
        if line[1] != "--keep" {
            let setup: &[&str] = if line[1] == "undo" {
                &["--json", "--apply", "rebase", "main"]
            } else {
                &["--json", "--keep", "rebase", "main"]
            };
            world.run(setup).expect("rehearsed");
            world.documents.clear();
        }
        world.run(&line).expect("it works");
        assert_eq!(world.printed, "", "{line:?}");
        assert_eq!(world.documents.len(), 1, "{line:?}");
        assert!(
            !world
                .asked
                .iter()
                .any(|asked| asked == "ReadLine" || asked == "Terminal"),
            "{line:?}"
        );
    }
}

#[test]
fn the_report_document_holds_what_happened() {
    let mut world = World::new();
    world.run(&["--json", "rebase", "main"]).expect("rehearsed");
    let Some(Document::Report(report)) = world.documents.pop() else {
        panic!("no report");
    };
    assert_eq!(report.schema, 1);
    assert_eq!(report.id, "1786178829-00");
    assert_eq!(report.repository, "/home/ada/report");
    assert_eq!(report.command, vec!["rebase", "main"]);
    assert_eq!(report.outcome.name(), "clean");
    assert_eq!(report.exit_code, exit::CLEAN);
    assert_eq!(report.git_exit_code, None);
    assert!(!report.conflicted);
    assert_eq!(report.refs.len(), 2);
    assert_eq!(report.refs[1].after.as_deref(), Some(NEW));
    assert_eq!(report.drift.len(), 1);
    assert_eq!(report.drift[0].replay.added, vec!["add a licence"]);
    assert!(!report.drift_unexpected);
    assert!(report.can_apply);
    assert_eq!(report.decision, Decision::Discarded);
    assert!(report.applied.is_none());
}

#[test]
fn stat_only_leaves_out_the_graphs_alone() {
    let mut world = World::new();
    world.run(&["--keep", "rebase", "main"]).expect("rehearsed");
    world.run(&["show"]).expect("shown");
    let full = world.printed.clone();
    world.run(&["--stat-only", "show"]).expect("shown");
    let short = world.printed.clone();
    let from = full.find("graph  ").expect("a graph");
    let to = full.find("content  ").expect("drift");
    assert_eq!(short, format!("{}{}", &full[..from], &full[to..]));
    assert!(!world.asked.iter().any(|asked| asked.contains("log --graph")));
    assert!(world.asked.iter().any(|asked| asked.contains("range-diff")));
}

#[test]
fn a_sandbox_is_inert_before_anything_runs_in_it() {
    let mut world = World::new();
    world.run(&["--keep", "rebase", "main"]).expect("rehearsed");
    let hooks = world.position("config core.hooksPath");
    assert!(world.position("git remote") < hooks);
    assert!(hooks < world.position("git checkout"));
    assert!(world.position("git checkout") < world.position("$ run rebase main"));
}

#[test]
fn discarding_names_what_is_gone() {
    let mut world = World::new();
    world.run(&["--keep", "rebase", "main"]).expect("rehearsed");
    world.run(&["discard", "1786"]).expect("a prefix will do");
    assert_eq!(world.printed, "discarded 1786178829-00\n");

    world.run(&["--keep", "rebase", "main"]).expect("rehearsed");
    world.run(&["discard", "--all"]).expect("discarded");
    assert_eq!(world.printed, "discarded 1 rehearsal(s)\n");

    let error = world.run(&["discard"]).expect_err("there is none");
    assert!(matches!(error, Error::Refused(_)), "{error:?}");
}

#[test]
fn help_and_version_are_printed() {
    let mut world = World::new();
    assert_eq!(world.run(&["--version"]).expect("printed"), exit::CLEAN);
    assert_eq!(world.printed, "git-rehearse 1.2.0\n");
    assert_eq!(world.run(&["--help"]).expect("printed"), exit::CLEAN);
    assert!(world.printed.contains("git rehearse undo [<id>]"));
    assert_eq!(Detail::default(), Detail::Full);
}

#[test]
fn an_unsupported_repository_is_refused_before_anything_is_made() {
    let bare = "rev-parse --is-bare-repository --is-inside-work-tree";
    for (command, answer, part) in [
        (bare, Some("true\nfalse\n"), "bare repository"),
        (bare, Some("false\nfalse\n"), "inside"),
        (bare, None, "not a git repository"),
        ("rev-parse --is-shallow-repository", Some("true\n"), "shallow"),
        (
            "worktree list --porcelain",
            Some("worktree /home/ada/report\n\nworktree /home/ada/other\n"),
            "2 worktrees",
        ),
        ("submodule status", Some(" 0a7bfa1 lib (v1)\n"), "submodules"),
        (
            "ls-files -z -- .gitattributes */.gitattributes",
            Some(".gitattributes\0"),
            "LFS",
        ),
        ("rev-parse --verify --quiet HEAD", None, "no commits"),
    ] {
        let mut world = World::new();
        world
            .facts
            .insert(command.to_owned(), answer.map(str::to_owned));

        let error = world.run(&["--keep", "rebase", "main"]).expect_err(part);

        assert!(matches!(error, Error::Refused(_)), "{error:?}");
        assert!(
            error.to_string().contains(part),
            "{part}: {}",
            error.to_string()
        );
        assert_eq!(cli::code_for(&Err(error)), exit::REFUSED);
        assert!(world.dirs.is_empty(), "{part}: {:?}", world.dirs);
    }
}

#[test]
fn two_rehearsals_of_one_second_have_their_own_ids() {
    let mut world = World::new();
    world.run(&["--keep", "rebase", "main"]).expect("rehearsed");
    world.shadow = world.real.clone();
    world.run(&["--keep", "rebase", "main"]).expect("rehearsed");
    assert!(
        world.printed.contains("\nrehearsal  1786178829-01\n"),
        "{}",
        world.printed
    );
    assert!(
        world
            .dirs
            .iter()
            .any(|dir| dir.starts_with(SANDBOX) && dir.ends_with("1786178829-00")),
        "the first one is still there: {:?}",
        world.dirs
    );
}

#[test]
fn neither_applying_nor_undoing_runs_the_command_again() {
    let mut world = World::new();
    world.run(&["--keep", "rebase", "main"]).expect("rehearsed");
    assert_eq!(
        world.asked.iter().filter(|asked| asked.contains("$ run ")).count(),
        1
    );
    for line in [["apply"], ["undo"]] {
        world.run(&line).expect("done");
        assert!(
            !world.asked.iter().any(|asked| asked.contains("$ run ")),
            "{:#?}",
            world.asked
        );
    }
}

#[test]
fn an_apply_that_never_landed_is_not_undone() {
    let mut world = World::new();
    world.run(&["--apply", "rebase", "main"]).expect("applied");
    world
        .real
        .insert("refs/heads/feature".to_owned(), OLD.to_owned());
    let error = world.run(&["undo"]).expect_err("nothing moved");
    assert!(matches!(error, Error::Refused(_)), "{error:?}");
    assert_eq!(world.real["refs/heads/feature"], OLD);
}

#[test]
fn a_command_repeats_itself_on_the_replies_it_used() {
    let args: Vec<String> = vec!["--help".to_owned()];
    let setting = Setting {
        cwd: "/home/ada/report".to_owned(),
        cache_root: Some("/cache".to_owned()),
        json: false,
        detail: Detail::Full,
    };
    let ask = |log: &Vec<Reply>| {
        let mut session = Session::new(log);
        cli::run(&mut session, cli::parse(&args).expect("a command"), &setting)
    };
    assert!(matches!(
        ask(&Vec::new()),
        Err(Stop::Ask(Request::Print(text))) if text == cli::USAGE
    ));
    assert!(matches!(ask(&vec![Reply::Done]), Ok(exit::CLEAN)));
    assert!(matches!(ask(&vec![Reply::Done, Reply::Flag(true)]), Ok(exit::CLEAN)));
}

#[test]
fn a_conflicted_file_that_is_gone_has_no_hunks() {
    let mut world = World::new();
    world.stops = true;
    world.unreadable = Some(Reason::Missing);
    let code = world.run(&["--keep", "rebase", "main"]).expect("rehearsed");
    assert_eq!(code, exit::STOPPED);
    assert!(
        world.printed.contains("  config.toml  no text hunks (binary, or add/add)\n"),
        "{}",
        world.printed
    );

    world.run(&["--json", "show"]).expect("shown");
    let Some(Document::Report(report)) = world.documents.pop() else {
        panic!("no report");
    };
    assert_eq!(report.conflicts.len(), 1);
    assert_eq!(report.conflicts[0].path, "config.toml");
    assert_eq!(report.conflicts[0].hunks, 0);
}

#[test]
fn a_conflicted_file_that_cannot_be_read_is_an_error() {
    for reason in [Reason::Other, Reason::NotADirectory, Reason::Busy] {
        let mut world = World::new();
        world.stops = true;
        world.unreadable = Some(reason);
        let error = world
            .run(&["--keep", "rebase", "main"])
            .expect_err("it cannot be examined");
        let Error::Io(path, message) = &error else {
            panic!("{error:?}");
        };
        assert!(
            path.starts_with(SANDBOX) && path.ends_with("/1786178829-00/sandbox/config.toml"),
            "{path}"
        );
        assert_eq!(message, "Permission denied");
        assert_eq!(cli::code_for(&Err(error)), exit::INTERNAL);
    }
}
