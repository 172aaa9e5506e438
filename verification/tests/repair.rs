use std::collections::BTreeMap;

use git_rehearse::analyze::RefMove;
use git_rehearse::collision::{check_reset, check_restore};
use git_rehearse::error::Error;
use git_rehearse::recovery::journal::{read, write_atomic_exclusive, Journal, StoredJournal};
use git_rehearse::recovery::{
    acquire, complete, ensure_clear, inspect, prepare, prepare_undo, recover, recover_for,
    refs_applied, worktree_updated, Action, Operation, Phase, Recovered, State,
};
use git_rehearse::session::{Ended, Kind, Reason, Reply, Request, Session, Stop, Trouble};
use git_rehearse::undo::{render, Record};

const REPO: &str = "/work/report";
const JOURNAL: &str = "/work/report/.git/rehearse-apply";
const UNDO: &str = "/work/report/.git/rehearse-undo";
const OLD: &str = "aaaaaaaaaaaaaaaaaaaaaaaaaaaaaaaaaaaaaaaa";
const NEW: &str = "bbbbbbbbbbbbbbbbbbbbbbbbbbbbbbbbbbbbbbbb";
const ELSEWHERE: &str = "cccccccccccccccccccccccccccccccccccccccc";

/// What a path can name here.
#[derive(Clone, Debug, PartialEq)]
enum Node {
    Directory,
    File(Vec<u8>),
    Link(String),
}

/// A repository on a disk of its own.
#[derive(Default)]
struct World {
    refs: BTreeMap<String, String>,
    branch: Option<String>,
    /// The commit that index and worktree are at.
    worktree: String,
    disk: BTreeMap<String, Node>,
    stored: Vec<StoredJournal>,
    temporaries: usize,
    locked: bool,
    busy: bool,
    /// The commit that a comparison index holds.
    loaded: String,
    /// The paths that a reset or restore writes in the probe.
    overwrites: Vec<String>,
    /// The paths that the probe knows.
    known: Vec<String>,
    /// What stands between paths in an environment variable, where they can be
    /// joined.
    separator: Option<char>,
    /// The object directories that the probe is told of.
    alternates: Vec<String>,
    asked: Vec<String>,
}

fn trouble(reason: Reason, message: &str) -> Reply {
    Reply::Failed(Trouble {
        reason,
        message: message.to_owned(),
    })
}

fn missing() -> Reply {
    trouble(Reason::Missing, "No such file or directory")
}

fn said(text: &str) -> Reply {
    Reply::Ended(Ended {
        code: Some(0),
        stdout: text.as_bytes().to_vec(),
        stderr: Vec::new(),
    })
}

fn refused(text: &str) -> Reply {
    Reply::Ended(Ended {
        code: Some(1),
        stdout: Vec::new(),
        stderr: text.as_bytes().to_vec(),
    })
}

impl World {
    fn new() -> World {
        let mut world = World {
            branch: Some("main".to_owned()),
            worktree: OLD.to_owned(),
            separator: Some(':'),
            ..World::default()
        };
        world
            .refs
            .insert("refs/heads/feature".to_owned(), OLD.to_owned());
        world.refs.insert("refs/heads/main".to_owned(), OLD.to_owned());
        for dir in ["/work", REPO, "/work/report/.git"] {
            world.disk.insert(dir.to_owned(), Node::Directory);
        }
        world
            .disk
            .insert("/work/report/.git/index".to_owned(), Node::File(Vec::new()));
        world
    }

    fn transaction(&mut self, input: &str) -> Reply {
        let fields: Vec<&str> = input.split('\0').collect();
        let mut next = self.refs.clone();
        let mut i = 0;
        while i < fields.len() && !fields[i].is_empty() {
            let (verb, name) = fields[i].split_once(' ').expect("a command");
            assert_eq!(verb, "update", "{input:?}");
            if next.get(name).map(String::as_str) != Some(fields[i + 2]) {
                return refused("fatal: cannot lock ref");
            }
            next.insert(name.to_owned(), fields[i + 1].to_owned());
            i += 3;
        }
        self.refs = next;
        said("")
    }

    fn git(&mut self, dir: &str, args: &[String], input: Option<&str>) -> Reply {
        let words: Vec<&str> = args.iter().map(String::as_str).collect();
        let probe = dir != REPO && dir.starts_with("/work/.");
        match words.as_slice() {
            ["rev-parse", "--absolute-git-dir"] => said(&format!("{dir}/.git\n")),
            ["rev-parse", "--git-path", name] => said(&format!("{dir}/.git/{name}\n")),
            ["rev-parse", "--show-object-format"] => said("sha1\n"),
            ["rev-parse", "--verify", "HEAD"] => said(&format!("{OLD}\n")),
            ["rev-parse", "--verify", name] => match self.refs.get(*name) {
                Some(sha) => said(&format!("{sha}\n")),
                None => said(&format!("{name}\n")),
            },
            ["rev-parse", name] if name.ends_with("^{tree}") => said(&format!("tree-{name}\n")),
            ["symbolic-ref", "--quiet", "--short", "HEAD"] => match &self.branch {
                Some(branch) => said(&format!("{branch}\n")),
                None => refused(""),
            },
            ["for-each-ref", _, pattern] => {
                let mut listing = String::new();
                for (name, sha) in &self.refs {
                    if name.starts_with(pattern) {
                        listing.push_str(&format!("{sha} {name}\n"));
                    }
                }
                said(&listing)
            }
            ["hash-object", "--stdin"] => {
                let text = input.expect("a text");
                let sum: u64 = text
                    .bytes()
                    .fold(7, |sum, byte| sum.wrapping_mul(31).wrapping_add(u64::from(byte)));
                said(&format!("{sum:016x}\n"))
            }
            ["update-ref", "-m", _, "--stdin", "-z"] => {
                let input = input.expect("commands").to_owned();
                self.transaction(&input)
            }
            ["update-ref", "-d", name] => {
                self.refs.remove(*name);
                said("")
            }
            ["write-tree"] => said(&format!("tree-{}^{{tree}}\n", self.worktree)),
            ["read-tree", "--reset", commit] => {
                self.loaded = (*commit).to_owned();
                said("")
            }
            ["diff-files", "--quiet"] => {
                if self.loaded == self.worktree {
                    said("")
                } else {
                    refused("")
                }
            }
            ["reset", "--hard", ..] | ["read-tree", "-u", ..] if probe => {
                for path in self.overwrites.clone() {
                    let path = format!("{dir}/{path}");
                    self.disk.remove(&path);
                }
                said("")
            }
            ["reset", "--hard", "--quiet"] => {
                let branch = self.branch.clone().expect("a branch");
                self.worktree = self.refs[&format!("refs/heads/{branch}")].clone();
                said("")
            }
            ["status", ..] => said(""),
            ["config", "--local", ..] | ["config", "--type=bool", ..] | ["config", "--get", ..] => {
                refused("")
            }
            ["ls-files", "-z", "--cached"] => {
                let mut listing = String::new();
                for path in &self.known {
                    listing.push_str(path);
                    listing.push('\0');
                }
                said(&listing)
            }
            ["ls-files" | "ls-tree" | "init" | "checkout" | "config" | "read-tree" | "update-index" | "cat-file" | "diff" | "show", ..] => {
                said("")
            }
            _ => panic!("no such git command here: {words:?}"),
        }
    }

    fn kind(&self, path: &str) -> Reply {
        match self.disk.get(path) {
            Some(Node::Directory) => Reply::Kind(Kind::Directory),
            Some(Node::File(_)) => Reply::Kind(Kind::File),
            Some(Node::Link(_)) => Reply::Kind(Kind::Symlink),
            None => missing(),
        }
    }

    fn remove_tree(&mut self, path: &str) {
        let below = format!("{path}/");
        self.disk
            .retain(|name, _| name != path && !name.starts_with(&below));
    }

    fn perform(&mut self, request: Request) -> Reply {
        self.asked.push(match &request {
            Request::Git { dir, args, .. } => format!("{dir}$ git {}", args.join(" ")),
            other => format!("{other:?}"),
        });
        match request {
            Request::Git {
                dir,
                args,
                input,
                env,
                ..
            } => {
                for (name, value) in &env {
                    if name == "GIT_ALTERNATE_OBJECT_DIRECTORIES" {
                        self.alternates.push(value.clone());
                    }
                }
                self.git(&dir, &args, input.as_deref())
            }
            Request::Canonicalize(path) => Reply::Text(path),
            Request::JoinPaths(first, second) => match self.separator {
                Some(separator) => Reply::Text(format!("{first}{separator}{second}")),
                None => trouble(Reason::Other, "path segment contains separator `:`"),
            },
            Request::ProcessId => Reply::Number(42),
            Request::Lock(_) => {
                if self.busy {
                    return trouble(Reason::Busy, "busy");
                }
                assert!(!self.locked, "locked once at a time");
                self.locked = true;
                Reply::Done
            }
            Request::Unlock(_) => {
                assert!(self.locked);
                self.locked = false;
                Reply::Done
            }
            Request::Target(path) | Request::Kind(path) => self.kind(&path),
            Request::ReadText(path) => match self.disk.get(&path) {
                Some(Node::File(bytes)) => {
                    Reply::Text(String::from_utf8(bytes.clone()).expect("a text"))
                }
                _ => missing(),
            },
            Request::ReadBytes(path) => match self.disk.get(&path) {
                Some(Node::File(bytes)) => Reply::Bytes(bytes.clone()),
                _ => missing(),
            },
            Request::ReadLink(path) => match self.disk.get(&path) {
                Some(Node::Link(target)) => Reply::Text(target.clone()),
                _ => missing(),
            },
            Request::Write(path, bytes) | Request::WriteSynced(path, bytes) => {
                self.disk.insert(path, Node::File(bytes));
                Reply::Done
            }
            Request::SyncDir(_) => Reply::Done,
            Request::Rename(from, to) => match self.disk.remove(&from) {
                Some(node) => {
                    self.disk.insert(to, node);
                    Reply::Done
                }
                None => missing(),
            },
            Request::HardLink(from, to) => {
                if self.disk.contains_key(&to) {
                    return trouble(Reason::Exists, "File exists");
                }
                let node = self.disk[&from].clone();
                self.disk.insert(to, node);
                Reply::Done
            }
            Request::Copy(from, to) => match self.disk.get(&from).cloned() {
                Some(node) => {
                    self.disk.insert(to, node);
                    Reply::Done
                }
                None => missing(),
            },
            Request::Symlink(target, path, _) => {
                self.disk.insert(path, Node::Link(target));
                Reply::Done
            }
            Request::RemoveFile(path) => match self.disk.remove(&path) {
                Some(_) => Reply::Done,
                None => missing(),
            },
            Request::RemoveDir(path) | Request::RemoveTree(path) => {
                self.remove_tree(&path);
                Reply::Done
            }
            Request::CreateDir(path) | Request::CreateDirs(path) => {
                self.disk.insert(path, Node::Directory);
                Reply::Done
            }
            Request::List(path) => {
                let head = format!("{path}/");
                Reply::Names(
                    self.disk
                        .keys()
                        .filter_map(|name| name.strip_prefix(&head))
                        .filter(|name| !name.contains('/'))
                        .map(str::to_owned)
                        .collect(),
                )
            }
            Request::TempDir(parent, prefix) => {
                self.temporaries += 1;
                let path = format!("{parent}/{prefix}{}", self.temporaries);
                self.disk.insert(path.clone(), Node::Directory);
                if prefix.starts_with(".git-rehearse") {
                    for inner in [".git", ".git/index"] {
                        let node = if inner == ".git" {
                            Node::Directory
                        } else {
                            Node::File(Vec::new())
                        };
                        self.disk.insert(format!("{path}/{inner}"), node);
                    }
                }
                Reply::Text(path)
            }
            Request::TempFile(parent, prefix) => {
                self.temporaries += 1;
                let path = format!("{parent}/{prefix}{}", self.temporaries);
                self.disk.insert(path.clone(), Node::File(Vec::new()));
                Reply::Text(path)
            }
            Request::DropTemp(path) => {
                self.remove_tree(&path);
                Reply::Done
            }
            Request::EncodeJournal(journal) => Reply::Text(format!("{journal:?}")),
            Request::EncodeStored(stored) => {
                self.stored.push(stored);
                Reply::Bytes(format!("journal {}", self.stored.len() - 1).into_bytes())
            }
            Request::DecodeJournal(text) => {
                match text.strip_prefix("journal ").and_then(|at| at.parse::<usize>().ok()) {
                    Some(at) => Reply::Journal(self.stored[at].copy()),
                    None => trouble(Reason::Other, "expected value at line 1 column 1"),
                }
            }
            other => panic!("nobody asks for this here: {other:?}"),
        }
    }

    /// Runs a procedure to its end.
    fn drive<T>(
        &mut self,
        procedure: impl Fn(&mut Session) -> Result<T, Stop>,
    ) -> Result<T, Error> {
        self.asked.clear();
        let mut log: Vec<Reply> = Vec::new();
        loop {
            let stop = {
                let mut session = Session::new(&log);
                match procedure(&mut session) {
                    Ok(value) => return Ok(value),
                    Err(stop) => stop,
                }
            };
            match stop {
                Stop::Fail(error) => return Err(error),
                Stop::Ask(request) => {
                    let reply = self.perform(request);
                    log.push(reply);
                }
            }
        }
    }

    fn position(&self, part: &str) -> usize {
        self.asked
            .iter()
            .position(|asked| asked.contains(part))
            .unwrap_or_else(|| panic!("nobody asked for {part}: {:#?}", self.asked))
    }

    /// An apply of the feature branch, written down and not begun.
    fn prepared(&mut self, checkout: Option<&str>) {
        let record = record();
        let path = self
            .drive(|session| {
                prepare(
                    session,
                    REPO,
                    &record,
                    checkout,
                    "refs/rehearse/1786178829-00/",
                    OLD,
                )
            })
            .expect("nothing is in the way");
        assert_eq!(path, JOURNAL);
        assert!(!self.locked, "the lock is let go of");
    }

    /// The refs as that apply leaves them.
    fn applied(&mut self) {
        self.disk.insert(
            UNDO.to_owned(),
            Node::File(render(&record()).into_bytes()),
        );
        self.refs
            .insert("refs/heads/feature".to_owned(), NEW.to_owned());
        self.refs.insert(
            "refs/rehearse/1786178829-00/feature".to_owned(),
            NEW.to_owned(),
        );
    }

    fn recover(&mut self, action: Action) -> Result<Recovered, Error> {
        self.drive(|session| recover(session, REPO, action))
    }
}

fn record() -> Record {
    Record {
        rehearsal: "1786178829-00".to_owned(),
        applied_at_unix: 1_786_178_954,
        refs: vec![RefMove {
            name: "refs/heads/feature".to_owned(),
            before: Some(OLD.to_owned()),
            after: Some(NEW.to_owned()),
        }],
    }
}

fn refusal<T>(outcome: Result<T, Error>) -> String {
    match outcome {
        Err(Error::Refused(message)) => message,
        Err(other) => panic!("not a refusal: {other:?}"),
        Ok(_) => panic!("it was not refused"),
    }
}

#[test]
fn the_way_is_clear_where_there_is_no_journal() {
    let mut world = World::new();
    world
        .drive(|session| ensure_clear(session, REPO))
        .expect("nothing is unfinished");
    let found = world
        .drive(|session| inspect(session, REPO))
        .expect("nothing to see");
    assert!(found.is_none());
    assert_eq!(
        refusal(world.recover(Action::Inspect)),
        "no interrupted apply requires recovery; no recovery action was done"
    );
}

#[test]
fn a_live_operation_blocks_everything_else() {
    let mut world = World::new();
    world.busy = true;
    let message = refusal(world.drive(|session| acquire(session, REPO)));
    assert_eq!(
        message,
        "apply recovery is blocked: another process owns the live apply journal at /work/report/.git/rehearse-apply.lock; no repository mutation was performed"
    );
}

#[test]
fn an_apply_that_did_not_begin_can_be_rolled_back() {
    let mut world = World::new();
    world.prepared(None);
    let before = world.refs.clone();

    let found = world.recover(Action::Inspect).expect("readable").inspection;
    assert_eq!(found.state, State::BeforeRefChange);
    assert_eq!(found.phase, Phase::Prepared);
    assert_eq!(found.operation, Operation::Apply);
    assert_eq!(found.rehearsal, "1786178829-00");
    assert_eq!(found.origin, REPO);
    assert_eq!(found.journal, JOURNAL);
    assert!(found.can_rollback);
    assert!(!found.can_complete);
    assert!(world.disk.contains_key(JOURNAL), "looking leaves the journal");

    let blocked = refusal(world.drive(|session| ensure_clear(session, REPO)));
    assert_eq!(
        blocked,
        "apply recovery is required for rehearsal 1786178829-00: observed before_ref_change after journal phase Prepared. No repository mutation is allowed until it is resolved. Use `git rehearse recover --complete 1786178829-00` or `git rehearse recover --rollback 1786178829-00`; if the state is ambiguous, preserve the work and resolve it by hand."
    );

    let done = world.recover(Action::Rollback).expect("rolled back");
    assert_eq!(done.action, Action::Rollback);
    assert_eq!(world.refs, before);
    assert!(!world.disk.contains_key(JOURNAL));
    assert!(!world.disk.contains_key(UNDO));
}

#[test]
fn an_apply_that_went_through_is_settled_by_the_next_command() {
    let mut world = World::new();
    world.prepared(None);
    world.applied();
    world
        .drive(|session| refs_applied(session, JOURNAL))
        .expect("advanced");
    let journal = world
        .drive(|session| read(session, JOURNAL))
        .expect("readable");
    assert_eq!(journal.phase, Phase::RefsApplied);

    world
        .drive(|session| ensure_clear(session, REPO))
        .expect("complete as it is");
    assert!(!world.disk.contains_key(JOURNAL));
    assert_eq!(world.refs["refs/heads/feature"], NEW);
}

#[test]
fn a_rollback_is_written_down_before_a_ref_moves() {
    let mut world = World::new();
    world.prepared(None);
    world.applied();

    world.recover(Action::Rollback).expect("rolled back");

    assert!(world.position("EncodeStored") < world.position("update-ref -m git-rehearse recovery"));
    assert!(
        world
            .stored
            .iter()
            .any(|stored| stored.journal.phase == Phase::RollingBack),
        "the turn is durable"
    );
    assert_eq!(world.refs["refs/heads/feature"], OLD);
    assert!(!world.refs.contains_key("refs/rehearse/1786178829-00/feature"));
    assert!(!world.disk.contains_key(UNDO), "there was no record before");
    assert!(!world.disk.contains_key(JOURNAL));
}

#[test]
fn an_ambiguous_state_is_left_alone() {
    let mut world = World::new();
    world.prepared(None);
    world.applied();
    world
        .refs
        .insert("refs/heads/feature".to_owned(), ELSEWHERE.to_owned());
    let (refs, disk) = (world.refs.clone(), world.disk.clone());

    let found = world.recover(Action::Inspect).expect("readable").inspection;
    assert_eq!(found.state, State::Ambiguous);
    assert!(!found.can_complete && !found.can_rollback);

    for action in [Action::Complete, Action::Rollback] {
        let message = refusal(world.recover(action));
        assert!(message.contains("observed ambiguous"), "{message}");
        assert_eq!(world.refs, refs);
        assert_eq!(world.disk, disk);
    }
}

#[test]
fn another_rehearsal_is_not_recovered() {
    let mut world = World::new();
    world.prepared(None);
    let message = refusal(world.drive(|session| {
        recover_for(session, REPO, Action::Rollback, Some("1799"))
    }));
    assert!(message.contains("1799"), "{message}");
    world
        .drive(|session| recover_for(session, REPO, Action::Rollback, Some("1786")))
        .expect("the beginning of the id will do");
}

#[test]
fn the_worktree_of_a_checkout_follows_a_completed_apply() {
    let mut world = World::new();
    world.branch = Some("feature".to_owned());
    world.prepared(Some("feature"));
    world.applied();

    let found = world.recover(Action::Inspect).expect("readable").inspection;
    assert_eq!(found.state, State::AfterRefChange);
    assert!(found.can_complete && found.can_rollback, "{:#?}", world.asked);

    let done = world.recover(Action::Complete).expect("completed");
    assert_eq!(done.action, Action::Complete);
    assert_eq!(world.worktree, NEW);
    assert_eq!(world.refs["refs/heads/feature"], NEW);
    assert!(!world.disk.contains_key(JOURNAL));
    assert!(world.disk.contains_key(UNDO), "the apply can still be undone");
}

#[test]
fn the_worktree_of_a_checkout_follows_a_rollback() {
    let mut world = World::new();
    world.branch = Some("feature".to_owned());
    world.prepared(Some("feature"));
    world.applied();
    world.worktree = NEW.to_owned();

    let found = world.recover(Action::Inspect).expect("readable").inspection;
    assert_eq!(found.state, State::Complete);
    world.recover(Action::Rollback).expect("rolled back");
    assert_eq!(world.worktree, OLD);
    assert_eq!(world.refs["refs/heads/feature"], OLD);
}

#[test]
fn a_worktree_that_was_changed_since_is_ambiguous() {
    let mut world = World::new();
    world.branch = Some("feature".to_owned());
    world.prepared(Some("feature"));
    world.applied();
    world.worktree = ELSEWHERE.to_owned();
    let found = world.recover(Action::Inspect).expect("readable").inspection;
    assert_eq!(found.state, State::Ambiguous);
}

#[test]
fn phases_advance_one_by_one_and_the_journal_goes_last() {
    let mut world = World::new();
    world.prepared(None);
    world.applied();
    for (phase, name) in [
        (Phase::RefsApplied, "refs_applied"),
        (Phase::WorktreeUpdated, "worktree_updated"),
        (Phase::Complete, "complete"),
    ] {
        world
            .drive(|session| match phase {
                Phase::RefsApplied => refs_applied(session, JOURNAL),
                Phase::WorktreeUpdated => worktree_updated(session, JOURNAL),
                _ => complete(session, JOURNAL),
            })
            .expect("advanced");
        let journal = world
            .drive(|session| read(session, JOURNAL))
            .expect("readable");
        assert_eq!(journal.phase.name(), name);
    }
}

#[test]
fn an_interrupted_undo_is_recovered_the_same_way() {
    let mut world = World::new();
    world.applied();
    let moved = vec![RefMove {
        name: "refs/heads/feature".to_owned(),
        before: Some(NEW.to_owned()),
        after: Some(OLD.to_owned()),
    }];
    world
        .drive(|session| prepare_undo(session, REPO, "1786178829-00", &moved, None, NEW))
        .expect("nothing is in the way");
    world
        .refs
        .insert("refs/heads/feature".to_owned(), OLD.to_owned());

    world
        .drive(|session| ensure_clear(session, REPO))
        .expect("complete as it is");
    assert!(!world.disk.contains_key(UNDO), "the record is used up");
    assert!(!world.disk.contains_key(JOURNAL));
}

#[test]
fn a_damaged_journal_is_refused_and_kept() {
    let mut world = World::new();
    world
        .disk
        .insert(JOURNAL.to_owned(), Node::File(b"rubbish".to_vec()));
    assert_eq!(
        refusal(world.drive(|session| read(session, JOURNAL))),
        "/work/report/.git/rehearse-apply is a damaged apply journal: expected value at line 1 column 1; recovery is blocked and the file will not be overwritten"
    );
    assert_eq!(world.disk[JOURNAL], Node::File(b"rubbish".to_vec()));

    let mut world = World::new();
    world.prepared(None);
    world.stored[0].checksum = "0".repeat(40);
    assert_eq!(
        refusal(world.drive(|session| read(session, JOURNAL))),
        "/work/report/.git/rehearse-apply has a damaged apply journal checksum; recovery is blocked and the file will not be overwritten"
    );
}

fn journal() -> Journal {
    Journal {
        schema: 1,
        rehearsal: "1786178829-00".to_owned(),
        origin: REPO.to_owned(),
        checkout: None,
        refs: Vec::new(),
        anchor: "refs/rehearse/1786178829-00/".to_owned(),
        worktree_before: OLD.to_owned(),
        worktree_after: None,
        local_before: None,
        previous_undo: None,
        expected_undo: None,
        rollback_undo: None,
        operation: Operation::Apply,
        phase: Phase::Prepared,
    }
}

#[test]
fn journal_publication_never_replaces_an_existing_owner() {
    let mut world = World::new();
    world
        .disk
        .insert(JOURNAL.to_owned(), Node::File(b"the owner".to_vec()));
    let journal = journal();
    let error = world
        .drive(|session| write_atomic_exclusive(session, JOURNAL, &journal))
        .expect_err("somebody else was first");
    assert!(matches!(error, Error::Io(_, _)), "{error:?}");
    assert_eq!(world.disk[JOURNAL], Node::File(b"the owner".to_vec()));
    assert!(
        !world.disk.keys().any(|name| name.contains(".rehearse-apply-")),
        "the temporary file is gone"
    );
}

#[test]
fn journal_publication_and_removal_sync_the_parent_directory() {
    let mut world = World::new();
    let journal = journal();
    world
        .drive(|session| write_atomic_exclusive(session, JOURNAL, &journal))
        .expect("published");
    assert!(world.position("HardLink") < world.position("SyncDir(\"/work/report/.git\")"));

    world
        .drive(|session| git_rehearse::recovery::journal::remove_journal(session, JOURNAL))
        .expect("removed");
    assert!(world.position("RemoveFile") < world.position("SyncDir(\"/work/report/.git\")"));
    assert!(!world.disk.contains_key(JOURNAL));
}

#[test]
fn a_reset_that_meets_nothing_is_let_through() {
    let mut world = World::new();
    world
        .disk
        .insert("/work/report/notes.txt".to_owned(), Node::File(b"mine".to_vec()));
    world
        .drive(|session| check_reset(session, REPO, REPO, "refs/heads/feature"))
        .expect("nothing is in the way");
    assert!(
        !world.disk.keys().any(|name| name.contains(".git-rehearse-apply-")),
        "the probe is gone"
    );
    assert_eq!(
        world.disk["/work/report/notes.txt"],
        Node::File(b"mine".to_vec())
    );
}

#[test]
fn a_reset_that_would_take_a_file_is_refused() {
    let mut world = World::new();
    world
        .disk
        .insert("/work/report/notes.txt".to_owned(), Node::File(b"mine".to_vec()));
    world.overwrites = vec!["notes.txt".to_owned()];
    let message = refusal(
        world.drive(|session| check_reset(session, REPO, REPO, "refs/heads/feature")),
    );
    assert!(message.contains("untracked"), "{message}");

    world.known = vec!["notes.txt".to_owned()];
    world
        .drive(|session| check_restore(session, REPO, REPO, "refs/heads/feature"))
        .expect("git knows that file, so it is no stranger");
}

#[test]
fn the_probe_sees_both_object_stores_in_the_way_of_the_system() {
    for separator in [':', ';'] {
        let mut world = World::new();
        world.separator = Some(separator);
        world
            .drive(|session| check_reset(session, REPO, REPO, "refs/heads/feature"))
            .expect("nothing is in the way");
        let objects = "/work/report/.git/objects";
        assert!(!world.alternates.is_empty());
        for alternates in &world.alternates {
            assert_eq!(*alternates, format!("{objects}{separator}{objects}"));
        }
    }

    let mut world = World::new();
    world.separator = None;
    let error = world
        .drive(|session| check_reset(session, REPO, REPO, "refs/heads/feature"))
        .expect_err("the paths cannot be joined");
    assert!(matches!(error, Error::Sandbox(_)), "{error:?}");
    assert_eq!(
        error.to_string(),
        "cannot configure collision probe: path segment contains separator `:`"
    );
    assert!(
        !world.disk.keys().any(|name| name.contains(".git-rehearse-apply-")),
        "the probe is gone"
    );
}
