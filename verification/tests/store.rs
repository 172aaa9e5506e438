use std::collections::BTreeMap;

use git_rehearse::carry::{Carry, Replay};
use git_rehearse::error::Error;
use git_rehearse::execute::Outcome;
use git_rehearse::refs::RefMap;
use git_rehearse::sandbox::lifecycle::promotion_commands;
use git_rehearse::sandbox::{
    find, list, prune, Checkout, Meta, Status, DEFAULT_TTL_SECS, META_SCHEMA,
};
use git_rehearse::session::{Ended, Kind, Reason, Reply, Request, Session, Stop, Trouble};

const NOW: u64 = 1_786_248_000;
const DAY: u64 = 86_400;

/// A cache of rehearsals of one repository.
#[derive(Default)]
struct Cache {
    /// The text of each `meta.json`, by the rehearsal's directory name.
    texts: BTreeMap<String, String>,
    /// What each such text decodes to.
    metas: BTreeMap<String, Meta>,
    /// Directories without metadata, and when they were modified.
    bare: BTreeMap<String, u64>,
    /// The text of the repository's journal.
    journal: Option<String>,
    removed: Vec<String>,
    written: Vec<String>,
}

fn missing() -> Reply {
    Reply::Failed(Trouble {
        reason: Reason::Missing,
        message: "No such file or directory".to_owned(),
    })
}

fn sample(id: &str, created_unix: u64, status: Status) -> Meta {
    let mut pre_state = RefMap::new();
    pre_state.insert("refs/heads/main".to_owned(), "abc123".to_owned());
    Meta {
        schema: META_SCHEMA,
        id: id.to_owned(),
        repo_id: "app-0123456789abcdef".to_owned(),
        repo_path: "/repos/app".to_owned(),
        origin: None,
        command: vec!["rebase".to_owned(), "main".to_owned()],
        checkout: Checkout::Branch("feature".to_owned()),
        pre_state,
        carry: None,
        created_unix,
        status,
        result: Some(Outcome::Clean),
        extensions: vec![("later".to_owned(), "true".to_owned())],
    }
}

impl Cache {
    fn add(&mut self, id: &str, created_unix: u64, status: Status) {
        self.texts
            .insert(id.to_owned(), format!("{{\"schema\": {META_SCHEMA}}}"));
        self.metas
            .insert(id.to_owned(), sample(id, created_unix, status));
    }

    fn names(&self) -> Vec<String> {
        self.texts.keys().chain(self.bare.keys()).cloned().collect()
    }

    /// The directory name in a path inside the repository's cache directory.
    fn id_in(path: &str) -> Option<String> {
        path.strip_prefix("/cache/app/")
            .map(|rest| rest.split('/').next().unwrap_or(rest).to_owned())
    }

    fn perform(&mut self, request: Request, decoding: &mut Option<String>) -> Reply {
        match request {
            Request::List(path) if path == "/cache" => Reply::Names(vec!["app".to_owned()]),
            Request::List(path) if path == "/cache/app" => Reply::Names(self.names()),
            Request::Kind(path) if path == "/repos/app/.git/rehearse-apply" => {
                match self.journal {
                    Some(_) => Reply::Kind(Kind::File),
                    None => missing(),
                }
            }
            Request::Kind(_) => Reply::Kind(Kind::Directory),
            Request::ReadText(path) if path == "/repos/app/.git/rehearse-apply" => {
                Reply::Text(self.journal.clone().expect("a journal"))
            }
            Request::ReadText(path) => {
                let id = Self::id_in(&path).expect("inside the cache");
                *decoding = Some(id.clone());
                match self.texts.get(&id) {
                    Some(text) => Reply::Text(text.clone()),
                    None => missing(),
                }
            }
            Request::Target(path) => {
                let id = Self::id_in(&path).expect("inside the cache");
                match self.texts.get(&id) {
                    Some(_) => Reply::Kind(Kind::File),
                    None => missing(),
                }
            }
            Request::DecodeMeta(_, bare) => {
                let id = decoding.clone().expect("read before");
                match self.metas.get(&id) {
                    Some(meta) => {
                        let mut meta = meta.copy();
                        if bare {
                            meta.carry = None;
                        }
                        Reply::Meta(meta)
                    }
                    None => Reply::Failed(Trouble {
                        reason: Reason::Other,
                        message: "missing field `id`".to_owned(),
                    }),
                }
            }
            Request::EncodeMeta(meta) => {
                self.metas.insert(meta.id.clone(), meta);
                Reply::Text("{}".to_owned())
            }
            Request::WriteSynced(path, _) => {
                self.written.push(path);
                Reply::Done
            }
            Request::Rename(_, _) | Request::RemoveDir(_) => Reply::Done,
            Request::Modified(path) => {
                Reply::Number(self.bare[&Self::id_in(&path).expect("inside the cache")])
            }
            Request::RemoveTree(path) => {
                self.removed.push(path);
                Reply::Done
            }
            Request::Git { args, .. } if args[0] == "rev-parse" => Reply::Ended(Ended {
                code: Some(0),
                stdout: b".git/rehearse-apply\n".to_vec(),
                stderr: Vec::new(),
            }),
            other => panic!("nobody asks for this here: {other:?}"),
        }
    }

    fn drive<T>(
        &mut self,
        procedure: impl Fn(&mut Session) -> Result<T, Stop>,
    ) -> Result<T, Error> {
        let mut log: Vec<Reply> = Vec::new();
        let mut decoding = None;
        loop {
            let stop = {
                let mut session = Session::new(&log);
                match procedure(&mut session) {
                    Ok(value) => return Ok(value),
                    Err(stop) => stop,
                }
            };
            match stop {
                Stop::Fail(error) => return Err(error),
                Stop::Ask(request) => {
                    let reply = self.perform(request, &mut decoding);
                    log.push(reply);
                }
            }
        }
    }

    fn listed(&mut self) -> Vec<String> {
        self.drive(|session| list(session, "/cache", &Some("app".to_owned())))
            .expect("listed")
            .iter()
            .map(|sandbox| sandbox.id().to_owned())
            .collect()
    }

    fn found(&mut self, id: Option<&str>) -> Result<String, Error> {
        let id = id.map(str::to_owned);
        self.drive(|session| find(session, "/cache", "app", &id))
            .map(|sandbox| sandbox.id().to_owned())
    }
}

#[test]
fn rehearsals_are_listed_oldest_first() {
    let mut cache = Cache::default();
    cache.add("9-00", 9, Status::Kept);
    cache.add("10-01", 10, Status::Kept);
    cache.add("10-00", 10, Status::Fresh);
    assert_eq!(cache.listed(), vec!["9-00", "10-00", "10-01"]);
}

#[test]
fn an_id_is_any_unambiguous_beginning_and_none_is_the_newest() {
    let mut cache = Cache::default();
    assert!(matches!(cache.found(None), Err(Error::Refused(_))));
    cache.add("1786-00", 10, Status::Kept);
    cache.add("1786-01", 11, Status::Kept);
    cache.add("1799-00", 9, Status::Kept);
    assert_eq!(cache.found(None).expect("the newest"), "1786-01");
    assert_eq!(cache.found(Some("1799")).expect("one"), "1799-00");
    assert_eq!(cache.found(Some("1786-00")).expect("one"), "1786-00");
    let error = cache.found(Some("1786")).expect_err("two");
    assert!(error.to_string().contains('2'), "{}", error.to_string());
    let error = cache.found(Some("2")).expect_err("none");
    assert!(error.to_string().contains('2'), "{}", error.to_string());
}

#[test]
fn only_what_is_old_and_not_wanted_is_pruned() {
    let old = NOW - 8 * DAY;
    let mut cache = Cache::default();
    cache.add("old", old, Status::Fresh);
    cache.add("kept", old, Status::Kept);
    cache.add("young", NOW - DAY, Status::Fresh);
    cache.add("edge", NOW - DEFAULT_TTL_SECS, Status::Fresh);
    cache.add("future", NOW + DAY, Status::Fresh);
    cache.bare.insert("interrupted".to_owned(), old);
    cache.bare.insert("starting".to_owned(), NOW);
    cache
        .texts
        .insert("corrupt".to_owned(), "not json".to_owned());
    let gone = cache
        .drive(|session| prune(session, "/cache", NOW, DEFAULT_TTL_SECS))
        .expect("pruned");
    assert_eq!(gone, vec!["interrupted", "old"]);
    assert_eq!(
        cache.removed,
        vec!["/cache/app/interrupted", "/cache/app/old"]
    );
}

#[test]
fn a_rehearsal_that_recovery_needs_is_not_pruned() {
    let mut cache = Cache::default();
    cache.add("old", NOW - 8 * DAY, Status::Fresh);
    cache.add("other", NOW - 8 * DAY, Status::Fresh);
    cache.journal = Some("{\"rehearsal\": \"old\"}".to_owned());
    let gone = cache
        .drive(|session| prune(session, "/cache", NOW, DEFAULT_TTL_SECS))
        .expect("pruned");
    assert_eq!(gone, vec!["other"]);

    cache.removed.clear();
    cache.journal = Some("damaged".to_owned());
    let gone = cache
        .drive(|session| prune(session, "/cache", NOW, DEFAULT_TTL_SECS))
        .expect("pruned");
    assert!(gone.is_empty(), "{gone:?}");
}

#[test]
fn the_first_schema_is_migrated_and_an_unknown_one_is_refused() {
    let mut cache = Cache::default();
    cache.add("1-00", 1, Status::Kept);
    cache
        .texts
        .insert("1-00".to_owned(), "{\"schema\": 1}".to_owned());
    if let Some(meta) = cache.metas.get_mut("1-00") {
        meta.schema = 1;
        meta.carry = Some(Carry {
            snapshot: "s".to_owned(),
            paths: Vec::new(),
            replay: Some(Replay::NotNeeded),
        });
    }
    let meta = cache
        .drive(|session| Meta::read(session, "/cache/app/1-00"))
        .expect("migrated");
    assert_eq!(meta.schema, META_SCHEMA);
    assert!(meta.carry.is_none());
    assert_eq!(meta.extensions, vec![("later".to_owned(), "true".to_owned())]);
    assert_eq!(cache.written, vec!["/cache/app/1-00/meta.json.tmp"]);

    cache.written.clear();
    cache
        .texts
        .insert("1-00".to_owned(), "{\"schema\": 2}".to_owned());
    cache
        .drive(|session| Meta::read(session, "/cache/app/1-00"))
        .expect("readable as it is");
    assert!(cache.written.is_empty(), "and not rewritten");

    cache
        .texts
        .insert("1-00".to_owned(), "{\"schema\": 9}".to_owned());
    let error = cache
        .drive(|session| Meta::read(session, "/cache/app/1-00"))
        .expect_err("unknown");
    assert_eq!(
        error.to_string(),
        "/cache/app/1-00/meta.json: rehearsal uses meta schema 9, this build understands 3 — upgrade git-rehearse, or discard the rehearsal"
    );

    cache
        .texts
        .insert("1-00".to_owned(), "{\"schema\": \"3\"}".to_owned());
    let error = cache
        .drive(|session| Meta::read(session, "/cache/app/1-00"))
        .expect_err("no number");
    assert_eq!(
        error.to_string(),
        "/cache/app/1-00/meta.json: rehearsal metadata has no numeric schema"
    );

    cache
        .texts
        .insert("1-00".to_owned(), "rubbish".to_owned());
    let error = cache
        .drive(|session| Meta::read(session, "/cache/app/1-00"))
        .expect_err("no document");
    assert!(matches!(error, Error::Meta(_, _)), "{error:?}");
}

#[test]
fn every_remote_branch_becomes_a_local_one() {
    let mut remote = RefMap::new();
    let mut local = RefMap::new();
    for (name, sha) in [("HEAD", "0"), ("feature", "1"), ("main", "2")] {
        remote.insert(name.to_owned(), sha.to_owned());
    }
    local.insert("main".to_owned(), "9".to_owned());
    assert_eq!(
        promotion_commands(&remote, &local),
        "create refs/heads/feature\x001\0update refs/heads/main\x002\x009\0"
    );
}
