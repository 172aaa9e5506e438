//! What the crate asks of the world outside it, and what it heard back.
//!
//! Nothing in this crate touches a file, starts a process or reads a clock. A
//! procedure that needs something of that kind asks for it with a [`Request`]
//! and is told with a [`Reply`]. It runs against a [`Session`], which holds
//! the replies so far: as long as the next one is there the procedure goes on
//! with it, and where it is not the procedure stops with the request. Whoever
//! drives it performs the request, puts the reply at the end of the list and
//! runs the procedure again from the start.
//!
//! So each procedure is a function of its arguments and of the replies, and
//! its contract says which requests it makes in which order, and what it
//! makes of each reply.

use vstd::prelude::*;

use crate::error::{Error, Fault};
use crate::json::{Document, DocumentModel};
use crate::recovery::journal::{Journal, JournalModel, StoredJournal, StoredModel};
use crate::sandbox::meta::{Meta, MetaModel};
use crate::text::Text;

verus! {

/// A request to the world outside.
#[derive(Debug)]
pub enum Request {
    /// Run git in `dir` and capture what it writes. The environment is the
    /// inherited one, without any `GIT_` variable where `clean` is set, and
    /// with `env` on top.
    Git {
        dir: String,
        args: Vec<String>,
        env: Vec<(String, String)>,
        clean: bool,
        input: Option<String>,
    },
    /// Run git in `dir` on the user's own terminal.
    Spawn { dir: String, args: Vec<String>, env: Vec<(String, String)> },
    /// Start a ref transaction in `dir`, feed it `commands` and prepare it, so
    /// that its locks are held.
    Prepare { dir: String, commands: String, message: String },
    /// Commit the ref transaction that was prepared last and is still open.
    Commit,
    /// Abandon the ref transaction that was prepared last and is still open.
    Abort,
    /// The whole text of a file.
    ReadText(String),
    /// The whole content of a file.
    ReadBytes(String),
    /// Write a file, replacing what was there.
    Write(String, Vec<u8>),
    /// Write a file and flush it to the disk.
    WriteSynced(String, Vec<u8>),
    /// Flush the entries of a directory to the disk.
    SyncDir(String),
    /// Give a file another name, replacing what has that name.
    Rename(String, String),
    /// Give a file a second name that nothing has yet.
    HardLink(String, String),
    /// Copy a file with its permissions.
    Copy(String, String),
    /// Create a symbolic link: what it points to, where it stands, and whether
    /// it points to a directory.
    Symlink(String, String, bool),
    /// What a symbolic link points to.
    ReadLink(String),
    /// Create one directory.
    CreateDir(String),
    /// Create a directory and those above it.
    CreateDirs(String),
    /// Remove a file or a symbolic link.
    RemoveFile(String),
    /// Remove an empty directory.
    RemoveDir(String),
    /// Remove a directory and everything in it.
    RemoveTree(String),
    /// The names in a directory.
    List(String),
    /// What kind of thing a path names, symbolic links not followed.
    Kind(String),
    /// What kind of thing a path leads to, symbolic links followed.
    Target(String),
    /// The canonical form of a path.
    Canonicalize(String),
    /// Two paths as one value of an environment variable that lists paths, in the
    /// system's own way.
    JoinPaths(String, String),
    /// When a path was modified last, in seconds since 1970.
    Modified(String),
    /// Create a fresh directory inside another, named with this prefix.
    TempDir(String, String),
    /// Create a fresh file inside a directory, named with this prefix.
    TempFile(String, String),
    /// Remove what was created as temporary.
    DropTemp(String),
    /// Take the exclusive lock on a file, creating it where it is missing.
    Lock(String),
    /// Let go of the lock on a file.
    Unlock(String),
    /// The number of this process.
    ProcessId,
    /// The path of this program.
    Program,
    /// Seconds since 1970.
    Now,
    /// Write a text to standard output.
    Print(String),
    /// Read one line from standard input, an empty one at its end.
    ReadLine,
    /// Whether standard input is a terminal.
    Terminal,
    /// The JSON document of a rehearsal's metadata.
    EncodeMeta(Meta),
    /// The metadata that a JSON document holds, its `carry` field left aside
    /// where the flag says so.
    DecodeMeta(String, bool),
    /// The JSON document that the checksum of a journal is taken of.
    EncodeJournal(Journal),
    /// The JSON document of a journal with its checksum, as it is stored.
    EncodeStored(StoredJournal),
    /// The journal and the checksum that a JSON document holds.
    DecodeJournal(String),
    /// Write a document to standard output as one line of JSON.
    Emit(Document),
}

/// The model of a [`Request`].
pub enum Ask {
    Git {
        dir: Text,
        args: Seq<Text>,
        env: Seq<(Text, Text)>,
        clean: bool,
        input: Option<Text>,
    },
    Spawn { dir: Text, args: Seq<Text>, env: Seq<(Text, Text)> },
    Prepare { dir: Text, commands: Text, message: Text },
    Commit,
    Abort,
    ReadText(Text),
    ReadBytes(Text),
    Write(Text, Seq<u8>),
    WriteSynced(Text, Seq<u8>),
    SyncDir(Text),
    Rename(Text, Text),
    HardLink(Text, Text),
    Copy(Text, Text),
    Symlink(Text, Text, bool),
    ReadLink(Text),
    CreateDir(Text),
    CreateDirs(Text),
    RemoveFile(Text),
    RemoveDir(Text),
    RemoveTree(Text),
    List(Text),
    Kind(Text),
    Target(Text),
    Canonicalize(Text),
    JoinPaths(Text, Text),
    Modified(Text),
    TempDir(Text, Text),
    TempFile(Text, Text),
    DropTemp(Text),
    Lock(Text),
    Unlock(Text),
    ProcessId,
    Program,
    Now,
    Print(Text),
    ReadLine,
    Terminal,
    EncodeMeta(MetaModel),
    DecodeMeta(Text, bool),
    EncodeJournal(JournalModel),
    EncodeStored(StoredModel),
    DecodeJournal(Text),
    Emit(DocumentModel),
}

impl DeepView for Request {
    type V = Ask;

    open spec fn deep_view(&self) -> Ask {
        match self {
            Request::Git { dir, args, env, clean, input } => Ask::Git {
                dir: dir@,
                args: args.deep_view(),
                env: env.deep_view(),
                clean: *clean,
                input: input.deep_view(),
            },
            Request::Spawn { dir, args, env } => Ask::Spawn {
                dir: dir@,
                args: args.deep_view(),
                env: env.deep_view(),
            },
            Request::Prepare { dir, commands, message } => Ask::Prepare {
                dir: dir@,
                commands: commands@,
                message: message@,
            },
            Request::Commit => Ask::Commit,
            Request::Abort => Ask::Abort,
            Request::ReadText(path) => Ask::ReadText(path@),
            Request::ReadBytes(path) => Ask::ReadBytes(path@),
            Request::Write(path, bytes) => Ask::Write(path@, bytes@),
            Request::WriteSynced(path, bytes) => Ask::WriteSynced(path@, bytes@),
            Request::SyncDir(path) => Ask::SyncDir(path@),
            Request::Rename(from, to) => Ask::Rename(from@, to@),
            Request::HardLink(from, to) => Ask::HardLink(from@, to@),
            Request::Copy(from, to) => Ask::Copy(from@, to@),
            Request::Symlink(target, path, directory) => Ask::Symlink(target@, path@, *directory),
            Request::ReadLink(path) => Ask::ReadLink(path@),
            Request::CreateDir(path) => Ask::CreateDir(path@),
            Request::CreateDirs(path) => Ask::CreateDirs(path@),
            Request::RemoveFile(path) => Ask::RemoveFile(path@),
            Request::RemoveDir(path) => Ask::RemoveDir(path@),
            Request::RemoveTree(path) => Ask::RemoveTree(path@),
            Request::List(path) => Ask::List(path@),
            Request::Kind(path) => Ask::Kind(path@),
            Request::Target(path) => Ask::Target(path@),
            Request::Canonicalize(path) => Ask::Canonicalize(path@),
            Request::JoinPaths(first, second) => Ask::JoinPaths(first@, second@),
            Request::Modified(path) => Ask::Modified(path@),
            Request::TempDir(parent, prefix) => Ask::TempDir(parent@, prefix@),
            Request::TempFile(parent, prefix) => Ask::TempFile(parent@, prefix@),
            Request::DropTemp(path) => Ask::DropTemp(path@),
            Request::Lock(path) => Ask::Lock(path@),
            Request::Unlock(path) => Ask::Unlock(path@),
            Request::ProcessId => Ask::ProcessId,
            Request::Program => Ask::Program,
            Request::Now => Ask::Now,
            Request::Print(text) => Ask::Print(text@),
            Request::ReadLine => Ask::ReadLine,
            Request::Terminal => Ask::Terminal,
            Request::EncodeMeta(meta) => Ask::EncodeMeta(meta.deep_view()),
            Request::DecodeMeta(text, bare) => Ask::DecodeMeta(text@, *bare),
            Request::EncodeJournal(journal) => Ask::EncodeJournal(journal.deep_view()),
            Request::EncodeStored(stored) => Ask::EncodeStored(stored.deep_view()),
            Request::DecodeJournal(text) => Ask::DecodeJournal(text@),
            Request::Emit(document) => Ask::Emit(document.deep_view()),
        }
    }
}

/// How a run of git ended.
#[derive(Debug)]
pub struct Ended {
    /// Exit status, or `None` if git was killed by a signal.
    pub code: Option<i32>,
    pub stdout: Vec<u8>,
    pub stderr: Vec<u8>,
}

/// The model of [`Ended`].
pub struct EndedModel {
    pub code: Option<i32>,
    pub stdout: Seq<u8>,
    pub stderr: Seq<u8>,
}

impl DeepView for Ended {
    type V = EndedModel;

    open spec fn deep_view(&self) -> EndedModel {
        EndedModel { code: self.code, stdout: self.stdout@, stderr: self.stderr@ }
    }
}

/// What a path can name.
#[derive(Debug, Clone, Copy, PartialEq, Eq, Structural)]
pub enum Kind {
    File,
    Directory,
    Symlink,
    Other,
}

impl DeepView for Kind {
    type V = Kind;

    open spec fn deep_view(&self) -> Kind {
        *self
    }
}

/// Why the system did not do what was asked.
#[derive(Debug, Clone, Copy, PartialEq, Eq, Structural)]
pub enum Reason {
    /// There is nothing there.
    Missing,
    /// Something is there already.
    Exists,
    /// A part of the path is not a directory.
    NotADirectory,
    /// Another process holds it.
    Busy,
    Other,
}

/// That the system did not do what was asked, and what it said.
#[derive(Debug)]
pub struct Trouble {
    pub reason: Reason,
    pub message: String,
}

/// The model of [`Trouble`].
pub struct TroubleModel {
    pub reason: Reason,
    pub message: Text,
}

impl DeepView for Trouble {
    type V = TroubleModel;

    open spec fn deep_view(&self) -> TroubleModel {
        TroubleModel { reason: self.reason, message: self.message@ }
    }
}

/// What came back on a request.
#[derive(Debug)]
pub enum Reply {
    Ended(Ended),
    Done,
    Text(String),
    Bytes(Vec<u8>),
    Names(Vec<String>),
    Kind(Kind),
    Flag(bool),
    Number(u64),
    Meta(Meta),
    Journal(StoredJournal),
    Failed(Trouble),
}

/// The model of a [`Reply`].
pub enum Answer {
    Ended(EndedModel),
    Done,
    Text(Text),
    Bytes(Seq<u8>),
    Names(Seq<Text>),
    Kind(Kind),
    Flag(bool),
    Number(u64),
    Meta(MetaModel),
    Journal(StoredModel),
    Failed(TroubleModel),
}

impl DeepView for Reply {
    type V = Answer;

    open spec fn deep_view(&self) -> Answer {
        match self {
            Reply::Ended(ended) => Answer::Ended(ended.deep_view()),
            Reply::Done => Answer::Done,
            Reply::Text(text) => Answer::Text(text@),
            Reply::Bytes(bytes) => Answer::Bytes(bytes@),
            Reply::Names(names) => Answer::Names(names.deep_view()),
            Reply::Kind(kind) => Answer::Kind(*kind),
            Reply::Flag(flag) => Answer::Flag(*flag),
            Reply::Number(number) => Answer::Number(*number),
            Reply::Meta(meta) => Answer::Meta(meta.deep_view()),
            Reply::Journal(stored) => Answer::Journal(stored.deep_view()),
            Reply::Failed(trouble) => Answer::Failed(trouble.deep_view()),
        }
    }
}

/// Why a procedure did not run to its end.
#[derive(Debug)]
pub enum Stop {
    /// It needs the reply to this request.
    Ask(Request),
    /// It failed.
    Fail(Error),
}

/// The replies so far, how many of them are used, and which requests they were
/// used for.
pub struct Session<'a> {
    log: &'a Vec<Reply>,
    next: usize,
    asks: Ghost<Seq<Ask>>,
}

/// The model of a [`Session`].
pub struct Tape {
    pub log: Seq<Answer>,
    pub next: int,
    pub asks: Seq<Ask>,
}

impl<'a> View for Session<'a> {
    type V = Tape;

    closed spec fn view(&self) -> Tape {
        Tape { log: self.log.deep_view(), next: self.next as int, asks: self.asks@ }
    }
}

/// How a procedure ends on a tape, and the tape as it leaves it.
pub enum Run<T> {
    /// It runs to its end and gives this.
    Gives(T, Tape),
    /// It fails.
    Fails(Fault, Tape),
    /// It needs the reply to this request.
    Asks(Ask, Tape),
}

impl<T> Run<T> {
    /// Go on with what was given.
    pub open spec fn and_then<B>(self, rest: spec_fn(T, Tape) -> Run<B>) -> Run<B> {
        match self {
            Run::Gives(value, tape) => rest(value, tape),
            Run::Fails(fault, tape) => Run::Fails(fault, tape),
            Run::Asks(ask, tape) => Run::Asks(ask, tape),
        }
    }

    /// Go on with what was given or with the fault.
    pub open spec fn either<B>(
        self,
        rest: spec_fn(T, Tape) -> Run<B>,
        failed: spec_fn(Fault, Tape) -> Run<B>,
    ) -> Run<B> {
        match self {
            Run::Gives(value, tape) => rest(value, tape),
            Run::Fails(fault, tape) => failed(fault, tape),
            Run::Asks(ask, tape) => Run::Asks(ask, tape),
        }
    }

    /// Whatever came out, make one more request and leave its reply aside.
    pub open spec fn closing(self, ask: Ask) -> Run<T> {
        self.either(
            |value: T, tape: Tape|
                asked(ask, tape).and_then(|answer: Answer, tape: Tape| Run::Gives(value, tape)),
            |fault: Fault, tape: Tape|
                asked(ask, tape).and_then(|answer: Answer, tape: Tape| Run::Fails(fault, tape)),
        )
    }
}

/// How an execution ended, over the models.
pub open spec fn ran<T: DeepView>(outcome: Result<T, Stop>, tape: Tape) -> Run<T::V> {
    match outcome {
        Ok(value) => Run::Gives(value.deep_view(), tape),
        Err(Stop::Fail(error)) => Run::Fails(error.deep_view(), tape),
        Err(Stop::Ask(request)) => Run::Asks(request.deep_view(), tape),
    }
}

/// How an execution ended that leaves something changed behind, over the models.
pub open spec fn ran_with<T: DeepView, S>(outcome: Result<T, Stop>, state: S, tape: Tape) -> Run<
    (T::V, S),
> {
    match outcome {
        Ok(value) => Run::Gives((value.deep_view(), state), tape),
        Err(Stop::Fail(error)) => Run::Fails(error.deep_view(), tape),
        Err(Stop::Ask(request)) => Run::Asks(request.deep_view(), tape),
    }
}

/// The tape after one more reply was used for this request.
pub open spec fn further(tape: Tape, ask: Ask) -> Tape {
    Tape { log: tape.log, next: tape.next + 1, asks: tape.asks.push(ask) }
}

/// The next reply of the tape, or the request where there is none.
pub open spec fn asked(ask: Ask, tape: Tape) -> Run<Answer> {
    if 0 <= tape.next < tape.log.len() {
        Run::Gives(tape.log[tape.next], further(tape, ask))
    } else {
        Run::Asks(ask, tape)
    }
}

/// What a request gave, or why it gave nothing.
#[derive(Debug)]
pub enum Heard<T> {
    Got(T),
    Trouble(Trouble),
}

/// The model of [`Heard`].
pub enum HeardModel<T> {
    Got(T),
    Trouble(TroubleModel),
}

impl<T: DeepView> DeepView for Heard<T> {
    type V = HeardModel<T::V>;

    open spec fn deep_view(&self) -> HeardModel<T::V> {
        match self {
            Heard::Got(value) => HeardModel::Got(value.deep_view()),
            Heard::Trouble(trouble) => HeardModel::Trouble(trouble.deep_view()),
        }
    }
}

/// The trouble with a reply that does not fit its request.
pub open spec fn misfit() -> TroubleModel {
    TroubleModel { reason: Reason::Other, message: "the reply does not fit the request"@ }
}

/// The trouble of an answer that is not of the kind that was wanted.
pub open spec fn trouble_in(answer: Answer) -> TroubleModel {
    match answer {
        Answer::Failed(trouble) => trouble,
        _ => misfit(),
    }
}

pub open spec fn ended_in(answer: Answer) -> HeardModel<EndedModel> {
    match answer {
        Answer::Ended(ended) => HeardModel::Got(ended),
        _ => HeardModel::Trouble(trouble_in(answer)),
    }
}

pub open spec fn done_in(answer: Answer) -> HeardModel<()> {
    match answer {
        Answer::Done => HeardModel::Got(()),
        _ => HeardModel::Trouble(trouble_in(answer)),
    }
}

pub open spec fn text_in(answer: Answer) -> HeardModel<Text> {
    match answer {
        Answer::Text(text) => HeardModel::Got(text),
        _ => HeardModel::Trouble(trouble_in(answer)),
    }
}

pub open spec fn bytes_in(answer: Answer) -> HeardModel<Seq<u8>> {
    match answer {
        Answer::Bytes(bytes) => HeardModel::Got(bytes),
        _ => HeardModel::Trouble(trouble_in(answer)),
    }
}

pub open spec fn names_in(answer: Answer) -> HeardModel<Seq<Text>> {
    match answer {
        Answer::Names(names) => HeardModel::Got(names),
        _ => HeardModel::Trouble(trouble_in(answer)),
    }
}

pub open spec fn kind_in(answer: Answer) -> HeardModel<Kind> {
    match answer {
        Answer::Kind(kind) => HeardModel::Got(kind),
        _ => HeardModel::Trouble(trouble_in(answer)),
    }
}

pub open spec fn flag_in(answer: Answer) -> HeardModel<bool> {
    match answer {
        Answer::Flag(flag) => HeardModel::Got(flag),
        _ => HeardModel::Trouble(trouble_in(answer)),
    }
}

pub open spec fn number_in(answer: Answer) -> HeardModel<u64> {
    match answer {
        Answer::Number(number) => HeardModel::Got(number),
        _ => HeardModel::Trouble(trouble_in(answer)),
    }
}

pub open spec fn meta_in(answer: Answer) -> HeardModel<MetaModel> {
    match answer {
        Answer::Meta(meta) => HeardModel::Got(meta),
        _ => HeardModel::Trouble(trouble_in(answer)),
    }
}

pub open spec fn journal_in(answer: Answer) -> HeardModel<StoredModel> {
    match answer {
        Answer::Journal(stored) => HeardModel::Got(stored),
        _ => HeardModel::Trouble(trouble_in(answer)),
    }
}

/// Asks, and reads the answer with `read`.
pub open spec fn heard<T>(ask: Ask, read: spec_fn(Answer) -> T, tape: Tape) -> Run<T> {
    asked(ask, tape).and_then(|answer: Answer, tape: Tape| Run::Gives(read(answer), tape))
}

/// The trouble of a reply that is not of the kind that was wanted.
fn trouble_of(reply: &Reply) -> (trouble: Trouble)
    ensures
        trouble.deep_view() == trouble_in(reply.deep_view()),
{
    match reply {
        Reply::Failed(trouble) => Trouble {
            reason: trouble.reason,
            message: trouble.message.clone(),
        },
        _ => Trouble {
            reason: Reason::Other,
            message: "the reply does not fit the request".to_owned(),
        },
    }
}

/// The same bytes in a list of their own.
pub fn copy_bytes(bytes: &Vec<u8>) -> (copy: Vec<u8>)
    ensures
        copy@ == bytes@,
{
    let mut copy: Vec<u8> = Vec::new();
    let mut i: usize = 0;
    while i < bytes.len()
        invariant
            i <= bytes@.len(),
            copy@ == bytes@.take(i as int),
        decreases bytes@.len() - i,
    {
        copy.push(bytes[i]);
        i = i + 1;
    }
    assert(bytes@.take(bytes@.len() as int) =~= bytes@);
    copy
}

impl<'a> Session<'a> {
    /// A run from the start over these replies.
    pub fn new(log: &'a Vec<Reply>) -> (session: Session<'a>)
        ensures
            session@ == (Tape { log: log.deep_view(), next: 0, asks: Seq::empty() }),
    {
        Session { log, next: 0, asks: Ghost(Seq::empty()) }
    }

    /// The reply to the request, or the stop that asks for it.
    pub fn ask(&mut self, request: Request) -> (reply: Result<&'a Reply, Stop>)
        ensures
            ran(reply, final(self)@) == asked(request.deep_view(), old(self)@),
    {
        if self.next < self.log.len() {
            let reply = &self.log[self.next];
            self.next = self.next + 1;
            proof {
                self.asks@ = self.asks@.push(request.deep_view());
            }
            Ok(reply)
        } else {
            Err(Stop::Ask(request))
        }
    }

    pub fn ended(&mut self, request: Request) -> (outcome: Result<Heard<Ended>, Stop>)
        ensures
            ran(outcome, final(self)@) == heard(
                request.deep_view(),
                |answer: Answer| ended_in(answer),
                old(self)@,
            ),
    {
        match self.ask(request)? {
            Reply::Ended(ended) => Ok(
                Heard::Got(
                    Ended {
                        code: ended.code,
                        stdout: copy_bytes(&ended.stdout),
                        stderr: copy_bytes(&ended.stderr),
                    },
                ),
            ),
            reply => Ok(Heard::Trouble(trouble_of(reply))),
        }
    }

    pub fn done(&mut self, request: Request) -> (outcome: Result<Heard<()>, Stop>)
        ensures
            ran(outcome, final(self)@) == heard(
                request.deep_view(),
                |answer: Answer| done_in(answer),
                old(self)@,
            ),
    {
        match self.ask(request)? {
            Reply::Done => Ok(Heard::Got(())),
            reply => Ok(Heard::Trouble(trouble_of(reply))),
        }
    }

    pub fn text(&mut self, request: Request) -> (outcome: Result<Heard<String>, Stop>)
        ensures
            ran(outcome, final(self)@) == heard(
                request.deep_view(),
                |answer: Answer| text_in(answer),
                old(self)@,
            ),
    {
        match self.ask(request)? {
            Reply::Text(text) => Ok(Heard::Got(text.clone())),
            reply => Ok(Heard::Trouble(trouble_of(reply))),
        }
    }

    pub fn bytes(&mut self, request: Request) -> (outcome: Result<Heard<Vec<u8>>, Stop>)
        ensures
            ran(outcome, final(self)@) == heard(
                request.deep_view(),
                |answer: Answer| bytes_in(answer),
                old(self)@,
            ),
    {
        match self.ask(request)? {
            Reply::Bytes(bytes) => {
                let copy = copy_bytes(bytes);
                assert(copy.deep_view() =~= bytes@);
                Ok(Heard::Got(copy))
            },
            reply => Ok(Heard::Trouble(trouble_of(reply))),
        }
    }

    pub fn names(&mut self, request: Request) -> (outcome: Result<Heard<Vec<String>>, Stop>)
        ensures
            ran(outcome, final(self)@) == heard(
                request.deep_view(),
                |answer: Answer| names_in(answer),
                old(self)@,
            ),
    {
        match self.ask(request)? {
            Reply::Names(names) => Ok(Heard::Got(crate::text::copy_texts(names))),
            reply => Ok(Heard::Trouble(trouble_of(reply))),
        }
    }

    pub fn kind(&mut self, request: Request) -> (outcome: Result<Heard<Kind>, Stop>)
        ensures
            ran(outcome, final(self)@) == heard(
                request.deep_view(),
                |answer: Answer| kind_in(answer),
                old(self)@,
            ),
    {
        match self.ask(request)? {
            Reply::Kind(kind) => Ok(Heard::Got(*kind)),
            reply => Ok(Heard::Trouble(trouble_of(reply))),
        }
    }

    pub fn flag(&mut self, request: Request) -> (outcome: Result<Heard<bool>, Stop>)
        ensures
            ran(outcome, final(self)@) == heard(
                request.deep_view(),
                |answer: Answer| flag_in(answer),
                old(self)@,
            ),
    {
        match self.ask(request)? {
            Reply::Flag(flag) => Ok(Heard::Got(*flag)),
            reply => Ok(Heard::Trouble(trouble_of(reply))),
        }
    }

    pub fn number(&mut self, request: Request) -> (outcome: Result<Heard<u64>, Stop>)
        ensures
            ran(outcome, final(self)@) == heard(
                request.deep_view(),
                |answer: Answer| number_in(answer),
                old(self)@,
            ),
    {
        match self.ask(request)? {
            Reply::Number(number) => Ok(Heard::Got(*number)),
            reply => Ok(Heard::Trouble(trouble_of(reply))),
        }
    }

    pub fn meta(&mut self, request: Request) -> (outcome: Result<Heard<Meta>, Stop>)
        ensures
            ran(outcome, final(self)@) == heard(
                request.deep_view(),
                |answer: Answer| meta_in(answer),
                old(self)@,
            ),
    {
        match self.ask(request)? {
            Reply::Meta(meta) => Ok(Heard::Got(meta.copy())),
            reply => Ok(Heard::Trouble(trouble_of(reply))),
        }
    }

    pub fn journal(&mut self, request: Request) -> (outcome: Result<Heard<StoredJournal>, Stop>)
        ensures
            ran(outcome, final(self)@) == heard(
                request.deep_view(),
                |answer: Answer| journal_in(answer),
                old(self)@,
            ),
    {
        match self.ask(request)? {
            Reply::Journal(stored) => Ok(Heard::Got(stored.copy())),
            reply => Ok(Heard::Trouble(trouble_of(reply))),
        }
    }

    /// Whatever came out, makes one more request and leaves its reply aside.
    pub fn close<T: DeepView>(&mut self, request: Request, outcome: Result<T, Stop>) -> (result:
        Result<T, Stop>)
        ensures
            ran(result, final(self)@) == ran(outcome, old(self)@).closing(request.deep_view()),
    {
        match outcome {
            Err(Stop::Ask(request)) => Err(Stop::Ask(request)),
            outcome => {
                self.ask(request)?;
                outcome
            },
        }
    }
}

/// Takes a failure as a value, so that the procedure can go on with it.
pub fn caught<T>(outcome: Result<T, Stop>) -> (result: Result<Result<T, Error>, Stop>)
    ensures
        match outcome {
            Ok(value) => result == Ok::<Result<T, Error>, Stop>(Ok(value)),
            Err(Stop::Fail(error)) => result == Ok::<Result<T, Error>, Stop>(Err(error)),
            Err(Stop::Ask(request)) => result == Err::<Result<T, Error>, Stop>(Stop::Ask(request)),
        },
{
    match outcome {
        Ok(value) => Ok(Ok(value)),
        Err(Stop::Fail(error)) => Ok(Err(error)),
        Err(Stop::Ask(request)) => Err(Stop::Ask(request)),
    }
}

} // verus!
