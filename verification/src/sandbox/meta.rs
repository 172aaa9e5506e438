//! What a rehearsal directory says about itself.
//!
//! This is an on-disk format with a version number and a compatibility
//! obligation.

use vstd::prelude::*;

use crate::carry::{Carry, CarryModel};
use crate::compose::{cat2, cat4};
use crate::error::{Error, Fault};
use crate::execute::Outcome;
use crate::files::{do_script, or_fail, or_io, perform, read_text, read_text_script};
use crate::number::{decimal, show};
use crate::paths::{display, displayed, inside, join_path};
use crate::refs::{Entries, RefMap};
use crate::session::{
    heard, meta_in, ran, text_in, Answer, Ask, Heard, HeardModel, Request, Run, Session, Stop, Tape,
};
use crate::text::{bytes_of, copy_texts, put, Text};
use crate::worktree::{Origin, OriginModel};

verus! {

/// Version of the `meta.json` document. A build that meets an unfamiliar one
/// refuses the rehearsal rather than half-reading it. The second added
/// [`Meta::carry`] and the third the durable worktree origin.
pub const META_SCHEMA: u32 = 3;

/// What the sandbox should have checked out when the rehearsed command runs.
#[derive(Debug, PartialEq, Eq)]
pub enum Checkout {
    /// The real repo was on a branch; the sandbox checks out the same one.
    Branch(String),
    /// The real repo had a detached `HEAD`; the sandbox detaches at the same
    /// commit.
    Detached(String),
}

/// The model of a [`Checkout`].
pub enum CheckoutModel {
    Branch(Text),
    Detached(Text),
}

impl DeepView for Checkout {
    type V = CheckoutModel;

    open spec fn deep_view(&self) -> CheckoutModel {
        match self {
            Checkout::Branch(name) => CheckoutModel::Branch(name@),
            Checkout::Detached(commit) => CheckoutModel::Detached(commit@),
        }
    }
}

impl Checkout {
    /// An equal checkout.
    pub fn copy(&self) -> (checkout: Checkout)
        ensures
            checkout.deep_view() == self.deep_view(),
    {
        match self {
            Checkout::Branch(name) => Checkout::Branch(name.clone()),
            Checkout::Detached(commit) => Checkout::Detached(commit.clone()),
        }
    }
}

/// Whether a rehearsal is still in flight or has been deliberately kept.
#[derive(Debug, Clone, Copy, PartialEq, Eq, Structural)]
pub enum Status {
    /// Created by the current run; discarded unless the user says otherwise.
    Fresh,
    /// Kept on purpose, listed until explicitly discarded.
    Kept,
}

impl DeepView for Status {
    type V = Status;

    open spec fn deep_view(&self) -> Status {
        *self
    }
}

/// The contents of `meta.json`.
#[derive(Debug)]
pub struct Meta {
    /// See [`META_SCHEMA`].
    pub schema: u32,
    /// Rehearsal id, unique within the repository's cache directory.
    pub id: String,
    /// Cache directory name for the repository.
    pub repo_id: String,
    /// Where the real repository is.
    pub repo_path: String,
    /// Durable shared-repository and worktree identity.
    pub origin: Option<Origin>,
    /// The command being rehearsed.
    pub command: Vec<String>,
    /// What the sandbox has checked out.
    pub checkout: Checkout,
    /// The real repository's refs at snapshot time.
    pub pre_state: RefMap,
    /// The uncommitted work this rehearsal carries, and what became of it.
    pub carry: Option<Carry>,
    /// Creation time, seconds since 1970.
    pub created_unix: u64,
    /// Fresh or explicitly kept.
    pub status: Status,
    /// How the rehearsed command ended, once it has run.
    pub result: Option<Outcome>,
    /// Fields that this build does not know, each with its value as JSON. They
    /// survive migration and later updates.
    pub extensions: Vec<(String, String)>,
}

/// The model of a [`Meta`].
pub struct MetaModel {
    pub schema: u32,
    pub id: Text,
    pub repo_id: Text,
    pub repo_path: Text,
    pub origin: Option<OriginModel>,
    pub command: Seq<Text>,
    pub checkout: CheckoutModel,
    pub pre_state: Entries,
    pub carry: Option<CarryModel>,
    pub created_unix: u64,
    pub status: Status,
    pub result: Option<Outcome>,
    pub extensions: Seq<(Text, Text)>,
}

impl DeepView for Meta {
    type V = MetaModel;

    open spec fn deep_view(&self) -> MetaModel {
        MetaModel {
            schema: self.schema,
            id: self.id@,
            repo_id: self.repo_id@,
            repo_path: self.repo_path@,
            origin: self.origin.deep_view(),
            command: self.command.deep_view(),
            checkout: self.checkout.deep_view(),
            pre_state: self.pre_state.deep_view(),
            carry: self.carry.deep_view(),
            created_unix: self.created_unix,
            status: self.status,
            result: self.result,
            extensions: self.extensions.deep_view(),
        }
    }
}

/// An equal list of pairs.
pub fn copy_pairs(pairs: &Vec<(String, String)>) -> (copy: Vec<(String, String)>)
    ensures
        copy.deep_view() == pairs.deep_view(),
{
    let ghost all = pairs.deep_view();
    let mut copy: Vec<(String, String)> = Vec::new();
    let mut i: usize = 0;
    while i < pairs.len()
        invariant
            i <= pairs@.len(),
            all == pairs.deep_view(),
            copy.deep_view() == all.take(i as int),
        decreases pairs@.len() - i,
    {
        put(&mut copy, (pairs[i].0.clone(), pairs[i].1.clone()));
        i = i + 1;
        assert(all.take(i as int) =~= all.take(i - 1).push(all[i - 1]));
    }
    assert(all.take(all.len() as int) =~= all);
    copy
}

// ---------------------------------------------------------------------------
// Fields of a JSON document
// ---------------------------------------------------------------------------
/// What `serde_json` finds under a key of a document, where it is a number that
/// is no fraction and not negative; or what it says of a text that is no
/// document.
pub uninterp spec fn json_number(text: Text, key: Text) -> Result<Option<u64>, Text>;

/// `serde_json::from_str` into a `serde_json::Value`, and `Value::get` and
/// `Value::as_u64` on it. Which texts are documents, what they hold and how an
/// error reads is named and not stated.
#[verifier::external_body]
pub(crate) fn read_number(text: &str, key: &str) -> (found: Result<Option<u64>, String>)
    ensures
        match found {
            Ok(number) => json_number(text@, key@) == Ok::<Option<u64>, Text>(number),
            Err(message) => json_number(text@, key@) == Err::<Option<u64>, Text>(message@),
        },
{
    serde_json::from_str::<serde_json::Value>(text)
        .map(|document| document.get(key).and_then(serde_json::Value::as_u64))
        .map_err(|error| error.to_string())
}

/// What `serde_json` finds under a key of a document, where it is a string; or
/// what it says of a text that is no document.
pub uninterp spec fn json_string(text: Text, key: Text) -> Result<Option<Text>, Text>;

/// `serde_json::from_str` into a `serde_json::Value`, and `Value::get` and
/// `Value::as_str` on it. Which texts are documents, what they hold and how an
/// error reads is named and not stated.
#[verifier::external_body]
pub(crate) fn read_string(text: &str, key: &str) -> (found: Result<Option<String>, String>)
    ensures
        match found {
            Ok(string) => json_string(text@, key@) == Ok::<Option<Text>, Text>(string.deep_view()),
            Err(message) => json_string(text@, key@) == Err::<Option<Text>, Text>(message@),
        },
{
    serde_json::from_str::<serde_json::Value>(text)
        .map(|document| document.get(key).and_then(serde_json::Value::as_str).map(str::to_owned))
        .map_err(|error| error.to_string())
}

// ---------------------------------------------------------------------------
// Writing
// ---------------------------------------------------------------------------
pub open spec fn meta_file(root: Text) -> Text {
    inside(root, "meta.json"@)
}

/// Writes the document beside its place, flushes it and renames it there, so
/// that a crash leaves the previous document.
#[verifier::opaque]
pub open spec fn write_script(meta: MetaModel, root: Text, tape: Tape) -> Run<()> {
    let path = meta_file(root);
    let beside = inside(root, "meta.json.tmp"@);
    heard(Ask::EncodeMeta(meta), |answer: Answer| text_in(answer), tape).and_then(
        |encoded: HeardModel<Text>, tape: Tape|
            match encoded {
                HeardModel::Trouble(trouble) => Run::Fails(
                    Fault::Meta(path, trouble.message),
                    tape,
                ),
                HeardModel::Got(json) => do_script(
                    Ask::WriteSynced(beside, vstd::utf8::encode_utf8(json + "\n"@)),
                    beside,
                    tape,
                ).and_then(
                    |written: (), tape: Tape| do_script(Ask::Rename(beside, path), path, tape),
                ),
            },
    )
}

impl Meta {
    /// Equal metadata.
    pub fn copy(&self) -> (meta: Meta)
        ensures
            meta.deep_view() == self.deep_view(),
    {
        Meta {
            schema: self.schema,
            id: self.id.clone(),
            repo_id: self.repo_id.clone(),
            repo_path: self.repo_path.clone(),
            origin: match &self.origin {
                Some(origin) => Some(
                    Origin {
                        common_dir: origin.common_dir.clone(),
                        git_dir: origin.git_dir.clone(),
                    },
                ),
                None => None,
            },
            command: copy_texts(&self.command),
            checkout: self.checkout.copy(),
            pre_state: self.pre_state.copy(),
            carry: match &self.carry {
                Some(carry) => Some(carry.copy()),
                None => None,
            },
            created_unix: self.created_unix,
            status: self.status,
            result: self.result,
            extensions: copy_pairs(&self.extensions),
        }
    }

    /// Writes `meta.json` into `root`, atomically.
    pub fn write(&self, session: &mut Session, root: &str) -> (outcome: Result<(), Stop>)
        ensures
            ran(outcome, final(session)@) == write_script(self.deep_view(), root@, old(session)@),
    {
        proof {
            reveal(write_script);
        }
        let path = join_path(root, "meta.json");
        let beside = join_path(root, "meta.json.tmp");
        match session.text(Request::EncodeMeta(self.copy()))? {
            Heard::Trouble(trouble) => Err(Stop::Fail(Error::Meta(path, trouble.message))),
            Heard::Got(json) => {
                let bytes = bytes_of(&cat2(&json, "\n"));
                perform(session, Request::WriteSynced(beside.clone(), bytes), &beside)?;
                perform(session, Request::Rename(beside, path.clone()), &path)
            },
        }
    }
}

// ---------------------------------------------------------------------------
// Reading
// ---------------------------------------------------------------------------
pub open spec fn no_schema(path: Text) -> Fault {
    Fault::Sandbox(displayed(path) + ": rehearsal metadata has no numeric schema"@)
}

pub open spec fn unknown_schema(path: Text, schema: u64) -> Fault {
    Fault::Sandbox(
        displayed(path) + ": rehearsal uses meta schema "@ + decimal(schema as nat)
            + ", this build understands 3 — upgrade git-rehearse, or discard the rehearsal"@,
    )
}

/// Decodes a document, its `carry` field left aside where `bare` says so.
#[verifier::opaque]
pub open spec fn decode_script(path: Text, text: Text, bare: bool, tape: Tape) -> Run<MetaModel> {
    heard(Ask::DecodeMeta(text, bare), |answer: Answer| meta_in(answer), tape).and_then(
        |decoded: HeardModel<MetaModel>, tape: Tape|
            match decoded {
                HeardModel::Got(meta) => Run::Gives(meta, tape),
                HeardModel::Trouble(trouble) => Run::Fails(
                    Fault::Meta(path, trouble.message),
                    tape,
                ),
            },
    )
}

/// Metadata of the first schema in the current one: it carries nothing, and it
/// gains no origin.
pub open spec fn migrated(meta: MetaModel) -> MetaModel {
    MetaModel { schema: META_SCHEMA, carry: None, ..meta }
}

/// Reads a document of this schema. The first is migrated and written back. The
/// second is read as it is, as reference material. Any but the current one
/// besides is refused.
#[verifier::opaque]
pub open spec fn read_document_script(
    root: Text,
    text: Text,
    schema: u64,
    tape: Tape,
) -> Run<MetaModel> {
    if schema == 1 {
        decode_script(meta_file(root), text, true, tape).and_then(
            |meta: MetaModel, tape: Tape|
                write_script(migrated(meta), root, tape).and_then(
                    |written: (), tape: Tape| Run::Gives(migrated(meta), tape),
                ),
        )
    } else if schema == 2 || schema == META_SCHEMA {
        decode_script(meta_file(root), text, false, tape)
    } else {
        Run::Fails(unknown_schema(meta_file(root), schema), tape)
    }
}

/// Reads and validates the metadata of a rehearsal directory.
#[verifier::opaque]
pub open spec fn read_script(root: Text, tape: Tape) -> Run<MetaModel> {
    let path = meta_file(root);
    or_io(read_text_script(path, tape), path).and_then(
        |text: Text, tape: Tape|
            match json_number(text, "schema"@) {
                Err(message) => Run::Fails(Fault::Meta(path, message), tape),
                Ok(None) => Run::Fails(no_schema(path), tape),
                Ok(Some(schema)) => read_document_script(root, text, schema, tape),
            },
    )
}

fn decode(session: &mut Session, path: &str, text: &str, bare: bool) -> (outcome: Result<
    Meta,
    Stop,
>)
    ensures
        ran(outcome, final(session)@) == decode_script(path@, text@, bare, old(session)@),
{
    proof {
        reveal(decode_script);
    }
    match session.meta(Request::DecodeMeta(text.to_owned(), bare))? {
        Heard::Got(meta) => Ok(meta),
        Heard::Trouble(trouble) => Err(
            Stop::Fail(Error::Meta(path.to_owned(), trouble.message)),
        ),
    }
}

impl Meta {
    /// Reads a document whose schema is known.
    pub fn read_document(session: &mut Session, root: &str, text: &str, schema: u64) -> (outcome:
        Result<Meta, Stop>)
        ensures
            ran(outcome, final(session)@) == read_document_script(
                root@,
                text@,
                schema,
                old(session)@,
            ),
    {
        proof {
            reveal(read_document_script);
        }
        let path = join_path(root, "meta.json");
        if schema == 1 {
            let mut meta = decode(session, &path, text, true)?;
            meta.schema = META_SCHEMA;
            meta.carry = None;
            meta.write(session, root)?;
            Ok(meta)
        } else if schema == 2 || schema == META_SCHEMA as u64 {
            decode(session, &path, text, false)
        } else {
            Err(
                Stop::Fail(
                    Error::Sandbox(
                        cat4(
                            &display(&path),
                            ": rehearsal uses meta schema ",
                            &show(schema),
                            ", this build understands 3 — upgrade git-rehearse, or discard the rehearsal",
                        ),
                    ),
                ),
            )
        }
    }

    /// Reads and validates the `meta.json` in `root`.
    pub fn read(session: &mut Session, root: &str) -> (outcome: Result<Meta, Stop>)
        ensures
            ran(outcome, final(session)@) == read_script(root@, old(session)@),
    {
        proof {
            reveal(read_script);
        }
        let path = join_path(root, "meta.json");
        let answer = read_text(session, &path)?;
        let text = or_fail(answer, &path)?;
        match read_number(&text, "schema") {
            Err(message) => Err(Stop::Fail(Error::Meta(path, message))),
            Ok(None) => Err(
                Stop::Fail(
                    Error::Sandbox(
                        cat2(&display(&path), ": rehearsal metadata has no numeric schema"),
                    ),
                ),
            ),
            Ok(Some(schema)) => Meta::read_document(session, root, &text, schema),
        }
    }
}

} // verus!
