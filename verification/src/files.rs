//! Questions about files, as procedures ask them.

use vstd::prelude::*;

use crate::error::{Error, Fault};
use crate::session::{
    bytes_in, done_in, heard, kind_in, names_in, ran, text_in, Answer, Ask, Heard, HeardModel,
    Kind, Request, Run, Session, Stop, Tape,
};
use crate::text::Text;

verus! {

/// Whether a path leads to anything.
#[verifier::opaque]
pub open spec fn present_script(path: Text, tape: Tape) -> Run<bool> {
    heard(Ask::Target(path), |answer: Answer| kind_in(answer), tape).and_then(
        |found: HeardModel<Kind>, tape: Tape| Run::Gives(found is Got, tape),
    )
}

/// Whether a path leads to anything.
pub fn present(session: &mut Session, path: &str) -> (outcome: Result<bool, Stop>)
    ensures
        ran(outcome, final(session)@) == present_script(path@, old(session)@),
{
    proof {
        reveal(present_script);
    }
    match session.kind(Request::Target(path.to_owned()))? {
        Heard::Got(_) => Ok(true),
        Heard::Trouble(_) => Ok(false),
    }
}

/// Whether a path leads to a thing of this kind.
#[verifier::opaque]
pub open spec fn leads_to_script(path: Text, kind: Kind, tape: Tape) -> Run<bool> {
    heard(Ask::Target(path), |answer: Answer| kind_in(answer), tape).and_then(
        |found: HeardModel<Kind>, tape: Tape| Run::Gives(found == HeardModel::Got(kind), tape),
    )
}

/// Whether a path leads to a thing of this kind.
pub fn leads_to(session: &mut Session, path: &str, kind: Kind) -> (outcome: Result<bool, Stop>)
    ensures
        ran(outcome, final(session)@) == leads_to_script(path@, kind, old(session)@),
{
    proof {
        reveal(leads_to_script);
    }
    match session.kind(Request::Target(path.to_owned()))? {
        Heard::Got(found) => Ok(found == kind),
        Heard::Trouble(_) => Ok(false),
    }
}

/// What a path names itself, where it names anything.
#[verifier::opaque]
pub open spec fn kind_script(path: Text, tape: Tape) -> Run<HeardModel<Kind>> {
    heard(Ask::Kind(path), |answer: Answer| kind_in(answer), tape)
}

/// What a path names itself, where it names anything.
pub fn kind(session: &mut Session, path: &str) -> (outcome: Result<Heard<Kind>, Stop>)
    ensures
        ran(outcome, final(session)@) == kind_script(path@, old(session)@),
{
    proof {
        reveal(kind_script);
    }
    session.kind(Request::Kind(path.to_owned()))
}

/// The whole text of a file.
#[verifier::opaque]
pub open spec fn read_text_script(path: Text, tape: Tape) -> Run<HeardModel<Text>> {
    heard(Ask::ReadText(path), |answer: Answer| text_in(answer), tape)
}

/// The whole text of a file.
pub fn read_text(session: &mut Session, path: &str) -> (outcome: Result<Heard<String>, Stop>)
    ensures
        ran(outcome, final(session)@) == read_text_script(path@, old(session)@),
{
    proof {
        reveal(read_text_script);
    }
    session.text(Request::ReadText(path.to_owned()))
}

/// The whole content of a file.
#[verifier::opaque]
pub open spec fn read_bytes_script(path: Text, tape: Tape) -> Run<HeardModel<Seq<u8>>> {
    heard(Ask::ReadBytes(path), |answer: Answer| bytes_in(answer), tape)
}

/// The whole content of a file.
pub fn read_bytes(session: &mut Session, path: &str) -> (outcome: Result<Heard<Vec<u8>>, Stop>)
    ensures
        ran(outcome, final(session)@) == read_bytes_script(path@, old(session)@),
{
    proof {
        reveal(read_bytes_script);
    }
    session.bytes(Request::ReadBytes(path.to_owned()))
}

/// A filesystem answer, its trouble turned into the failure of `path`.
pub open spec fn or_io<T>(answer: Run<HeardModel<T>>, path: Text) -> Run<T> {
    answer.and_then(
        |found: HeardModel<T>, tape: Tape|
            match found {
                HeardModel::Got(value) => Run::Gives(value, tape),
                HeardModel::Trouble(trouble) => Run::Fails(Fault::Io(path, trouble.message), tape),
            },
    )
}

/// The value of a filesystem answer, or the failure of `path`.
pub fn or_fail<T: DeepView>(answer: Heard<T>, path: &str) -> (outcome: Result<T, Stop>)
    ensures
        match answer.deep_view() {
            HeardModel::Got(value) => outcome matches Ok(got) && got.deep_view() == value,
            HeardModel::Trouble(trouble) => outcome matches Err(Stop::Fail(error))
                && error.deep_view() == Fault::Io(path@, trouble.message),
        },
{
    match answer {
        Heard::Got(value) => Ok(value),
        Heard::Trouble(trouble) => Err(Stop::Fail(Error::io(path, &trouble.message))),
    }
}

/// Has something done; the failure is that of `path`.
#[verifier::opaque]
pub open spec fn do_script(ask: Ask, path: Text, tape: Tape) -> Run<()> {
    or_io(heard(ask, |answer: Answer| done_in(answer), tape), path)
}

/// Has something done; the failure is that of `path`.
pub fn perform(session: &mut Session, request: Request, path: &str) -> (outcome: Result<(), Stop>)
    ensures
        ran(outcome, final(session)@) == do_script(request.deep_view(), path@, old(session)@),
{
    proof {
        reveal(do_script);
    }
    let answer = session.done(request)?;
    or_fail(answer, path)
}

/// The names in a directory; the failure is that of `path`.
#[verifier::opaque]
pub open spec fn list_script(dir: Text, path: Text, tape: Tape) -> Run<Seq<Text>> {
    or_io(heard(Ask::List(dir), |answer: Answer| names_in(answer), tape), path)
}

/// The names in a directory; the failure is that of `path`.
pub fn list(session: &mut Session, dir: &str, path: &str) -> (outcome: Result<Vec<String>, Stop>)
    ensures
        ran(outcome, final(session)@) == list_script(dir@, path@, old(session)@),
{
    proof {
        reveal(list_script);
    }
    let answer = session.names(Request::List(dir.to_owned()))?;
    or_fail(answer, path)
}

} // verus!
