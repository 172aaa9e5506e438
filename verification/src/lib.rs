//! Rehearse dangerous git commands in a shadow clone of a real repository,
//! inspect the outcome, then apply or discard.
//!
//! The sandbox is disposable and inert, and applying a rehearsal is a ref
//! transplant, never a re-run. Nothing here touches a file, starts a process or
//! reads a clock: what a procedure needs of that kind it asks for, see
//! [`session`], and its contract says what it asks and what it makes of each
//! answer.

use vstd::prelude::*;

use crate::session::{
    heard, number_in, ran, Answer, Ask, Heard, HeardModel, Request, Run, Session, Stop, Tape,
};

pub mod analyze;
pub mod apply;
pub mod cache;
pub mod carry;
pub mod cli;
pub mod collision;
pub mod compose;
pub mod error;
pub mod execute;
pub mod files;
pub mod git;
pub mod guarantees;
pub mod json;
pub mod number;
pub mod order;
pub mod parts;
pub mod paths;
pub mod preflight;
pub mod recovery;
pub mod refcommands;
pub mod refs;
pub mod report;
pub mod sandbox;
pub mod session;
pub mod signatures;
pub mod text;
pub mod undo;
pub mod worktree;

pub use error::Error;

verus! {

/// The time of day. A clock before 1970, or none at all, gives zero, which makes
/// a rehearsal look ancient rather than failing the run.
#[verifier::opaque]
pub open spec fn now_script(tape: Tape) -> Run<u64> {
    heard(Ask::Now, |answer: Answer| number_in(answer), tape).and_then(
        |now: HeardModel<u64>, tape: Tape|
            match now {
                HeardModel::Got(seconds) => Run::Gives(seconds, tape),
                HeardModel::Trouble(_) => Run::Gives(0u64, tape),
            },
    )
}

/// Seconds since 1970, as the timestamp that everything in the cache is stamped
/// and pruned with. This is the only place where the clock is consulted.
pub fn now_unix(session: &mut Session) -> (outcome: Result<u64, Stop>)
    ensures
        ran(outcome, final(session)@) == now_script(old(session)@),
{
    proof {
        reveal(now_script);
    }
    match session.number(Request::Now)? {
        Heard::Got(seconds) => Ok(seconds),
        Heard::Trouble(_) => Ok(0),
    }
}

} // verus!
