//! Copying mutable conflict-resolution data, never linking it to the original
//! cache.

use vstd::prelude::*;

use crate::collision::walk::{copies_of, push_copies};
use crate::compose::cat3;
use crate::error::{Error, Fault};
use crate::files::{do_script, kind, kind_script, list, list_script, perform};
use crate::paths::{display, displayed, inside, join_path};
use crate::session::{
    ran, Ask, Heard, HeardModel, Kind, Reason, Request, Run, Session, Stop, Tape,
};
use crate::text::{put, Text};
use crate::worktree::{capture_script, Origin, OriginModel};

verus! {

pub open spec fn not_copyable(source: Text) -> Fault {
    Fault::Sandbox(
        "cannot copy rerere cache entry "@ + displayed(source)
            + ": expected a regular file or directory"@,
    )
}

/// Copies one entry, and gives the entries below it. Only directories and
/// regular files are copied.
#[verifier::opaque]
pub open spec fn entry_script(source: Text, destination: Text, tape: Tape) -> Run<
    Seq<(Text, Text)>,
> {
    kind_script(source, tape).and_then(|found: HeardModel<Kind>, tape: Tape|
        match found {
            HeardModel::Trouble(trouble) => Run::Fails(Fault::Io(source, trouble.message), tape),
            HeardModel::Got(Kind::Directory) => do_script(
                Ask::CreateDir(destination),
                destination,
                tape,
            ).and_then(|made: (), tape: Tape|
                list_script(source, source, tape).and_then(|names: Seq<Text>, tape: Tape|
                    Run::Gives(copies_of(source, destination, names, false), tape))),
            HeardModel::Got(Kind::File) => do_script(
                Ask::Copy(source, destination),
                source,
                tape,
            ).and_then(|copied: (), tape: Tape| Run::Gives(Seq::empty(), tape)),
            HeardModel::Got(_) => Run::Fails(not_copyable(source), tape),
        })
}

/// Copying an entry uses a reply.
pub proof fn entry_advances(source: Text, destination: Text, tape: Tape)
    ensures
        entry_script(source, destination, tape) matches Run::Gives(_, after) ==> after.log
            == tape.log && tape.next < after.next <= tape.log.len(),
{
    reveal(entry_script);
    reveal(kind_script);
    reveal(do_script);
    reveal(list_script);
}

/// Copies every entry on the stack and below it.
pub open spec fn copy_from(stack: Seq<(Text, Text)>, tape: Tape) -> Run<()>
    decreases tape.log.len() - tape.next,
{
    if stack.len() == 0 {
        Run::Gives((), tape)
    } else {
        proof {
            entry_advances(stack.last().0, stack.last().1, tape);
        }
        match entry_script(stack.last().0, stack.last().1, tape) {
            Run::Asks(ask, tape) => Run::Asks(ask, tape),
            Run::Fails(fault, tape) => Run::Fails(fault, tape),
            Run::Gives(below, tape) => copy_from(stack.drop_last() + below, tape),
        }
    }
}

/// Copies the recorded conflict resolutions of a repository into the sandbox,
/// where it has any.
#[verifier::opaque]
pub open spec fn copy_script(repo: Text, worktree: Text, tape: Tape) -> Run<()> {
    capture_script(repo, tape).and_then(|origin: OriginModel, tape: Tape| {
        let source = inside(origin.common_dir, "rr-cache"@);
        kind_script(source, tape).and_then(|found: HeardModel<Kind>, tape: Tape|
            match found {
                HeardModel::Trouble(trouble) => if trouble.reason == Reason::Missing {
                    Run::Gives((), tape)
                } else {
                    Run::Fails(Fault::Io(source, trouble.message), tape)
                },
                HeardModel::Got(kind) => if kind == Kind::Directory {
                    copy_from(seq![(source, inside(worktree, ".git/rr-cache"@))], tape)
                } else {
                    Run::Fails(Fault::Sandbox("rerere cache must be a directory"@), tape)
                },
            })
    })
}

fn copy_entry(session: &mut Session, source: &str, destination: &str) -> (outcome: Result<
    Vec<(String, String)>,
    Stop,
>)
    ensures
        ran(outcome, final(session)@) == entry_script(source@, destination@, old(session)@),
{
    proof {
        reveal(entry_script);
    }
    let mut below: Vec<(String, String)> = Vec::new();
    assert(below.deep_view() =~= Seq::empty());
    match kind(session, source)? {
        Heard::Trouble(trouble) => return Err(Stop::Fail(Error::io(source, &trouble.message))),
        Heard::Got(Kind::Directory) => {
            perform(session, Request::CreateDir(destination.to_owned()), destination)?;
            let names = list(session, source, source)?;
            push_copies(&mut below, source, destination, &names, false);
            assert(below.deep_view() =~= copies_of(
                source@,
                destination@,
                names.deep_view(),
                false,
            ));
        },
        Heard::Got(Kind::File) => {
            perform(session, Request::Copy(source.to_owned(), destination.to_owned()), source)?;
        },
        Heard::Got(_) => {
            return Err(
                Stop::Fail(
                    Error::Sandbox(
                        cat3(
                            "cannot copy rerere cache entry ",
                            &display(source),
                            ": expected a regular file or directory",
                        ),
                    ),
                ),
            );
        },
    }
    Ok(below)
}

/// Copies the recorded conflict resolutions of `repo` into the sandbox.
pub fn copy(session: &mut Session, repo: &str, worktree: &str) -> (outcome: Result<(), Stop>)
    ensures
        ran(outcome, final(session)@) == copy_script(repo@, worktree@, old(session)@),
{
    proof {
        reveal(copy_script);
    }
    let origin = Origin::capture(session, repo)?;
    let source = join_path(&origin.common_dir, "rr-cache");
    match kind(session, &source)? {
        Heard::Trouble(trouble) => {
            if trouble.reason == Reason::Missing {
                return Ok(());
            }
            return Err(Stop::Fail(Error::io(&source, &trouble.message)));
        },
        Heard::Got(kind) => {
            if kind != Kind::Directory {
                return Err(
                    Stop::Fail(Error::Sandbox("rerere cache must be a directory".to_owned())),
                );
            }
        },
    }
    let mut stack: Vec<(String, String)> = Vec::new();
    let destination = join_path(worktree, ".git/rr-cache");
    put(&mut stack, (source, destination));
    assert(stack.deep_view() =~= seq![(source@, destination@)]);
    while stack.len() > 0
        invariant
            copy_script(repo@, worktree@, old(session)@) == copy_from(
                stack.deep_view(),
                session@,
            ),
        decreases session@.log.len() - session@.next,
    {
        let ghost rest = stack.deep_view().drop_last();
        assert(stack.deep_view().last() == (stack@.last().0@, stack@.last().1@));
        let (from, to) = match stack.pop() {
            Some(entry) => entry,
            None => return Ok(()),
        };
        assert(stack.deep_view() =~= rest);
        proof {
            entry_advances(from@, to@, session@);
        }
        let below = copy_entry(session, &from, &to)?;
        let ghost given = below.deep_view();
        let mut i: usize = 0;
        assert(rest + given.take(0) =~= rest);
        while i < below.len()
            invariant
                i <= below@.len(),
                given == below.deep_view(),
                stack.deep_view() == rest + given.take(i as int),
            decreases below@.len() - i,
        {
            put(&mut stack, (below[i].0.clone(), below[i].1.clone()));
            i = i + 1;
            assert(stack.deep_view() =~= rest + given.take(i as int));
        }
        assert(given.take(given.len() as int) =~= given);
    }
    Ok(())
}

} // verus!
