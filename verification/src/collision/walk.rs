//! Walks over the files of the disposable copy.
//!
//! A walk keeps the paths it has yet to visit on a stack, with the next one at
//! the end, and puts the entries of a directory on top when it visits it: depth
//! first, each directory's entries in the order they were listed.

use vstd::prelude::*;

use crate::compose::{args4, args6, cat3};
use crate::error::{Error, Fault};
use crate::git;
use crate::paths::{bytes_of_text, display, displayed, inside, join_path, to_bytes};
use crate::session::{
    bytes_in, caught, done_in, heard, kind_in, names_in, ran, text_in, Answer, Ask, Heard,
    HeardModel, Kind, Request, Run, Session, Stop, Tape,
};
use crate::text::{put, same, utf8, Text};

verus! {

/// What a file holds, or where a symbolic link points.
#[derive(Debug, PartialEq, Eq)]
pub enum FileState {
    File(Vec<u8>),
    Symlink(String),
}

/// The model of a [`FileState`].
pub enum FileStateModel {
    File(Seq<u8>),
    Symlink(Text),
}

impl DeepView for FileState {
    type V = FileStateModel;

    open spec fn deep_view(&self) -> FileStateModel {
        match self {
            FileState::File(bytes) => FileStateModel::File(bytes@),
            FileState::Symlink(target) => FileStateModel::Symlink(target@),
        }
    }
}

/// The entries of a directory as a stack, without git's own where `skip` says
/// so.
pub open spec fn entries_of(dir: Text, names: Seq<Text>, skip: bool) -> Seq<Text>
    decreases names.len(),
{
    if names.len() == 0 {
        Seq::empty()
    } else {
        let rest = entries_of(dir, names.drop_first(), skip);
        if skip && names[0] == ".git"@ {
            rest
        } else {
            rest.push(inside(dir, names[0]))
        }
    }
}

fn push_entries(stack: &mut Vec<String>, dir: &str, names: &Vec<String>, skip: bool)
    ensures
        final(stack).deep_view() == old(stack).deep_view() + entries_of(
            dir@,
            names.deep_view(),
            skip,
        ),
{
    let ghost all = names.deep_view();
    let ghost base = stack.deep_view();
    let mut i: usize = names.len();
    assert(all.skip(i as int) =~= Seq::empty());
    assert(base + Seq::empty() =~= base);
    while i > 0
        invariant
            i <= names@.len(),
            all == names.deep_view(),
            stack.deep_view() == base + entries_of(dir@, all.skip(i as int), skip),
        decreases i,
    {
        i = i - 1;
        assert(all.skip(i as int).drop_first() =~= all.skip(i + 1));
        assert(all.skip(i as int)[0] == names[i as int]@);
        let ghost done = stack.deep_view();
        if !(skip && same(&names[i], ".git")) {
            put(stack, join_path(dir, &names[i]));
            assert(stack.deep_view() =~= base + entries_of(dir@, all.skip(i as int), skip));
        }
    }
    assert(all.skip(0) =~= all);
}

/// That the walk failed: what the system said, of the path that the walk is
/// about.
pub open spec fn walk_failed<T>(about: Text, message: Text, tape: Tape) -> Run<T> {
    Run::Fails(Fault::Io(about, message), tape)
}

fn fail(about: &str, message: &str) -> (stop: Stop)
    ensures
        stop matches Stop::Fail(error) && error.deep_view() == Fault::Io(about@, message@),
{
    Stop::Fail(Error::io(about, message))
}

// ---------------------------------------------------------------------------
// The files of a worktree
// ---------------------------------------------------------------------------
/// Every file and symbolic link on the stack and below it, after those in
/// `done`.
pub open spec fn files_from(
    stack: Seq<Text>,
    done: Seq<(Text, FileStateModel)>,
    about: Text,
    tape: Tape,
) -> Run<Seq<(Text, FileStateModel)>>
    decreases tape.log.len() - tape.next,
{
    if stack.len() == 0 {
        Run::Gives(done, tape)
    } else {
        let path = stack.last();
        let rest = stack.drop_last();
        match heard(Ask::Kind(path), |answer: Answer| kind_in(answer), tape) {
            Run::Asks(ask, tape) => Run::Asks(ask, tape),
            Run::Fails(fault, tape) => Run::Fails(fault, tape),
            Run::Gives(HeardModel::Trouble(trouble), tape) => walk_failed(
                about,
                trouble.message,
                tape,
            ),
            Run::Gives(HeardModel::Got(Kind::Directory), tape) => match heard(
                Ask::List(path),
                |answer: Answer| names_in(answer),
                tape,
            ) {
                Run::Asks(ask, tape) => Run::Asks(ask, tape),
                Run::Fails(fault, tape) => Run::Fails(fault, tape),
                Run::Gives(HeardModel::Trouble(trouble), tape) => walk_failed(
                    about,
                    trouble.message,
                    tape,
                ),
                Run::Gives(HeardModel::Got(names), tape) => files_from(
                    rest + entries_of(path, names, true),
                    done,
                    about,
                    tape,
                ),
            },
            Run::Gives(HeardModel::Got(Kind::Symlink), tape) => match heard(
                Ask::ReadLink(path),
                |answer: Answer| text_in(answer),
                tape,
            ) {
                Run::Asks(ask, tape) => Run::Asks(ask, tape),
                Run::Fails(fault, tape) => Run::Fails(fault, tape),
                Run::Gives(HeardModel::Trouble(trouble), tape) => walk_failed(
                    about,
                    trouble.message,
                    tape,
                ),
                Run::Gives(HeardModel::Got(target), tape) => files_from(
                    rest,
                    done.push((path, FileStateModel::Symlink(target))),
                    about,
                    tape,
                ),
            },
            Run::Gives(HeardModel::Got(_), tape) => match heard(
                Ask::ReadBytes(path),
                |answer: Answer| bytes_in(answer),
                tape,
            ) {
                Run::Asks(ask, tape) => Run::Asks(ask, tape),
                Run::Fails(fault, tape) => Run::Fails(fault, tape),
                Run::Gives(HeardModel::Trouble(trouble), tape) => walk_failed(
                    about,
                    trouble.message,
                    tape,
                ),
                Run::Gives(HeardModel::Got(bytes), tape) => files_from(
                    rest,
                    done.push((path, FileStateModel::File(bytes))),
                    about,
                    tape,
                ),
            },
        }
    }
}

/// Every file and symbolic link of a worktree, with what it holds.
#[verifier::opaque]
pub open spec fn worktree_files_script(root: Text, tape: Tape) -> Run<
    Seq<(Text, FileStateModel)>,
> {
    heard(Ask::List(root), |answer: Answer| names_in(answer), tape).and_then(
        |found: HeardModel<Seq<Text>>, tape: Tape|
            match found {
                HeardModel::Got(names) => files_from(
                    entries_of(root, names, true),
                    Seq::empty(),
                    root,
                    tape,
                ),
                HeardModel::Trouble(trouble) => walk_failed(root, trouble.message, tape),
            },
    )
}

/// Every file and symbolic link of a worktree, with what it holds.
pub fn worktree_files(session: &mut Session, root: &str) -> (outcome: Result<
    Vec<(String, FileState)>,
    Stop,
>)
    ensures
        ran(outcome, final(session)@) == worktree_files_script(root@, old(session)@),
{
    proof {
        reveal(worktree_files_script);
    }
    let mut stack: Vec<String> = Vec::new();
    let mut done: Vec<(String, FileState)> = Vec::new();
    match session.names(Request::List(root.to_owned()))? {
        Heard::Got(names) => {
            push_entries(&mut stack, root, &names, true);
            assert(stack.deep_view() =~= entries_of(root@, names.deep_view(), true));
        },
        Heard::Trouble(trouble) => return Err(fail(root, &trouble.message)),
    }
    assert(done.deep_view() =~= Seq::empty());
    while stack.len() > 0
        invariant
            worktree_files_script(root@, old(session)@) == files_from(
                stack.deep_view(),
                done.deep_view(),
                root@,
                session@,
            ),
        decreases session@.log.len() - session@.next,
    {
        let ghost rest = stack.deep_view().drop_last();
        assert(stack.deep_view().last() == stack@.last()@);
        let path = match stack.pop() {
            Some(path) => path,
            None => return Ok(done),
        };
        assert(stack.deep_view() =~= rest);
        match session.kind(Request::Kind(path.clone()))? {
            Heard::Trouble(trouble) => return Err(fail(root, &trouble.message)),
            Heard::Got(Kind::Directory) => {
                match session.names(Request::List(path.clone()))? {
                    Heard::Got(names) => push_entries(&mut stack, &path, &names, true),
                    Heard::Trouble(trouble) => return Err(fail(root, &trouble.message)),
                }
            },
            Heard::Got(Kind::Symlink) => {
                match session.text(Request::ReadLink(path.clone()))? {
                    Heard::Got(target) => put(&mut done, (path, FileState::Symlink(target))),
                    Heard::Trouble(trouble) => return Err(fail(root, &trouble.message)),
                }
            },
            Heard::Got(_) => {
                match session.bytes(Request::ReadBytes(path.clone()))? {
                    Heard::Got(bytes) => {
                        assert(bytes.deep_view() =~= bytes@);
                        put(&mut done, (path, FileState::File(bytes)))
                    },
                    Heard::Trouble(trouble) => return Err(fail(root, &trouble.message)),
                }
            },
        }
    }
    Ok(done)
}

/// What one path holds, where it is a file or a symbolic link that can be read.
#[verifier::opaque]
pub open spec fn worktree_file_script(path: Text, tape: Tape) -> Run<Option<FileStateModel>> {
    heard(Ask::Kind(path), |answer: Answer| kind_in(answer), tape).and_then(
        |kind: HeardModel<Kind>, tape: Tape|
            match kind {
                HeardModel::Trouble(_) => Run::Gives(None, tape),
                HeardModel::Got(Kind::Directory) => Run::Gives(None, tape),
                HeardModel::Got(Kind::Symlink) => heard(
                    Ask::ReadLink(path),
                    |answer: Answer| text_in(answer),
                    tape,
                ).and_then(
                    |target: HeardModel<Text>, tape: Tape|
                        match target {
                            HeardModel::Got(target) => Run::Gives(
                                Some(FileStateModel::Symlink(target)),
                                tape,
                            ),
                            HeardModel::Trouble(_) => Run::Gives(None, tape),
                        },
                ),
                HeardModel::Got(_) => heard(
                    Ask::ReadBytes(path),
                    |answer: Answer| bytes_in(answer),
                    tape,
                ).and_then(
                    |bytes: HeardModel<Seq<u8>>, tape: Tape|
                        match bytes {
                            HeardModel::Got(bytes) => Run::Gives(
                                Some(FileStateModel::File(bytes)),
                                tape,
                            ),
                            HeardModel::Trouble(_) => Run::Gives(None, tape),
                        },
                ),
            },
    )
}

/// What one path holds, where it is a file or a symbolic link that can be read.
pub fn worktree_file(session: &mut Session, path: &str) -> (outcome: Result<
    Option<FileState>,
    Stop,
>)
    ensures
        ran(outcome, final(session)@) == worktree_file_script(path@, old(session)@),
{
    proof {
        reveal(worktree_file_script);
    }
    match session.kind(Request::Kind(path.to_owned()))? {
        Heard::Trouble(_) => Ok(None),
        Heard::Got(Kind::Directory) => Ok(None),
        Heard::Got(Kind::Symlink) => match session.text(Request::ReadLink(path.to_owned()))? {
            Heard::Got(target) => Ok(Some(FileState::Symlink(target))),
            Heard::Trouble(_) => Ok(None),
        },
        Heard::Got(_) => match session.bytes(Request::ReadBytes(path.to_owned()))? {
            Heard::Got(bytes) => {
                assert(bytes.deep_view() =~= bytes@);
                Ok(Some(FileState::File(bytes)))
            },
            Heard::Trouble(_) => Ok(None),
        },
    }
}

// ---------------------------------------------------------------------------
// Empty directories
// ---------------------------------------------------------------------------
/// Whether a path ends in git's own directory.
pub open spec fn is_git_dir(path: Text) -> bool {
    crate::paths::last_of(path) == ".git"@
}

/// Every empty directory on the stack and below it, after those in `done`. Git's
/// own directory is not entered.
pub open spec fn empty_from(
    stack: Seq<Text>,
    done: Seq<Text>,
    about: Text,
    tape: Tape,
) -> Run<Seq<Text>>
    decreases tape.log.len() - tape.next,
{
    if stack.len() == 0 {
        Run::Gives(done, tape)
    } else {
        let path = stack.last();
        let rest = stack.drop_last();
        match heard(Ask::Kind(path), |answer: Answer| kind_in(answer), tape) {
            Run::Asks(ask, tape) => Run::Asks(ask, tape),
            Run::Fails(fault, tape) => Run::Fails(fault, tape),
            Run::Gives(HeardModel::Trouble(trouble), tape) => walk_failed(
                about,
                trouble.message,
                tape,
            ),
            Run::Gives(HeardModel::Got(Kind::Directory), tape) => match heard(
                Ask::List(path),
                |answer: Answer| names_in(answer),
                tape,
            ) {
                Run::Asks(ask, tape) => Run::Asks(ask, tape),
                Run::Fails(fault, tape) => Run::Fails(fault, tape),
                Run::Gives(HeardModel::Trouble(trouble), tape) => walk_failed(
                    about,
                    trouble.message,
                    tape,
                ),
                Run::Gives(HeardModel::Got(names), tape) => if names.len() == 0 {
                    empty_from(rest, done.push(path), about, tape)
                } else if is_git_dir(path) {
                    empty_from(rest, done, about, tape)
                } else {
                    empty_from(rest + entries_of(path, names, false), done, about, tape)
                },
            },
            Run::Gives(HeardModel::Got(_), tape) => empty_from(rest, done, about, tape),
        }
    }
}

/// Every empty directory of a worktree.
#[verifier::opaque]
pub open spec fn empty_directories_script(root: Text, tape: Tape) -> Run<Seq<Text>> {
    heard(Ask::List(root), |answer: Answer| names_in(answer), tape).and_then(
        |found: HeardModel<Seq<Text>>, tape: Tape|
            match found {
                HeardModel::Got(names) => empty_from(
                    entries_of(root, names, false),
                    Seq::empty(),
                    root,
                    tape,
                ),
                HeardModel::Trouble(trouble) => walk_failed(root, trouble.message, tape),
            },
    )
}

/// Every empty directory of a worktree.
pub fn empty_directories(session: &mut Session, root: &str) -> (outcome: Result<
    Vec<String>,
    Stop,
>)
    ensures
        ran(outcome, final(session)@) == empty_directories_script(root@, old(session)@),
{
    proof {
        reveal(empty_directories_script);
    }
    let mut stack: Vec<String> = Vec::new();
    let mut done: Vec<String> = Vec::new();
    match session.names(Request::List(root.to_owned()))? {
        Heard::Got(names) => {
            push_entries(&mut stack, root, &names, false);
            assert(stack.deep_view() =~= entries_of(root@, names.deep_view(), false));
        },
        Heard::Trouble(trouble) => return Err(fail(root, &trouble.message)),
    }
    assert(done.deep_view() =~= Seq::empty());
    while stack.len() > 0
        invariant
            empty_directories_script(root@, old(session)@) == empty_from(
                stack.deep_view(),
                done.deep_view(),
                root@,
                session@,
            ),
        decreases session@.log.len() - session@.next,
    {
        let ghost rest = stack.deep_view().drop_last();
        assert(stack.deep_view().last() == stack@.last()@);
        let path = match stack.pop() {
            Some(path) => path,
            None => return Ok(done),
        };
        assert(stack.deep_view() =~= rest);
        match session.kind(Request::Kind(path.clone()))? {
            Heard::Trouble(trouble) => return Err(fail(root, &trouble.message)),
            Heard::Got(Kind::Directory) => {
                match session.names(Request::List(path.clone()))? {
                    Heard::Got(names) => {
                        if names.len() == 0 {
                            put(&mut done, path);
                        } else if !crate::paths::ends_in(&path, ".git") {
                            push_entries(&mut stack, &path, &names, false);
                        }
                    },
                    Heard::Trouble(trouble) => return Err(fail(root, &trouble.message)),
                }
            },
            Heard::Got(_) => {},
        }
    }
    Ok(done)
}

// ---------------------------------------------------------------------------
// Removing and copying
// ---------------------------------------------------------------------------
/// The request that removes a path of this kind.
pub open spec fn removal(path: Text, kind: Kind) -> Ask {
    if kind == Kind::Directory {
        Ask::RemoveTree(path)
    } else {
        Ask::RemoveFile(path)
    }
}

fn remove(path: &str, kind: Kind) -> (request: Request)
    ensures
        request.deep_view() == removal(path@, kind),
{
    if kind == Kind::Directory {
        Request::RemoveTree(path.to_owned())
    } else {
        Request::RemoveFile(path.to_owned())
    }
}

/// Has something done in the course of a walk.
#[verifier::opaque]
pub open spec fn act_script(ask: Ask, about: Text, tape: Tape) -> Run<()> {
    heard(ask, |answer: Answer| done_in(answer), tape).and_then(
        |outcome: HeardModel<()>, tape: Tape|
            match outcome {
                HeardModel::Got(_) => Run::Gives((), tape),
                HeardModel::Trouble(trouble) => walk_failed(about, trouble.message, tape),
            },
    )
}

fn act(session: &mut Session, request: Request, about: &str) -> (outcome: Result<(), Stop>)
    ensures
        ran(outcome, final(session)@) == act_script(request.deep_view(), about@, old(session)@),
{
    proof {
        reveal(act_script);
    }
    match session.done(request)? {
        Heard::Got(_) => Ok(()),
        Heard::Trouble(trouble) => Err(fail(about, &trouble.message)),
    }
}

/// Removes each path of the stack.
pub open spec fn clear_from(stack: Seq<Text>, about: Text, tape: Tape) -> Run<()>
    decreases stack.len(),
{
    if stack.len() == 0 {
        Run::Gives((), tape)
    } else {
        let path = stack.last();
        heard(Ask::Kind(path), |answer: Answer| kind_in(answer), tape).and_then(
            |kind: HeardModel<Kind>, tape: Tape|
                match kind {
                    HeardModel::Trouble(trouble) => walk_failed(about, trouble.message, tape),
                    HeardModel::Got(kind) => act_script(removal(path, kind), about, tape).and_then(
                        |removed: (), tape: Tape| clear_from(stack.drop_last(), about, tape),
                    ),
                },
        )
    }
}

/// Removes everything in a worktree but git's own directory.
#[verifier::opaque]
pub open spec fn clear_worktree_script(root: Text, tape: Tape) -> Run<()> {
    heard(Ask::List(root), |answer: Answer| names_in(answer), tape).and_then(
        |found: HeardModel<Seq<Text>>, tape: Tape|
            match found {
                HeardModel::Got(names) => clear_from(entries_of(root, names, true), root, tape),
                HeardModel::Trouble(trouble) => walk_failed(root, trouble.message, tape),
            },
    )
}

/// Removes everything in a worktree but git's own directory.
pub fn clear_worktree(session: &mut Session, root: &str) -> (outcome: Result<(), Stop>)
    ensures
        ran(outcome, final(session)@) == clear_worktree_script(root@, old(session)@),
{
    proof {
        reveal(clear_worktree_script);
    }
    let mut stack: Vec<String> = Vec::new();
    match session.names(Request::List(root.to_owned()))? {
        Heard::Got(names) => {
            push_entries(&mut stack, root, &names, true);
            assert(stack.deep_view() =~= entries_of(root@, names.deep_view(), true));
        },
        Heard::Trouble(trouble) => return Err(fail(root, &trouble.message)),
    }
    while stack.len() > 0
        invariant
            clear_worktree_script(root@, old(session)@) == clear_from(
                stack.deep_view(),
                root@,
                session@,
            ),
        decreases stack@.len(),
    {
        let ghost rest = stack.deep_view().drop_last();
        assert(stack.deep_view().last() == stack@.last()@);
        let path = match stack.pop() {
            Some(path) => path,
            None => return Ok(()),
        };
        assert(stack.deep_view() =~= rest);
        match session.kind(Request::Kind(path.clone()))? {
            Heard::Trouble(trouble) => return Err(fail(root, &trouble.message)),
            Heard::Got(kind) => act(session, remove(&path, kind), root)?,
        }
    }
    Ok(())
}

/// Removes what has a path, if anything does.
#[verifier::opaque]
pub open spec fn remove_existing_script(path: Text, about: Text, tape: Tape) -> Run<()> {
    heard(Ask::Kind(path), |answer: Answer| kind_in(answer), tape).and_then(
        |kind: HeardModel<Kind>, tape: Tape|
            match kind {
                HeardModel::Trouble(_) => Run::Gives((), tape),
                HeardModel::Got(kind) => act_script(removal(path, kind), about, tape),
            },
    )
}

fn remove_existing(session: &mut Session, path: &str, about: &str) -> (outcome: Result<(), Stop>)
    ensures
        ran(outcome, final(session)@) == remove_existing_script(path@, about@, old(session)@),
{
    proof {
        reveal(remove_existing_script);
    }
    match session.kind(Request::Kind(path.to_owned()))? {
        Heard::Trouble(_) => Ok(()),
        Heard::Got(kind) => act(session, remove(path, kind), about),
    }
}

/// Makes room for a directory: what has the path is removed unless it is one.
#[verifier::opaque]
pub open spec fn make_dir_script(path: Text, about: Text, tape: Tape) -> Run<()> {
    heard(Ask::Kind(path), |answer: Answer| kind_in(answer), tape).and_then(
        |kind: HeardModel<Kind>, tape: Tape|
            match kind {
                HeardModel::Got(kind) => if kind == Kind::Directory {
                    Run::Gives((), tape)
                } else {
                    act_script(Ask::RemoveFile(path), about, tape)
                },
                HeardModel::Trouble(_) => Run::Gives((), tape),
            },
    ).and_then(|ready: (), tape: Tape| act_script(Ask::CreateDirs(path), about, tape))
}

fn make_dir(session: &mut Session, path: &str, about: &str) -> (outcome: Result<(), Stop>)
    ensures
        ran(outcome, final(session)@) == make_dir_script(path@, about@, old(session)@),
{
    proof {
        reveal(make_dir_script);
    }
    if let Heard::Got(kind) = session.kind(Request::Kind(path.to_owned()))? {
        if kind != Kind::Directory {
            act(session, Request::RemoveFile(path.to_owned()), about)?;
        }
    }
    act(session, Request::CreateDirs(path.to_owned()), about)
}

/// Copies a symbolic link as one that points to the same.
#[verifier::opaque]
pub open spec fn copy_link_script(from: Text, to: Text, about: Text, tape: Tape) -> Run<()> {
    remove_existing_script(to, about, tape).and_then(|ready: (), tape: Tape|
    heard(Ask::Target(from), |answer: Answer| kind_in(answer), tape).and_then(
        |leads: HeardModel<Kind>, tape: Tape|
    heard(Ask::ReadLink(from), |answer: Answer| text_in(answer), tape).and_then(
        |target: HeardModel<Text>, tape: Tape|
            match target {
                HeardModel::Trouble(trouble) => walk_failed(about, trouble.message, tape),
                HeardModel::Got(target) => act_script(
                    Ask::Symlink(target, to, leads == HeardModel::Got(Kind::Directory)),
                    about,
                    tape,
                ),
            })))
}

fn copy_link(session: &mut Session, from: &str, to: &str, about: &str) -> (outcome: Result<
    (),
    Stop,
>)
    ensures
        ran(outcome, final(session)@) == copy_link_script(from@, to@, about@, old(session)@),
{
    proof {
        reveal(copy_link_script);
    }
    remove_existing(session, to, about)?;
    let directory = match session.kind(Request::Target(from.to_owned()))? {
        Heard::Got(kind) => kind == Kind::Directory,
        Heard::Trouble(_) => false,
    };
    match session.text(Request::ReadLink(from.to_owned()))? {
        Heard::Trouble(trouble) => Err(fail(about, &trouble.message)),
        Heard::Got(target) => act(session, Request::Symlink(target, to.to_owned(), directory), about),
    }
}

/// The entries of a directory and where each is copied to, as a stack.
pub open spec fn copies_of(from: Text, to: Text, names: Seq<Text>, skip: bool) -> Seq<(Text, Text)>
    decreases names.len(),
{
    if names.len() == 0 {
        Seq::empty()
    } else {
        let rest = copies_of(from, to, names.drop_first(), skip);
        if skip && names[0] == ".git"@ {
            rest
        } else {
            rest.push((inside(from, names[0]), inside(to, names[0])))
        }
    }
}

pub fn push_copies(
    stack: &mut Vec<(String, String)>,
    from: &str,
    to: &str,
    names: &Vec<String>,
    skip: bool,
)
    ensures
        final(stack).deep_view() == old(stack).deep_view() + copies_of(
            from@,
            to@,
            names.deep_view(),
            skip,
        ),
{
    let ghost all = names.deep_view();
    let ghost base = stack.deep_view();
    let mut i: usize = names.len();
    assert(all.skip(i as int) =~= Seq::empty());
    assert(base + Seq::empty() =~= base);
    while i > 0
        invariant
            i <= names@.len(),
            all == names.deep_view(),
            stack.deep_view() == base + copies_of(from@, to@, all.skip(i as int), skip),
        decreases i,
    {
        i = i - 1;
        assert(all.skip(i as int).drop_first() =~= all.skip(i + 1));
        assert(all.skip(i as int)[0] == names[i as int]@);
        if !(skip && same(&names[i], ".git")) {
            put(stack, (join_path(from, &names[i]), join_path(to, &names[i])));
            assert(stack.deep_view() =~= base + copies_of(from@, to@, all.skip(i as int), skip));
        }
    }
    assert(all.skip(0) =~= all);
}

/// Copies one entry, and gives the entries below it.
#[verifier::opaque]
pub open spec fn copy_entry_script(from: Text, to: Text, about: Text, tape: Tape) -> Run<
    Seq<(Text, Text)>,
> {
    heard(Ask::Kind(from), |answer: Answer| kind_in(answer), tape).and_then(
        |kind: HeardModel<Kind>, tape: Tape|
            match kind {
                HeardModel::Trouble(trouble) => walk_failed(about, trouble.message, tape),
                HeardModel::Got(Kind::Directory) => make_dir_script(to, about, tape).and_then(
                    |made: (), tape: Tape|
                        heard(Ask::List(from), |answer: Answer| names_in(answer), tape).and_then(
                            |found: HeardModel<Seq<Text>>, tape: Tape|
                                match found {
                                    HeardModel::Got(names) => Run::Gives(
                                        copies_of(from, to, names, false),
                                        tape,
                                    ),
                                    HeardModel::Trouble(trouble) => walk_failed(
                                        about,
                                        trouble.message,
                                        tape,
                                    ),
                                },
                        ),
                ),
                HeardModel::Got(Kind::Symlink) => copy_link_script(from, to, about, tape).and_then(
                    |copied: (), tape: Tape| Run::Gives(Seq::empty(), tape),
                ),
                HeardModel::Got(_) => remove_existing_script(to, about, tape).and_then(
                    |ready: (), tape: Tape|
                        act_script(Ask::Copy(from, to), about, tape).and_then(
                            |copied: (), tape: Tape| Run::Gives(Seq::empty(), tape),
                        ),
                ),
            },
    )
}

fn copy_entry(session: &mut Session, from: &str, to: &str, about: &str) -> (outcome: Result<
    Vec<(String, String)>,
    Stop,
>)
    ensures
        ran(outcome, final(session)@) == copy_entry_script(from@, to@, about@, old(session)@),
{
    proof {
        reveal(copy_entry_script);
    }
    let mut below: Vec<(String, String)> = Vec::new();
    assert(below.deep_view() =~= Seq::empty());
    match session.kind(Request::Kind(from.to_owned()))? {
        Heard::Trouble(trouble) => return Err(fail(about, &trouble.message)),
        Heard::Got(Kind::Directory) => {
            make_dir(session, to, about)?;
            match session.names(Request::List(from.to_owned()))? {
                Heard::Got(names) => {
                    push_copies(&mut below, from, to, &names, false);
                    assert(below.deep_view() =~= copies_of(from@, to@, names.deep_view(), false));
                },
                Heard::Trouble(trouble) => return Err(fail(about, &trouble.message)),
            }
        },
        Heard::Got(Kind::Symlink) => {
            copy_link(session, from, to, about)?;
        },
        Heard::Got(_) => {
            remove_existing(session, to, about)?;
            act(session, Request::Copy(from.to_owned(), to.to_owned()), about)?;
        },
    }
    Ok(below)
}

/// Copying an entry uses a reply.
pub proof fn copy_entry_advances(from: Text, to: Text, about: Text, tape: Tape)
    ensures
        copy_entry_script(from, to, about, tape) matches Run::Gives(_, after) ==> after.log
            == tape.log && tape.next < after.next <= tape.log.len(),
{
    reveal(copy_entry_script);
    reveal(make_dir_script);
    reveal(act_script);
    reveal(copy_link_script);
    reveal(remove_existing_script);
}

/// Copies every entry on the stack and below it.
pub open spec fn copy_from(stack: Seq<(Text, Text)>, about: Text, tape: Tape) -> Run<()>
    decreases tape.log.len() - tape.next,
{
    if stack.len() == 0 {
        Run::Gives((), tape)
    } else {
        proof {
            copy_entry_advances(stack.last().0, stack.last().1, about, tape);
        }
        match copy_entry_script(stack.last().0, stack.last().1, about, tape) {
            Run::Asks(ask, tape) => Run::Asks(ask, tape),
            Run::Fails(fault, tape) => Run::Fails(fault, tape),
            Run::Gives(below, tape) => copy_from(stack.drop_last() + below, about, tape),
        }
    }
}

/// Copies a worktree over another, all but git's own directory.
#[verifier::opaque]
pub open spec fn copy_worktree_script(source: Text, destination: Text, tape: Tape) -> Run<()> {
    heard(Ask::List(source), |answer: Answer| names_in(answer), tape).and_then(
        |found: HeardModel<Seq<Text>>, tape: Tape|
            match found {
                HeardModel::Got(names) => copy_from(
                    copies_of(source, destination, names, true),
                    source,
                    tape,
                ),
                HeardModel::Trouble(trouble) => walk_failed(source, trouble.message, tape),
            },
    )
}

/// Copies a worktree over another, all but git's own directory.
pub fn copy_worktree(session: &mut Session, source: &str, destination: &str) -> (outcome: Result<
    (),
    Stop,
>)
    ensures
        ran(outcome, final(session)@) == copy_worktree_script(
            source@,
            destination@,
            old(session)@,
        ),
{
    proof {
        reveal(copy_worktree_script);
    }
    let mut stack: Vec<(String, String)> = Vec::new();
    match session.names(Request::List(source.to_owned()))? {
        Heard::Got(names) => {
            push_copies(&mut stack, source, destination, &names, true);
            assert(stack.deep_view() =~= copies_of(
                source@,
                destination@,
                names.deep_view(),
                true,
            ));
        },
        Heard::Trouble(trouble) => return Err(fail(source, &trouble.message)),
    }
    while stack.len() > 0
        invariant
            copy_worktree_script(source@, destination@, old(session)@) == copy_from(
                stack.deep_view(),
                source@,
                session@,
            ),
        decreases session@.log.len() - session@.next,
    {
        let ghost rest = stack.deep_view().drop_last();
        assert(stack.deep_view().last() == (stack@.last().0@, stack@.last().1@));
        let (from, to) = match stack.pop() {
            Some(entry) => entry,
            None => return Ok(()),
        };
        assert(stack.deep_view() =~= rest);
        proof {
            copy_entry_advances(from@, to@, source@, session@);
        }
        let below = copy_entry(session, &from, &to, source)?;
        let ghost given = below.deep_view();
        let mut i: usize = 0;
        assert(rest + given.take(0) =~= rest);
        while i < below.len()
            invariant
                i <= below@.len(),
                given == below.deep_view(),
                stack.deep_view() == rest + given.take(i as int),
            decreases below@.len() - i,
        {
            put(&mut stack, (below[i].0.clone(), below[i].1.clone()));
            i = i + 1;
            assert(stack.deep_view() =~= rest + given.take(i as int));
        }
        assert(given.take(given.len() as int) =~= given);
    }
    Ok(())
}

// ---------------------------------------------------------------------------
// Ignore files
// ---------------------------------------------------------------------------
/// An entry on the way to the ignore files: the directory it is in, that
/// directory relative to the worktree, and its name.
pub struct Entry {
    pub dir: String,
    pub relative: String,
    pub name: String,
}

/// The model of an [`Entry`].
pub struct EntryModel {
    pub dir: Text,
    pub relative: Text,
    pub name: Text,
}

impl DeepView for Entry {
    type V = EntryModel;

    open spec fn deep_view(&self) -> EntryModel {
        EntryModel { dir: self.dir@, relative: self.relative@, name: self.name@ }
    }
}

/// The entries of a directory as a stack.
pub open spec fn named_in(dir: Text, relative: Text, names: Seq<Text>) -> Seq<EntryModel>
    decreases names.len(),
{
    if names.len() == 0 {
        Seq::empty()
    } else {
        named_in(dir, relative, names.drop_first()).push(
            EntryModel { dir, relative, name: names[0] },
        )
    }
}

fn push_named(stack: &mut Vec<Entry>, dir: &str, relative: &str, names: &Vec<String>)
    ensures
        final(stack).deep_view() == old(stack).deep_view() + named_in(
            dir@,
            relative@,
            names.deep_view(),
        ),
{
    let ghost all = names.deep_view();
    let ghost base = stack.deep_view();
    let mut i: usize = names.len();
    assert(all.skip(i as int) =~= Seq::empty());
    assert(base + Seq::empty() =~= base);
    while i > 0
        invariant
            i <= names@.len(),
            all == names.deep_view(),
            stack.deep_view() == base + named_in(dir@, relative@, all.skip(i as int)),
        decreases i,
    {
        i = i - 1;
        assert(all.skip(i as int).drop_first() =~= all.skip(i + 1));
        assert(all.skip(i as int)[0] == names[i as int]@);
        put(
            stack,
            Entry { dir: dir.to_owned(), relative: relative.to_owned(), name: names[i].clone() },
        );
        assert(stack.deep_view() =~= base + named_in(dir@, relative@, all.skip(i as int)));
    }
    assert(all.skip(0) =~= all);
}

/// That an ignore file would be overwritten.
pub open spec fn ignore_file_collides(relative: Text) -> Fault {
    Fault::Refused(
        "applying this rehearsal would overwrite untracked file(s):\n"@ + relative
            + " is untracked but becomes tracked\nKeep them elsewhere or rehearse again from here."@,
    )
}

/// Removes one ignore file from the copy, unless it is untracked and would
/// become tracked.
#[verifier::opaque]
pub open spec fn remove_ignore_file_script(
    dir: Text,
    relative: Text,
    name: Text,
    repo: Text,
    rehearsed: Text,
    target: Text,
    tape: Tape,
) -> Run<()> {
    let relative = inside(relative, name);
    if !vstd::utf8::valid_utf8(bytes_of_text(relative)) {
        Run::Fails(Fault::Sandbox("cannot inspect a non-UTF-8 ignore file path"@), tape)
    } else {
        git::run_script(
            repo,
            seq!["ls-files"@, "--error-unmatch"@, "--"@, relative],
            tape,
        ).either(
            |listing: Text, tape: Tape| Run::Gives(true, tape),
            |fault: Fault, tape: Tape| Run::Gives(false, tape),
        ).and_then(|known: bool, tape: Tape|
        if known {
            Run::Gives(false, tape)
        } else {
            git::run_script(
                rehearsed,
                seq!["ls-tree"@, "-r"@, "--name-only"@, target, "--"@, relative],
                tape,
            ).and_then(|listing: Text, tape: Tape| Run::Gives(listing.len() > 0, tape))
        }).and_then(|collides: bool, tape: Tape|
        if collides {
            Run::Fails(ignore_file_collides(displayed(relative)), tape)
        } else {
            act_script(Ask::RemoveFile(inside(dir, name)), dir, tape)
        })
    }
}

fn remove_ignore_file(
    session: &mut Session,
    entry: &Entry,
    repo: &str,
    rehearsed: &str,
    target: &str,
) -> (outcome: Result<(), Stop>)
    ensures
        ran(outcome, final(session)@) == remove_ignore_file_script(
            entry.dir@,
            entry.relative@,
            entry.name@,
            repo@,
            rehearsed@,
            target@,
            old(session)@,
        ),
{
    proof {
        reveal(remove_ignore_file_script);
    }
    let relative = join_path(&entry.relative, &entry.name);
    if utf8(&to_bytes(&relative)).is_none() {
        return Err(
            Stop::Fail(
                Error::Sandbox("cannot inspect a non-UTF-8 ignore file path".to_owned()),
            ),
        );
    }
    let known = caught(
        git::run(
            session,
            repo,
            args4("ls-files", "--error-unmatch", "--", &relative),
        ),
    )?.is_ok();
    if !known {
        let listing = git::run(
            session,
            rehearsed,
            args6("ls-tree", "-r", "--name-only", target, "--", &relative),
        )?;
        if !listing.as_str().is_empty() {
            return Err(
                Stop::Fail(
                    Error::Refused(
                        cat3(
                            "applying this rehearsal would overwrite untracked file(s):\n",
                            &display(&relative),
                            " is untracked but becomes tracked\nKeep them elsewhere or rehearse again from here.",
                        ),
                    ),
                ),
            );
        }
    }
    act(session, Request::RemoveFile(join_path(&entry.dir, &entry.name)), &entry.dir)
}

/// Deals with one entry, and gives the entries below it: a directory is entered
/// unless it is git's own, and an ignore file is removed.
#[verifier::opaque]
pub open spec fn ignore_entry_script(
    entry: EntryModel,
    repo: Text,
    rehearsed: Text,
    target: Text,
    tape: Tape,
) -> Run<Seq<EntryModel>> {
    let path = inside(entry.dir, entry.name);
    heard(Ask::Kind(path), |answer: Answer| kind_in(answer), tape).and_then(
        |kind: HeardModel<Kind>, tape: Tape|
            match kind {
                HeardModel::Trouble(trouble) => walk_failed(path, trouble.message, tape),
                HeardModel::Got(kind) => if kind == Kind::Directory {
                    if entry.name == ".git"@ {
                        Run::Gives(Seq::empty(), tape)
                    } else {
                        heard(Ask::List(path), |answer: Answer| names_in(answer), tape).and_then(
                            |found: HeardModel<Seq<Text>>, tape: Tape|
                                match found {
                                    HeardModel::Got(names) => Run::Gives(
                                        named_in(path, inside(entry.relative, entry.name), names),
                                        tape,
                                    ),
                                    HeardModel::Trouble(trouble) => walk_failed(
                                        path,
                                        trouble.message,
                                        tape,
                                    ),
                                },
                        )
                    }
                } else if entry.name == ".gitignore"@ {
                    remove_ignore_file_script(
                        entry.dir,
                        entry.relative,
                        entry.name,
                        repo,
                        rehearsed,
                        target,
                        tape,
                    ).and_then(|removed: (), tape: Tape| Run::Gives(Seq::empty(), tape))
                } else {
                    Run::Gives(Seq::empty(), tape)
                },
            },
    )
}

fn ignore_entry(
    session: &mut Session,
    entry: &Entry,
    repo: &str,
    rehearsed: &str,
    target: &str,
) -> (outcome: Result<Vec<Entry>, Stop>)
    ensures
        ran(outcome, final(session)@) == ignore_entry_script(
            entry.deep_view(),
            repo@,
            rehearsed@,
            target@,
            old(session)@,
        ),
{
    proof {
        reveal(ignore_entry_script);
    }
    let mut below: Vec<Entry> = Vec::new();
    assert(below.deep_view() =~= Seq::empty());
    let path = join_path(&entry.dir, &entry.name);
    match session.kind(Request::Kind(path.clone()))? {
        Heard::Trouble(trouble) => return Err(fail(&path, &trouble.message)),
        Heard::Got(kind) => {
            if kind == Kind::Directory {
                if !same(&entry.name, ".git") {
                    match session.names(Request::List(path.clone()))? {
                        Heard::Got(names) => {
                            let relative = join_path(&entry.relative, &entry.name);
                            push_named(&mut below, &path, &relative, &names);
                            assert(below.deep_view() =~= named_in(
                                path@,
                                relative@,
                                names.deep_view(),
                            ));
                        },
                        Heard::Trouble(trouble) => return Err(fail(&path, &trouble.message)),
                    }
                }
            } else if same(&entry.name, ".gitignore") {
                remove_ignore_file(session, entry, repo, rehearsed, target)?;
            }
        },
    }
    Ok(below)
}

/// Dealing with an entry uses a reply.
pub proof fn ignore_entry_advances(
    entry: EntryModel,
    repo: Text,
    rehearsed: Text,
    target: Text,
    tape: Tape,
)
    ensures
        ignore_entry_script(entry, repo, rehearsed, target, tape) matches Run::Gives(_, after)
            ==> after.log == tape.log && tape.next < after.next <= tape.log.len(),
{
    reveal(ignore_entry_script);
    reveal(remove_ignore_file_script);
    reveal(act_script);
    reveal(git::run_script);
    reveal(git::captured);
}

/// Deals with every entry on the stack and below it.
pub open spec fn ignore_from(
    stack: Seq<EntryModel>,
    repo: Text,
    rehearsed: Text,
    target: Text,
    tape: Tape,
) -> Run<()>
    decreases tape.log.len() - tape.next,
{
    if stack.len() == 0 {
        Run::Gives((), tape)
    } else {
        proof {
            ignore_entry_advances(stack.last(), repo, rehearsed, target, tape);
        }
        match ignore_entry_script(stack.last(), repo, rehearsed, target, tape) {
            Run::Asks(ask, tape) => Run::Asks(ask, tape),
            Run::Fails(fault, tape) => Run::Fails(fault, tape),
            Run::Gives(below, tape) => ignore_from(
                stack.drop_last() + below,
                repo,
                rehearsed,
                target,
                tape,
            ),
        }
    }
}

/// Removes the ignore files from the copy, so that git's own check asks about
/// ignored paths too.
#[verifier::opaque]
pub open spec fn remove_ignore_files_script(
    root: Text,
    repo: Text,
    rehearsed: Text,
    target: Text,
    tape: Tape,
) -> Run<()> {
    heard(Ask::List(root), |answer: Answer| names_in(answer), tape).and_then(
        |found: HeardModel<Seq<Text>>, tape: Tape|
            match found {
                HeardModel::Got(names) => ignore_from(
                    named_in(root, Seq::empty(), names),
                    repo,
                    rehearsed,
                    target,
                    tape,
                ),
                HeardModel::Trouble(trouble) => walk_failed(root, trouble.message, tape),
            },
    )
}

/// Removes the ignore files from the copy, so that git's own check asks about
/// ignored paths too. Refuses where one of them is untracked here and tracked in
/// the target.
pub fn remove_ignore_files(
    session: &mut Session,
    root: &str,
    repo: &str,
    rehearsed: &str,
    target: &str,
) -> (outcome: Result<(), Stop>)
    ensures
        ran(outcome, final(session)@) == remove_ignore_files_script(
            root@,
            repo@,
            rehearsed@,
            target@,
            old(session)@,
        ),
{
    proof {
        reveal(remove_ignore_files_script);
        reveal_strlit("");
        assert(""@ =~= Seq::<char>::empty());
    }
    let mut stack: Vec<Entry> = Vec::new();
    match session.names(Request::List(root.to_owned()))? {
        Heard::Got(names) => {
            push_named(&mut stack, root, "", &names);
            assert(stack.deep_view() =~= named_in(root@, Seq::empty(), names.deep_view()));
        },
        Heard::Trouble(trouble) => return Err(fail(root, &trouble.message)),
    }
    while stack.len() > 0
        invariant
            remove_ignore_files_script(root@, repo@, rehearsed@, target@, old(session)@)
                == ignore_from(stack.deep_view(), repo@, rehearsed@, target@, session@),
        decreases session@.log.len() - session@.next,
    {
        let ghost rest = stack.deep_view().drop_last();
        assert(stack.deep_view().last() == stack@.last().deep_view());
        let entry = match stack.pop() {
            Some(entry) => entry,
            None => return Ok(()),
        };
        assert(stack.deep_view() =~= rest);
        proof {
            ignore_entry_advances(entry.deep_view(), repo@, rehearsed@, target@, session@);
        }
        let below = ignore_entry(session, &entry, repo, rehearsed, target)?;
        let ghost given = below.deep_view();
        let mut i: usize = 0;
        assert(rest + given.take(0) =~= rest);
        while i < below.len()
            invariant
                i <= below@.len(),
                given == below.deep_view(),
                stack.deep_view() == rest + given.take(i as int),
            decreases below@.len() - i,
        {
            let next = &below[i];
            put(
                &mut stack,
                Entry {
                    dir: next.dir.clone(),
                    relative: next.relative.clone(),
                    name: next.name.clone(),
                },
            );
            i = i + 1;
            assert(stack.deep_view() =~= rest + given.take(i as int));
        }
        assert(given.take(given.len() as int) =~= given);
    }
    Ok(())
}

} // verus!
