//! Putting the refs back where `apply` found them.
//!
//! Applying is a transaction with an inverse, and this is the inverse: another
//! transplant, back along the same edge, made out of commit ids that were
//! written down before the first one happened. Every move states the value the
//! apply left, so git itself refuses the batch where a ref moved since.
//!
//! There is one record per repository, at a fixed path. A second apply
//! overwrites it and a successful undo consumes it.

use vstd::prelude::*;

use crate::analyze::{RefMove, RefMoveModel};
use crate::compose::{args2, args3, args4, args5, cat2, cat3, cat5};
use crate::error::{Error, Fault};
use crate::files::{do_script, perform, read_text, read_text_script};
use crate::git;
use crate::parts::{join, joined, starts_with};
use crate::paths::{display, displayed, inside, join_path};
use crate::refcommands::{
    commands_of, commands_text, payload, reverse, reversed_moves,
};
use crate::refs::{lookup, Entries, RefMap};
use crate::session::{
    caught, ran, Ask, Heard, HeardModel, Request, Run, Session, Stop, Tape,
};
use crate::text::{bytes_of, put, same, same_text, Text};

pub mod record;
pub mod roundtrip;

pub use crate::undo::record::{
    parse, render, Record, RecordModel, ABSENT, RECORD_SCHEMA,
};
use crate::undo::record::{parsed, rendered};

verus! {

/// Where the undo record is written, inside the repository's git directory.
pub const UNDO_FILE: &'static str = "rehearse-undo";

/// What an undo did.
#[derive(Debug, PartialEq, Eq)]
pub struct Undone {
    /// The rehearsal whose apply was taken back.
    pub rehearsal: String,
    /// When that apply happened, seconds since 1970.
    pub applied_at_unix: u64,
    /// The refs that were put back, in the direction the undo moved them:
    /// `before` is where the apply had left them, `after` is where they are now.
    pub restored: Vec<RefMove>,
    /// The branch whose worktree was reset, if the restored branch was the one
    /// checked out.
    pub reset: Option<String>,
    /// The record that was consumed.
    pub record: String,
}

/// The model of an [`Undone`].
pub struct UndoneModel {
    pub rehearsal: Text,
    pub applied_at_unix: u64,
    pub restored: Seq<RefMoveModel>,
    pub reset: Option<Text>,
    pub record: Text,
}

impl DeepView for Undone {
    type V = UndoneModel;

    open spec fn deep_view(&self) -> UndoneModel {
        UndoneModel {
            rehearsal: self.rehearsal@,
            applied_at_unix: self.applied_at_unix,
            restored: self.restored.deep_view(),
            reset: self.reset.deep_view(),
            record: self.record@,
        }
    }
}

// ---------------------------------------------------------------------------
// What both apply and undo look at
// ---------------------------------------------------------------------------
/// The checked-out branch, or nothing for a detached `HEAD`.
#[verifier::opaque]
pub open spec fn current_branch_script(repo: Text, tape: Tape) -> Run<Option<Text>> {
    git::run_script(repo, seq!["symbolic-ref"@, "--quiet"@, "--short"@, "HEAD"@], tape).either(
        |branch: Text, tape: Tape| Run::Gives(Some(branch), tape),
        |fault: Fault, tape: Tape| Run::Gives(None, tape),
    )
}

/// The checked-out branch, or `None` for a detached `HEAD`.
pub fn current_branch(session: &mut Session, repo: &str) -> (outcome: Result<Option<String>, Stop>)
    ensures
        ran(outcome, final(session)@) == current_branch_script(repo@, old(session)@),
{
    proof {
        reveal(current_branch_script);
    }
    match caught(git::run(session, repo, args4("symbolic-ref", "--quiet", "--short", "HEAD")))? {
        Ok(branch) => Ok(Some(branch)),
        Err(_) => Ok(None),
    }
}

/// Whether tracked files have changes that `git reset --hard` would discard.
#[verifier::opaque]
pub open spec fn has_changes_script(repo: Text, tape: Tape) -> Run<bool> {
    git::run_script(repo, seq!["status"@, "--porcelain"@, "--untracked-files=no"@], tape).and_then(
        |status: Text, tape: Tape| Run::Gives(status.len() != 0, tape),
    )
}

/// Whether tracked files have changes that `git reset --hard` would discard.
pub fn has_changes(session: &mut Session, repo: &str) -> (outcome: Result<bool, Stop>)
    ensures
        ran(outcome, final(session)@) == has_changes_script(repo@, old(session)@),
{
    proof {
        reveal(has_changes_script);
    }
    let status = git::run(session, repo, args3("status", "--porcelain", "--untracked-files=no"))?;
    Ok(!status.as_str().is_empty())
}

/// Moves refs in one transaction, all or nothing, with a line in the reflog.
#[verifier::opaque]
pub open spec fn move_refs_script(repo: Text, commands: Text, message: Text, tape: Tape) -> Run<()> {
    if commands.len() == 0 {
        Run::Gives((), tape)
    } else {
        git::run_with_stdin_script(
            repo,
            seq!["update-ref"@, "-m"@, message, "--stdin"@, "-z"@],
            commands,
            tape,
        ).and_then(|output: Text, tape: Tape| Run::Gives((), tape))
    }
}

/// Moves refs in one transaction, all or nothing, with a line in the reflog.
pub fn move_refs(session: &mut Session, repo: &str, commands: &str, message: &str) -> (outcome:
    Result<(), Stop>)
    ensures
        ran(outcome, final(session)@) == move_refs_script(
            repo@,
            commands@,
            message@,
            old(session)@,
        ),
{
    proof {
        reveal(move_refs_script);
    }
    if commands.is_empty() {
        return Ok(());
    }
    git::run_with_stdin(
        session,
        repo,
        args5("update-ref", "-m", message, "--stdin", "-z"),
        commands,
    )?;
    Ok(())
}

/// The record's path.
#[verifier::opaque]
pub open spec fn record_path_script(repo: Text, tape: Tape) -> Run<Text> {
    git::path_script(repo, seq!["rev-parse"@, "--absolute-git-dir"@], tape).and_then(
        |dir: Text, tape: Tape| Run::Gives(inside(dir, UNDO_FILE@), tape),
    )
}

/// The record's path.
pub fn record_path(session: &mut Session, repo: &str) -> (outcome: Result<String, Stop>)
    ensures
        ran(outcome, final(session)@) == record_path_script(repo@, old(session)@),
{
    proof {
        reveal(record_path_script);
    }
    let dir = git::run_path(session, repo, args2("rev-parse", "--absolute-git-dir"))?;
    Ok(join_path(&dir, UNDO_FILE))
}

// ---------------------------------------------------------------------------
// Writing the record
// ---------------------------------------------------------------------------
/// Writes the record and gives where it went.
#[verifier::opaque]
pub open spec fn write_script(repo: Text, record: RecordModel, tape: Tape) -> Run<Text> {
    record_path_script(repo, tape).and_then(|path: Text, tape: Tape|
    do_script(
        Ask::Write(path, vstd::utf8::encode_utf8(rendered(record))),
        path,
        tape,
    ).and_then(|done: (), tape: Tape| Run::Gives(path, tape)))
}

/// Writes the record, and returns where it went. It is called before the
/// transaction, so that a crash in the middle of an apply still leaves the way
/// back written down.
pub fn write(session: &mut Session, repo: &str, record: &Record) -> (outcome: Result<String, Stop>)
    ensures
        ran(outcome, final(session)@) == write_script(repo@, record.deep_view(), old(session)@),
{
    proof {
        reveal(write_script);
    }
    let path = record_path(session, repo)?;
    let bytes = bytes_of(&render(record));
    perform(session, Request::Write(path.clone(), bytes), &path)?;
    Ok(path)
}

// ---------------------------------------------------------------------------
// What undo refuses
// ---------------------------------------------------------------------------
pub open spec fn nothing_to_undo_of(path: Text) -> Fault {
    Fault::Refused(
        "there is nothing to undo: no undo record at "@ + displayed(path)
            + ".\nOnly `git rehearse apply` writes one, and a successful undo uses it up."@,
    )
}

pub open spec fn moved_nothing(rehearsal: Text, path: Text) -> Fault {
    Fault::Refused(
        "the apply of rehearsal "@ + rehearsal
            + " moved no branch, so there is nothing to put back.\nThe record is "@ + displayed(path)
            + "; delete it if it is in your way."@,
    )
}

/// Whether the record is of the apply that the caller had in mind.
pub open spec fn is_meant(record: RecordModel, id: Option<Text>) -> bool {
    match id {
        Some(id) => id.is_prefix_of(record.rehearsal),
        None => true,
    }
}

pub open spec fn not_meant(record: RecordModel, id: Option<Text>) -> Fault {
    Fault::Refused(
        "the undo record is from the apply of rehearsal "@ + record.rehearsal + ", not "@ + (id->0)
            + ".\nOnly the most recent apply can be undone: there is one record per repository, and applying again overwrites it."@,
    )
}

/// How a ref differs from where the apply left it.
pub open spec fn difference(moved: RefMoveModel, now: Option<Text>) -> Option<Text> {
    match (now, moved.after) {
        (Some(is), Some(left_at)) => if is == left_at {
            None
        } else {
            Some("  "@ + moved.name + " is now "@ + is + ", the apply left it at "@ + left_at)
        },
        (Some(is), None) => Some(
            "  "@ + moved.name + " is back at "@ + is + ", the apply deleted it"@,
        ),
        (None, Some(left_at)) => Some(
            "  "@ + moved.name + " is gone, the apply left it at "@ + left_at,
        ),
        (None, None) => None,
    }
}

/// How the refs differ from where the apply left them.
pub open spec fn differences(refs: Seq<RefMoveModel>, now: Entries) -> Seq<Text>
    decreases refs.len(),
{
    if refs.len() == 0 {
        Seq::empty()
    } else {
        let earlier = differences(refs.drop_last(), now);
        match difference(refs.last(), lookup(now, refs.last().name)) {
            Some(line) => earlier.push(line),
            None => earlier,
        }
    }
}

pub open spec fn has_moved_on(rehearsal: Text, differences: Seq<Text>) -> Fault {
    Fault::Refused(
        "the repository has changed since the apply of rehearsal "@ + rehearsal + ":\n"@ + joined(
            differences,
            "\n"@,
        )
            + "\nUndoing now would throw away whatever happened in between, so it is refused. Restore the refs you actually want by hand — the record says where each one was."@,
    )
}

/// What an undo has to do about the worktree.
#[derive(Debug, PartialEq, Eq)]
pub enum Worktree {
    /// Nothing: the checked-out branch is not one the undo moves.
    Untouched,
    /// The checked-out branch is rewound, so the worktree follows it.
    Reset(String),
    /// The undo would delete the branch that is checked out.
    Refuse(String),
}

/// The model of a [`Worktree`].
pub enum WorktreeModel {
    Untouched,
    Reset(Text),
    Refuse(Text),
}

impl DeepView for Worktree {
    type V = WorktreeModel;

    open spec fn deep_view(&self) -> WorktreeModel {
        match self {
            Worktree::Untouched => WorktreeModel::Untouched,
            Worktree::Reset(branch) => WorktreeModel::Reset(branch@),
            Worktree::Refuse(branch) => WorktreeModel::Refuse(branch@),
        }
    }
}

/// The first move of a ref.
pub open spec fn move_of(moves: Seq<RefMoveModel>, name: Text) -> Option<RefMoveModel>
    decreases moves.len(),
{
    if moves.len() == 0 {
        None
    } else if moves[0].name == name {
        Some(moves[0])
    } else {
        move_of(moves.drop_first(), name)
    }
}

/// What an undo of `refs` has to do about the worktree while `current` is
/// checked out. Deleting the checkout is not a reset, because there is nothing
/// to reset to.
pub open spec fn action_of(current: Option<Text>, refs: Seq<RefMoveModel>) -> WorktreeModel {
    match current {
        None => WorktreeModel::Untouched,
        Some(branch) => match move_of(refs, "refs/heads/"@ + branch) {
            None => WorktreeModel::Untouched,
            Some(moved) => if moved.before is None {
                WorktreeModel::Refuse(branch)
            } else if moved.before == moved.after {
                WorktreeModel::Untouched
            } else {
                WorktreeModel::Reset(branch)
            },
        },
    }
}

pub open spec fn would_delete_the_checkout(branch: Text) -> Fault {
    Fault::Refused(
        "undoing this apply would delete "@ + branch
            + ", which is the branch you have checked out.\nCheck out another branch first, then undo."@,
    )
}

pub open spec fn worktree_in_the_way() -> Fault {
    Fault::Refused(
        "undoing this apply rewinds the branch you have checked out, and your worktree has uncommitted changes that `git reset --hard` would destroy.\nCommit or stash them first."@,
    )
}

/// Refuses a record that is not the apply the caller had in mind.
pub fn check_is_the_one_meant(record: &Record, id: Option<&str>) -> (outcome: Result<(), Error>)
    ensures
        ({
            let id = match id {
                Some(id) => Some(id@),
                None => None,
            };
            match outcome {
                Ok(_) => is_meant(record.deep_view(), id),
                Err(error) => !is_meant(record.deep_view(), id) && error.deep_view() == not_meant(
                    record.deep_view(),
                    id,
                ),
            }
        }),
{
    if let Some(id) = id {
        if !starts_with(&record.rehearsal, id) {
            return Err(
                Error::Refused(
                    cat5(
                        "the undo record is from the apply of rehearsal ",
                        &record.rehearsal,
                        ", not ",
                        id,
                        ".\nOnly the most recent apply can be undone: there is one record per repository, and applying again overwrites it.",
                    ),
                ),
            );
        }
    }
    Ok(())
}

/// How the refs differ from where the apply left them.
fn changes_since(refs: &Vec<RefMove>, now: &RefMap) -> (found: Vec<String>)
    ensures
        found.deep_view() == differences(refs.deep_view(), now.deep_view()),
{
    let ghost all = refs.deep_view();
    let mut found: Vec<String> = Vec::new();
    let mut i: usize = 0;
    assert(all.take(0) =~= Seq::empty());
    assert(found.deep_view() =~= Seq::empty());
    while i < refs.len()
        invariant
            i <= refs@.len(),
            all == refs.deep_view(),
            found.deep_view() == differences(all.take(i as int), now.deep_view()),
        decreases refs@.len() - i,
    {
        assert(all.take(i + 1).drop_last() =~= all.take(i as int));
        assert(all.take(i + 1).last() == refs[i as int].deep_view());
        let moved = &refs[i];
        let name = &moved.name;
        match (now.get(name), &moved.after) {
            (Some(is), Some(left_at)) => if !same(&is, left_at) {
                put(
                    &mut found,
                    cat2(&cat5("  ", name, " is now ", &is, ", the apply left it at "), left_at),
                );
            },
            (Some(is), None) => {
                put(&mut found, cat5("  ", name, " is back at ", &is, ", the apply deleted it"));
            },
            (None, Some(left_at)) => {
                put(
                    &mut found,
                    cat2(&cat3("  ", name, " is gone, the apply left it at "), left_at),
                );
            },
            (None, None) => {},
        }
        i = i + 1;
    }
    assert(all.take(all.len() as int) =~= all);
    found
}

/// Refuses when the refs are not where the apply left them. Git checks it a
/// second time inside the transaction; this exists to produce a message a human
/// can act on.
pub fn check_still_applied(record: &Record, now: &RefMap) -> (outcome: Result<(), Error>)
    ensures
        ({
            let found = differences(record.deep_view().refs, now.deep_view());
            match outcome {
                Ok(_) => found.len() == 0,
                Err(error) => found.len() != 0 && error.deep_view() == has_moved_on(
                    record.rehearsal@,
                    found,
                ),
            }
        }),
{
    let found = changes_since(&record.refs, now);
    if found.len() == 0 {
        return Ok(());
    }
    Err(
        Error::Refused(
            cat5(
                "the repository has changed since the apply of rehearsal ",
                &record.rehearsal,
                ":\n",
                &join(&found, "\n"),
                "\nUndoing now would throw away whatever happened in between, so it is refused. Restore the refs you actually want by hand — the record says where each one was.",
            ),
        ),
    )
}

/// The first move of a ref.
pub fn find_move<'a>(moves: &'a Vec<RefMove>, name: &str) -> (found: Option<&'a RefMove>)
    ensures
        found.deep_view() == move_of(moves.deep_view(), name@),
{
    let ghost all = moves.deep_view();
    let mut i: usize = 0;
    assert(all.skip(0) =~= all);
    while i < moves.len()
        invariant
            i <= moves@.len(),
            all == moves.deep_view(),
            move_of(all, name@) == move_of(all.skip(i as int), name@),
        decreases moves@.len() - i,
    {
        assert(all.skip(i as int).drop_first() =~= all.skip(i + 1));
        assert(all.skip(i as int)[0] == moves[i as int].deep_view());
        if same(&moves[i].name, name) {
            return Some(&moves[i]);
        }
        i = i + 1;
    }
    None
}

/// What an undo of `refs` has to do about the worktree while `current` is
/// checked out.
pub fn worktree_action(current: &Option<String>, refs: &Vec<RefMove>) -> (action: Worktree)
    ensures
        action.deep_view() == action_of(current.deep_view(), refs.deep_view()),
{
    let branch = match current {
        Some(branch) => branch,
        None => return Worktree::Untouched,
    };
    match find_move(refs, &cat2("refs/heads/", branch)) {
        None => Worktree::Untouched,
        Some(moved) => if moved.before.is_none() {
            Worktree::Refuse(branch.clone())
        } else if same_text(&moved.before, &moved.after) {
            Worktree::Untouched
        } else {
            Worktree::Reset(branch.clone())
        },
    }
}

// ---------------------------------------------------------------------------
// Undoing
// ---------------------------------------------------------------------------
/// The branch whose worktree an undo resets, if it may go on at all.
#[verifier::opaque]
pub open spec fn reset_script(repo: Text, refs: Seq<RefMoveModel>, tape: Tape) -> Run<
    Option<Text>,
> {
    current_branch_script(repo, tape).and_then(|current: Option<Text>, tape: Tape|
        match action_of(current, refs) {
            WorktreeModel::Refuse(branch) => Run::Fails(would_delete_the_checkout(branch), tape),
            WorktreeModel::Reset(branch) => has_changes_script(repo, tape).and_then(
                |changed: bool, tape: Tape|
                    if changed {
                        Run::Fails(worktree_in_the_way(), tape)
                    } else {
                        Run::Gives(Some(branch), tape)
                    },
            ),
            WorktreeModel::Untouched => Run::Gives(None, tape),
        })
}

fn decide_reset(session: &mut Session, repo: &str, refs: &Vec<RefMove>) -> (outcome: Result<
    Option<String>,
    Stop,
>)
    ensures
        ran(outcome, final(session)@) == reset_script(repo@, refs.deep_view(), old(session)@),
{
    proof {
        reveal(reset_script);
    }
    let current = current_branch(session, repo)?;
    match worktree_action(&current, refs) {
        Worktree::Refuse(branch) => Err(
            Stop::Fail(
                Error::Refused(
                    cat3(
                        "undoing this apply would delete ",
                        &branch,
                        ", which is the branch you have checked out.\nCheck out another branch first, then undo.",
                    ),
                ),
            ),
        ),
        Worktree::Reset(branch) => {
            if has_changes(session, repo)? {
                return Err(
                    Stop::Fail(
                        Error::Refused(
                            "undoing this apply rewinds the branch you have checked out, and your worktree has uncommitted changes that `git reset --hard` would destroy.\nCommit or stash them first.".to_owned(),
                        ),
                    ),
                );
            }
            Ok(Some(branch))
        },
        Worktree::Untouched => Ok(None),
    }
}

/// The commands that reverse an apply. Every one states the value the apply
/// left as the value it expects to replace, and none of them touches `HEAD`.
pub fn restore_commands(refs: &Vec<RefMove>) -> (commands: String)
    ensures
        commands@ == commands_text(commands_of(reversed_moves(refs.deep_view()))),
{
    payload(&reverse(refs))
}

/// Takes back the apply of a record whose refs are where the apply left them.
#[verifier::opaque]
pub open spec fn restore_script(
    repo: Text,
    path: Text,
    record: RecordModel,
    reset: Option<Text>,
    tape: Tape,
) -> Run<UndoneModel> {
    move_refs_script(
        repo,
        commands_text(commands_of(reversed_moves(record.refs))),
        "git-rehearse undo "@ + record.rehearsal,
        tape,
    ).and_then(|done: (), tape: Tape|
    reset_worktree_script(repo, reset is Some, tape).and_then(|done: (), tape: Tape|
    do_script(Ask::RemoveFile(path), path, tape).and_then(|done: (), tape: Tape|
        Run::Gives(
            UndoneModel {
                rehearsal: record.rehearsal,
                applied_at_unix: record.applied_at_unix,
                restored: reversed_moves(record.refs),
                reset,
                record: path,
            },
            tape,
        ))))
}

/// Brings index and worktree to `HEAD`, where that is wanted. `HEAD` is already
/// right when this happens.
#[verifier::opaque]
pub open spec fn reset_worktree_script(repo: Text, wanted: bool, tape: Tape) -> Run<()> {
    if wanted {
        git::run_script(repo, seq!["reset"@, "--hard"@, "--quiet"@], tape).and_then(
            |output: Text, tape: Tape| Run::Gives((), tape),
        )
    } else {
        Run::Gives((), tape)
    }
}

/// Brings index and worktree to `HEAD`, where that is wanted.
pub fn reset_worktree(session: &mut Session, repo: &str, wanted: bool) -> (outcome: Result<
    (),
    Stop,
>)
    ensures
        ran(outcome, final(session)@) == reset_worktree_script(repo@, wanted, old(session)@),
{
    proof {
        reveal(reset_worktree_script);
    }
    if wanted {
        git::run(session, repo, args3("reset", "--hard", "--quiet"))?;
    }
    Ok(())
}

/// Takes back the apply of a record that is the one meant.
#[verifier::opaque]
pub open spec fn undo_script(
    repo: Text,
    path: Text,
    id: Option<Text>,
    record: RecordModel,
    tape: Tape,
) -> Run<UndoneModel> {
    if !is_meant(record, id) {
        Run::Fails(not_meant(record, id), tape)
    } else if record.refs.len() == 0 {
        Run::Fails(moved_nothing(record.rehearsal, path), tape)
    } else {
        git::refs_script(repo, "refs/heads/"@, 0, tape).and_then(|now: Entries, tape: Tape|
        if differences(record.refs, now).len() != 0 {
            Run::Fails(has_moved_on(record.rehearsal, differences(record.refs, now)), tape)
        } else {
            reset_script(repo, record.refs, tape).and_then(|reset: Option<Text>, tape: Tape|
                restore_script(repo, path, record, reset, tape))
        })
    }
}

/// Takes back the apply that the record of a repository describes.
#[verifier::opaque]
pub open spec fn run_script(repo: Text, id: Option<Text>, tape: Tape) -> Run<UndoneModel> {
    record_path_script(repo, tape).and_then(|path: Text, tape: Tape|
    read_text_script(path, tape).and_then(|found: HeardModel<Text>, tape: Tape|
        match found {
            HeardModel::Trouble(trouble) => Run::Fails(nothing_to_undo_of(path), tape),
            HeardModel::Got(text) => match parsed(text, path) {
                Err(fault) => Run::Fails(fault, tape),
                Ok(record) => undo_script(repo, path, id, record, tape),
            },
        }))
}

fn restore(
    session: &mut Session,
    repo: &str,
    path: String,
    record: Record,
    reset: Option<String>,
) -> (outcome: Result<Undone, Stop>)
    ensures
        ran(outcome, final(session)@) == restore_script(
            repo@,
            path@,
            record.deep_view(),
            reset.deep_view(),
            old(session)@,
        ),
{
    proof {
        reveal(restore_script);
    }
    let commands = restore_commands(&record.refs);
    move_refs(session, repo, &commands, &cat2("git-rehearse undo ", &record.rehearsal))?;
    reset_worktree(session, repo, reset.is_some())?;
    perform(session, Request::RemoveFile(path.clone()), &path)?;
    Ok(
        Undone {
            rehearsal: record.rehearsal,
            applied_at_unix: record.applied_at_unix,
            restored: reverse(&record.refs),
            reset,
            record: path,
        },
    )
}

fn undo(session: &mut Session, repo: &str, path: String, id: Option<&str>, record: Record) -> (
    outcome: Result<Undone, Stop>)
    ensures
        ran(outcome, final(session)@) == undo_script(
            repo@,
            path@,
            match id {
                Some(id) => Some(id@),
                None => None,
            },
            record.deep_view(),
            old(session)@,
        ),
{
    proof {
        reveal(undo_script);
    }
    if let Err(error) = check_is_the_one_meant(&record, id) {
        return Err(Stop::Fail(error));
    }
    if record.refs.len() == 0 {
        return Err(
            Stop::Fail(
                Error::Refused(
                    cat5(
                        "the apply of rehearsal ",
                        &record.rehearsal,
                        " moved no branch, so there is nothing to put back.\nThe record is ",
                        &display(&path),
                        "; delete it if it is in your way.",
                    ),
                ),
            ),
        );
    }
    let now = git::refs(session, repo, "refs/heads/", 0)?;
    if let Err(error) = check_still_applied(&record, &now) {
        return Err(Stop::Fail(error));
    }
    let reset = decide_reset(session, repo, &record.refs)?;
    restore(session, repo, path, record, reset)
}

/// Takes back the apply the record describes. `id` is an optional prefix of the
/// rehearsal the caller means; it is checked against the record rather than
/// used to find one, because there is only ever one record.
pub fn run(session: &mut Session, repo: &str, id: Option<&str>) -> (outcome: Result<Undone, Stop>)
    ensures
        ran(outcome, final(session)@) == run_script(
            repo@,
            match id {
                Some(id) => Some(id@),
                None => None,
            },
            old(session)@,
        ),
{
    proof {
        reveal(run_script);
    }
    let path = record_path(session, repo)?;
    match read_text(session, &path)? {
        Heard::Trouble(_) => Err(
            Stop::Fail(
                Error::Refused(
                    cat3(
                        "there is nothing to undo: no undo record at ",
                        &display(&path),
                        ".\nOnly `git rehearse apply` writes one, and a successful undo uses it up.",
                    ),
                ),
            ),
        ),
        Heard::Got(text) => match parse(&text, &path) {
            Err(error) => Err(Stop::Fail(error)),
            Ok(record) => undo(session, repo, path, id, record),
        },
    }
}

/// An undo is refused for moved refs exactly where one is not where the apply
/// left it.
pub proof fn any_moved_ref_refuses_the_undo(refs: Seq<RefMoveModel>, now: Entries)
    ensures
        differences(refs, now).len() == 0 <==> forall|i: int|
            0 <= i < refs.len() ==> lookup(now, (#[trigger] refs[i]).name) == refs[i].after,
    decreases refs.len(),
{
    if refs.len() > 0 {
        let rest = refs.drop_last();
        any_moved_ref_refuses_the_undo(rest, now);
        assert(refs[refs.len() - 1] == refs.last());
        assert(forall|i: int| 0 <= i < rest.len() ==> #[trigger] rest[i] == refs[i]);
        assert(forall|i: int| 0 <= i < rest.len() ==> rest[i] == #[trigger] refs[i]);
    }
}

} // verus!
