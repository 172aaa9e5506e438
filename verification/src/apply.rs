//! Moving the real repository's refs to the rehearsed commits.
//!
//! Applying is a ref transplant, never a re-run: the objects that the report
//! described are fetched into the real repository and its refs are pointed at
//! those exact commit ids. The order leaves nothing half-done: check that the
//! repository is still the one that was rehearsed, fetch the objects, write the
//! undo record, move the refs in one transaction that states every expected old
//! value, and only then touch the worktree.

use vstd::prelude::*;

use crate::analyze::{
    current_state, current_state_script, moves_between, ref_moves, RefMove, RefMoveModel,
};
use crate::carry::{self, Carry, CarryModel};
use crate::compose::{args4, args5, cat2, cat3, cat5};
use crate::error::{Error, Fault};
use crate::execute::{split_zero, zero_separated};
use crate::git;
use crate::parts::{join, joined, starts_with};
use crate::refcommands::{commands_of, commands_text, payload};
use crate::refs::{lookup, Entries, RefMap};
use crate::sandbox::meta::{Checkout, CheckoutModel};
use crate::sandbox::{worktree_of, Sandbox, SandboxModel};
use crate::session::{ran, Run, Session, Stop, Tape};
use crate::text::{copy_texts, put, same, Text};
use crate::undo::{
    self, current_branch, current_branch_script, has_changes, has_changes_script, move_refs,
    move_refs_script, reset_worktree, reset_worktree_script, Record, RecordModel,
};
use crate::undo::record::without_head;

verus! {

/// What an apply did.
#[derive(Debug, PartialEq, Eq)]
pub struct Applied {
    /// The refs that were moved, created or deleted.
    pub moved: Vec<RefMove>,
    /// The branch whose worktree was reset, if the rewritten branch was the one
    /// checked out.
    pub reset: Option<String>,
    /// The uncommitted paths that were put back on top of the reset worktree,
    /// if this rehearsal carried any and there was anything left to put back.
    pub carried: Option<Vec<String>>,
    /// Where the pre-state was written down.
    pub undo: String,
    /// The namespace the rehearsed commits were fetched into, kept as an anchor
    /// so that nothing that was just applied can be garbage-collected.
    pub anchor: String,
}

/// The model of an [`Applied`].
pub struct AppliedModel {
    pub moved: Seq<RefMoveModel>,
    pub reset: Option<Text>,
    pub carried: Option<Seq<Text>>,
    pub undo: Text,
    pub anchor: Text,
}

impl DeepView for Applied {
    type V = AppliedModel;

    open spec fn deep_view(&self) -> AppliedModel {
        AppliedModel {
            moved: self.moved.deep_view(),
            reset: self.reset.deep_view(),
            carried: self.carried.deep_view(),
            undo: self.undo@,
            anchor: self.anchor@,
        }
    }
}

// ---------------------------------------------------------------------------
// Whether the repository is still the one that was rehearsed
// ---------------------------------------------------------------------------
/// How a ref differs from where the rehearsal found it.
pub open spec fn change(name: Text, was: Text, now: Option<Text>) -> Option<Text> {
    match now {
        Some(is) => if is == was {
            None
        } else {
            Some("  "@ + name + " is now "@ + is + ", was "@ + was)
        },
        None => Some("  "@ + name + " is gone, was "@ + was),
    }
}

/// How the refs differ from where the rehearsal found them.
pub open spec fn changes(pre_state: Entries, now: Entries) -> Seq<Text>
    decreases pre_state.len(),
{
    if pre_state.len() == 0 {
        Seq::empty()
    } else {
        let earlier = changes(pre_state.drop_last(), now);
        let (name, was) = pre_state.last();
        match change(name, was, lookup(now, name)) {
            Some(line) => earlier.push(line),
            None => earlier,
        }
    }
}

pub open spec fn has_changed(id: Text, changes: Seq<Text>) -> Fault {
    Fault::Refused(
        "the repository has changed since rehearsal "@ + id + ":\n"@ + joined(changes, "\n"@)
            + "\nThe report you read described a repository that no longer exists, so applying it could undo whatever happened in between. Rehearse again."@,
    )
}

/// How the refs differ from where the rehearsal found them.
fn changed_refs(pre_state: &RefMap, now: &RefMap) -> (found: Vec<String>)
    ensures
        found.deep_view() == changes(pre_state.deep_view(), now.deep_view()),
{
    let ghost all = pre_state.deep_view();
    let mut found: Vec<String> = Vec::new();
    let mut i: usize = 0;
    assert(all.take(0) =~= Seq::empty());
    assert(found.deep_view() =~= Seq::empty());
    while i < pre_state.len()
        invariant
            i <= all.len(),
            all == pre_state.deep_view(),
            found.deep_view() == changes(all.take(i as int), now.deep_view()),
        decreases all.len() - i,
    {
        assert(all.take(i + 1).drop_last() =~= all.take(i as int));
        assert(all.take(i + 1).last() == all[i as int]);
        let name = pre_state.name(i);
        let was = pre_state.value(i);
        match now.get(name) {
            Some(is) => if !same(&is, was) {
                put(&mut found, cat2(&cat5("  ", name, " is now ", &is, ", was "), was));
            },
            None => {
                put(&mut found, cat2(&cat3("  ", name, " is gone, was "), was));
            },
        }
        i = i + 1;
    }
    assert(all.take(all.len() as int) =~= all);
    found
}

/// Refuses if the repository is not where the rehearsal left it: every ref of
/// the pre-state has to still be there, at the same commit.
pub fn check_unchanged(pre_state: &RefMap, now: &RefMap, id: &str) -> (outcome: Result<(), Error>)
    ensures
        ({
            let found = changes(pre_state.deep_view(), now.deep_view());
            match outcome {
                Ok(_) => found.len() == 0,
                Err(error) => found.len() != 0 && error.deep_view() == has_changed(id@, found),
            }
        }),
{
    let found = changed_refs(pre_state, now);
    if found.len() == 0 {
        return Ok(());
    }
    Err(
        Error::Refused(
            cat5(
                "the repository has changed since rehearsal ",
                id,
                ":\n",
                &join(&found, "\n"),
                "\nThe report you read described a repository that no longer exists, so applying it could undo whatever happened in between. Rehearse again.",
            ),
        ),
    )
}

/// Whether a checkout is the one that was rehearsed. The commit of a detached
/// `HEAD` is covered by the pre-state.
pub open spec fn is_same_checkout(checkout: CheckoutModel, current: Option<Text>) -> bool {
    match (checkout, current) {
        (CheckoutModel::Branch(rehearsed), Some(now)) => rehearsed == now,
        (CheckoutModel::Detached(_), None) => true,
        _ => false,
    }
}

pub open spec fn checkout_words(checkout: CheckoutModel) -> Text {
    match checkout {
        CheckoutModel::Branch(branch) => branch,
        CheckoutModel::Detached(commit) => "a detached HEAD at "@ + commit,
    }
}

pub open spec fn other_checkout(checkout: CheckoutModel, current: Option<Text>) -> Fault {
    Fault::Refused(
        "you rehearsed on "@ + checkout_words(checkout) + " and are now on "@ + (match current {
            Some(branch) => branch,
            None => "a detached HEAD"@,
        }) + ".\nSwitch back, or rehearse again from here."@,
    )
}

/// Refuses if the user is somewhere else than when they rehearsed.
pub fn check_same_checkout(checkout: &Checkout, current: &Option<String>) -> (outcome: Result<
    (),
    Error,
>)
    ensures
        match outcome {
            Ok(_) => is_same_checkout(checkout.deep_view(), current.deep_view()),
            Err(error) => !is_same_checkout(checkout.deep_view(), current.deep_view())
                && error.deep_view() == other_checkout(checkout.deep_view(), current.deep_view()),
        },
{
    let matches = match (checkout, current) {
        (Checkout::Branch(rehearsed), Some(now)) => same(rehearsed, now),
        (Checkout::Detached(_), None) => true,
        _ => false,
    };
    if matches {
        return Ok(());
    }
    let rehearsed = match checkout {
        Checkout::Branch(branch) => branch.clone(),
        Checkout::Detached(commit) => cat2("a detached HEAD at ", commit),
    };
    let now = match current {
        Some(branch) => branch.clone(),
        None => "a detached HEAD".to_owned(),
    };
    Err(
        Error::Refused(
            cat5(
                "you rehearsed on ",
                &rehearsed,
                " and are now on ",
                &now,
                ".\nSwitch back, or rehearse again from here.",
            ),
        ),
    )
}

/// The branch whose worktree has to be reset, if any.
pub open spec fn reset_branch(checkout: CheckoutModel, moved: Seq<RefMoveModel>) -> Option<Text> {
    match checkout {
        CheckoutModel::Branch(branch) => if exists|i: int|
            0 <= i < moved.len() && (#[trigger] moved[i]).name == "refs/heads/"@ + branch {
            Some(branch)
        } else {
            None
        },
        CheckoutModel::Detached(_) => None,
    }
}

/// The branch whose worktree has to be reset, if any. A detached `HEAD` is not a
/// ref the transplant moves.
pub fn branch_to_reset(checkout: &Checkout, moved: &Vec<RefMove>) -> (branch: Option<String>)
    ensures
        branch.deep_view() == reset_branch(checkout.deep_view(), moved.deep_view()),
{
    let branch = match checkout {
        Checkout::Branch(branch) => branch,
        Checkout::Detached(_) => return None,
    };
    let reference = cat2("refs/heads/", branch);
    let ghost all = moved.deep_view();
    let mut i: usize = 0;
    while i < moved.len()
        invariant
            i <= moved@.len(),
            all == moved.deep_view(),
            reference@ == "refs/heads/"@ + branch@,
            checkout.deep_view() == CheckoutModel::Branch(branch@),
            forall|j: int| 0 <= j < i ==> (#[trigger] all[j]).name != reference@,
        decreases moved@.len() - i,
    {
        assert(all[i as int] == moved[i as int].deep_view());
        if same(&moved[i].name, &reference) {
            return Some(branch.clone());
        }
        i = i + 1;
    }
    None
}

// ---------------------------------------------------------------------------
// What may happen to the worktree
// ---------------------------------------------------------------------------
pub open spec fn worktree_in_the_way(carried: bool) -> Fault {
    Fault::Refused(
        "applying this rehearsal rewrites the branch you have checked out, and your worktree has uncommitted changes that `git reset --hard` would destroy.\n"@
            + (if carried {
            "The rehearsal carried them, but they never went back on in the sandbox, so nothing in the report accounts for them — carry it on with `git rehearse continue`, or commit or stash them."@
        } else {
            "They were not there when you rehearsed, so nothing in the report accounts for them — commit or stash them, or rehearse again from here."@
        }),
    )
}

/// Refuses to reset a worktree that has work in it.
#[verifier::opaque]
pub open spec fn check_clean_script(repo: Text, carried: bool, tape: Tape) -> Run<()> {
    has_changes_script(repo, tape).and_then(|changed: bool, tape: Tape|
        if changed {
            Run::Fails(worktree_in_the_way(carried), tape)
        } else {
            Run::Gives((), tape)
        })
}

fn check_clean(session: &mut Session, repo: &str, carried: bool) -> (outcome: Result<(), Stop>)
    ensures
        ran(outcome, final(session)@) == check_clean_script(repo@, carried, old(session)@),
{
    proof {
        reveal(check_clean_script);
    }
    if !has_changes(session, repo)? {
        return Ok(());
    }
    let why = if carried {
        "The rehearsal carried them, but they never went back on in the sandbox, so nothing in the report accounts for them — carry it on with `git rehearse continue`, or commit or stash them."
    } else {
        "They were not there when you rehearsed, so nothing in the report accounts for them — commit or stash them, or rehearse again from here."
    };
    Err(
        Stop::Fail(
            Error::Refused(
                cat2(
                    "applying this rehearsal rewrites the branch you have checked out, and your worktree has uncommitted changes that `git reset --hard` would destroy.\n",
                    why,
                ),
            ),
        ),
    )
}

/// Whether writing one path would replace another: they are the same, or one is
/// a directory above the other.
pub open spec fn clash(a: Text, b: Text) -> bool {
    a == b || (a + "/"@).is_prefix_of(b) || (b + "/"@).is_prefix_of(a)
}

/// The untracked paths that the tracked ones would replace.
pub open spec fn clashing(untracked: Seq<Text>, tracked_paths: Seq<Text>) -> Seq<Text>
    decreases untracked.len(),
{
    if untracked.len() == 0 {
        Seq::empty()
    } else {
        let earlier = clashing(untracked.drop_last(), tracked_paths);
        if exists|i: int|
            0 <= i < tracked_paths.len() && clash(untracked.last(), #[trigger] tracked_paths[i]) {
            earlier.push(untracked.last())
        } else {
            earlier
        }
    }
}

fn clashes(path: &str, others: &Vec<String>) -> (yes: bool)
    ensures
        yes == exists|i: int|
            0 <= i < others.deep_view().len() && clash(path@, #[trigger] others.deep_view()[i]),
{
    let ghost all = others.deep_view();
    let below = cat2(path, "/");
    let mut i: usize = 0;
    while i < others.len()
        invariant
            i <= others@.len(),
            all == others.deep_view(),
            below@ == path@ + "/"@,
            forall|j: int| 0 <= j < i ==> !clash(path@, #[trigger] all[j]),
        decreases others@.len() - i,
    {
        let other = &others[i];
        assert(all[i as int] == other@);
        if same(path, other) || starts_with(other, &below) || starts_with(
            path,
            &cat2(other, "/"),
        ) {
            assert(clash(path@, all[i as int]));
            return true;
        }
        i = i + 1;
    }
    false
}

/// The untracked paths that the tracked ones would replace.
pub fn collisions(untracked: &Vec<String>, tracked_paths: &Vec<String>) -> (found: Vec<String>)
    ensures
        found.deep_view() == clashing(untracked.deep_view(), tracked_paths.deep_view()),
{
    let ghost all = untracked.deep_view();
    let mut found: Vec<String> = Vec::new();
    let mut i: usize = 0;
    assert(all.take(0) =~= Seq::empty());
    assert(found.deep_view() =~= Seq::empty());
    while i < untracked.len()
        invariant
            i <= untracked@.len(),
            all == untracked.deep_view(),
            found.deep_view() == clashing(all.take(i as int), tracked_paths.deep_view()),
        decreases untracked@.len() - i,
    {
        assert(all.take(i + 1).drop_last() =~= all.take(i as int));
        assert(all.take(i + 1).last() == untracked[i as int]@);
        if clashes(&untracked[i], tracked_paths) {
            put(&mut found, untracked[i].clone());
        }
        i = i + 1;
    }
    assert(all.take(all.len() as int) =~= all);
    found
}

pub open spec fn would_overwrite(paths: Seq<Text>) -> Fault {
    Fault::Refused(
        "applying this rehearsal would overwrite untracked file(s):\n  "@ + joined(paths, "\n  "@)
            + "\nKeep them elsewhere or rehearse again from here."@,
    )
}

/// Refuses to reset a worktree over an untracked path, ignored or not, that the
/// rehearsed checkout would need to write.
#[verifier::opaque]
pub open spec fn check_untracked_script(
    repo: Text,
    rehearsed: Text,
    branch: Text,
    tape: Tape,
) -> Run<()> {
    git::run_script(
        repo,
        seq!["ls-files"@, "--others"@, "--no-empty-directory"@, "-z"@],
        tape,
    ).and_then(|listing: Text, tape: Tape|
        {
            let untracked = zero_separated(listing);
            if untracked.len() == 0 {
                Run::Gives((), tape)
            } else {
                git::run_script(
                    rehearsed,
                    seq!["ls-tree"@, "-r"@, "--name-only"@, "-z"@, "refs/heads/"@ + branch],
                    tape,
                ).and_then(|listing: Text, tape: Tape|
                    {
                        let found = clashing(untracked, zero_separated(listing));
                        if found.len() == 0 {
                            Run::Gives((), tape)
                        } else {
                            Run::Fails(would_overwrite(found), tape)
                        }
                    })
            }
        })
}

fn check_untracked(session: &mut Session, repo: &str, rehearsed: &str, branch: &str) -> (outcome:
    Result<(), Stop>)
    ensures
        ran(outcome, final(session)@) == check_untracked_script(
            repo@,
            rehearsed@,
            branch@,
            old(session)@,
        ),
{
    proof {
        reveal(check_untracked_script);
    }
    let listing = git::run(
        session,
        repo,
        args4("ls-files", "--others", "--no-empty-directory", "-z"),
    )?;
    let untracked = split_zero(&listing);
    if untracked.len() == 0 {
        return Ok(());
    }
    let target = cat2("refs/heads/", branch);
    let listing = git::run(
        session,
        rehearsed,
        args5("ls-tree", "-r", "--name-only", "-z", &target),
    )?;
    let found = collisions(&untracked, &split_zero(&listing));
    if found.len() == 0 {
        return Ok(());
    }
    Err(
        Stop::Fail(
            Error::Refused(
                cat3(
                    "applying this rehearsal would overwrite untracked file(s):\n  ",
                    &join(&found, "\n  "),
                    "\nKeep them elsewhere or rehearse again from here.",
                ),
            ),
        ),
    )
}

/// The uncommitted work that an apply has to put back over the reset worktree.
struct Carried {
    /// The commit the sandbox produced by replaying it.
    result: String,
    /// The paths it restores.
    paths: Vec<String>,
}

/// The model of the work that is put back: the commit and the paths.
pub struct CarriedModel {
    pub result: Text,
    pub paths: Seq<Text>,
}

impl DeepView for Carried {
    type V = CarriedModel;

    closed spec fn deep_view(&self) -> CarriedModel {
        CarriedModel { result: self.result@, paths: self.paths.deep_view() }
    }
}

/// What an apply may do to the worktree. A rehearsal that promised to put work
/// back needs the worktree to still hold exactly that work. One that promised
/// nothing needs it clean.
#[verifier::opaque]
pub open spec fn check_worktree_script(
    repo: Text,
    rehearsed: Text,
    branch: Text,
    carry: Option<CarryModel>,
    id: Text,
    tape: Tape,
) -> Run<Option<CarriedModel>> {
    match carry {
        Some(carry) if carry::promises(carry) => carry::check_unchanged_script(
            repo,
            carry.snapshot,
            id,
            tape,
        ).and_then(|done: (), tape: Tape|
        check_untracked_script(repo, rehearsed, branch, tape).and_then(|done: (), tape: Tape|
            Run::Gives(
                match carry::result_in(carry) {
                    Some(result) => Some(CarriedModel { result, paths: carry.paths }),
                    None => None,
                },
                tape,
            ))),
        _ => check_clean_script(repo, carry is Some, tape).and_then(|done: (), tape: Tape|
        check_untracked_script(repo, rehearsed, branch, tape).and_then(|done: (), tape: Tape|
            Run::Gives(None, tape))),
    }
}

fn check_worktree(
    session: &mut Session,
    repo: &str,
    rehearsed: &str,
    branch: &str,
    carry: &Option<Carry>,
    id: &str,
) -> (outcome: Result<Option<Carried>, Stop>)
    ensures
        ran(outcome, final(session)@) == check_worktree_script(
            repo@,
            rehearsed@,
            branch@,
            carry.deep_view(),
            id@,
            old(session)@,
        ),
{
    proof {
        reveal(check_worktree_script);
    }
    if let Some(carry) = carry {
        if carry.promises_the_worktree() {
            carry::check_unchanged(session, repo, carry, id)?;
            check_untracked(session, repo, rehearsed, branch)?;
            return Ok(
                match carry::result_of(carry) {
                    Some(result) => Some(
                        Carried { result: result.to_owned(), paths: copy_texts(&carry.paths) },
                    ),
                    None => None,
                },
            );
        }
    }
    check_clean(session, repo, carry.is_some())?;
    check_untracked(session, repo, rehearsed, branch)?;
    Ok(None)
}

// ---------------------------------------------------------------------------
// Applying
// ---------------------------------------------------------------------------
/// The arguments that fetch the rehearsed commits, parked under an anchor. The
/// replayed worktree comes with them.
pub open spec fn fetch_args(worktree: Text, anchor: Text, id: Text, carried: bool) -> Seq<Text> {
    let heads = seq![
        "fetch"@,
        "--no-tags"@,
        "--quiet"@,
        worktree,
        "+refs/heads/*:"@ + anchor + "*"@,
    ];
    if carried {
        heads.push("+refs/rehearse/replayed:refs/rehearse/"@ + id + "-carry"@)
    } else {
        heads
    }
}

/// Where the rehearsed commits are parked.
pub open spec fn anchor_of(id: Text) -> Text {
    "refs/rehearse/"@ + id + "/"@
}

/// The steps that change the repository, once every check has passed.
#[verifier::opaque]
pub open spec fn transplant_script(
    sandbox: SandboxModel,
    now_unix: u64,
    moved: Seq<RefMoveModel>,
    reset: Option<Text>,
    carried: Option<CarriedModel>,
    tape: Tape,
) -> Run<AppliedModel> {
    let id = sandbox.meta.id;
    let repo = sandbox.meta.repo_path;
    let record = RecordModel { rehearsal: id, applied_at_unix: now_unix, refs: without_head(moved) };
    git::run_script(
        repo,
        fetch_args(worktree_of(sandbox.root), anchor_of(id), id, carried is Some),
        tape,
    ).and_then(|output: Text, tape: Tape|
    undo::write_script(repo, record, tape).and_then(|path: Text, tape: Tape|
    move_refs_script(
        repo,
        commands_text(commands_of(moved)),
        "git-rehearse apply "@ + id,
        tape,
    ).and_then(|done: (), tape: Tape|
    reset_worktree_script(repo, reset is Some, tape).and_then(|done: (), tape: Tape|
    put_back_script(repo, reset is Some, carried, tape).and_then(|done: (), tape: Tape|
        Run::Gives(
            AppliedModel {
                moved,
                reset,
                carried: match carried {
                    Some(carried) => Some(carried.paths),
                    None => None,
                },
                undo: path,
                anchor: anchor_of(id),
            },
            tape,
        ))))))
}

/// Puts the carried work back over the reset worktree.
#[verifier::opaque]
pub open spec fn put_back_script(
    repo: Text,
    reset: bool,
    carried: Option<CarriedModel>,
    tape: Tape,
) -> Run<()> {
    match carried {
        Some(carried) if reset => carry::restore_script(repo, carried.result, tape),
        _ => Run::Gives((), tape),
    }
}

fn put_back(session: &mut Session, repo: &str, reset: bool, carried: &Option<Carried>) -> (outcome:
    Result<(), Stop>)
    ensures
        ran(outcome, final(session)@) == put_back_script(
            repo@,
            reset,
            carried.deep_view(),
            old(session)@,
        ),
{
    proof {
        reveal(put_back_script);
    }
    if reset {
        if let Some(carried) = carried {
            return carry::restore(session, repo, &carried.result);
        }
    }
    Ok(())
}

fn transplant(
    session: &mut Session,
    sandbox: &Sandbox,
    now_unix: u64,
    moved: Vec<RefMove>,
    reset: Option<String>,
    carried: Option<Carried>,
) -> (outcome: Result<Applied, Stop>)
    ensures
        ran(outcome, final(session)@) == transplant_script(
            sandbox.deep_view(),
            now_unix,
            moved.deep_view(),
            reset.deep_view(),
            carried.deep_view(),
            old(session)@,
        ),
{
    proof {
        reveal(transplant_script);
    }
    let meta = sandbox.meta();
    let repo = meta.repo_path.as_str();
    let anchor = cat3("refs/rehearse/", &meta.id, "/");
    let worktree = sandbox.worktree();
    let mut args = args5(
        "fetch",
        "--no-tags",
        "--quiet",
        &worktree,
        &cat3("+refs/heads/*:", &anchor, "*"),
    );
    if carried.is_some() {
        put(&mut args, carry::result_refspec(&meta.id));
    }
    git::run(session, repo, args)?;
    let record = Record::of_apply(meta.id.clone(), now_unix, &moved);
    let undo = undo::write(session, repo, &record)?;
    let commands = payload(&moved);
    move_refs(session, repo, &commands, &cat2("git-rehearse apply ", &meta.id))?;
    reset_worktree(session, repo, reset.is_some())?;
    put_back(session, repo, reset.is_some(), &carried)?;
    let carried = match carried {
        Some(carried) => Some(carried.paths),
        None => None,
    };
    Ok(Applied { moved, reset, carried, undo, anchor })
}

pub open spec fn moved_nothing(id: Text) -> Fault {
    Fault::Refused(
        "rehearsal "@ + id
            + " moved no refs, so there is nothing to apply.\nDiscard it with `git rehearse discard "@
            + id + "`."@,
    )
}

/// Applies a rehearsal that moved something to the repository it was rehearsed
/// against.
#[verifier::opaque]
pub open spec fn apply_script(
    sandbox: SandboxModel,
    now_unix: u64,
    moved: Seq<RefMoveModel>,
    tape: Tape,
) -> Run<AppliedModel> {
    let meta = sandbox.meta;
    let repo = meta.repo_path;
    current_state_script(repo, tape).and_then(|now: Entries, tape: Tape|
    current_branch_script(repo, tape).and_then(|current: Option<Text>, tape: Tape|
    if !is_same_checkout(meta.checkout, current) {
        Run::Fails(other_checkout(meta.checkout, current), tape)
    } else if changes(meta.pre_state, now).len() != 0 {
        Run::Fails(has_changed(meta.id, changes(meta.pre_state, now)), tape)
    } else {
        match reset_branch(meta.checkout, moved) {
            Some(branch) => check_worktree_script(
                repo,
                worktree_of(sandbox.root),
                branch,
                meta.carry,
                meta.id,
                tape,
            ).and_then(|carried: Option<CarriedModel>, tape: Tape|
                transplant_script(sandbox, now_unix, moved, Some(branch), carried, tape)),
            None => transplant_script(sandbox, now_unix, moved, None, None, tape),
        }
    }))
}

/// Applies a rehearsal to the repository it was rehearsed against.
#[verifier::opaque]
pub open spec fn run_script(sandbox: SandboxModel, now_unix: u64, tape: Tape) -> Run<AppliedModel> {
    current_state_script(worktree_of(sandbox.root), tape).and_then(|rehearsed: Entries, tape: Tape|
        {
            let moved = moves_between(sandbox.meta.pre_state, rehearsed);
            if moved.len() == 0 {
                Run::Fails(moved_nothing(sandbox.meta.id), tape)
            } else {
                apply_script(sandbox, now_unix, moved, tape)
            }
        })
}

fn apply(session: &mut Session, sandbox: &Sandbox, now_unix: u64, moved: Vec<RefMove>) -> (outcome:
    Result<Applied, Stop>)
    ensures
        ran(outcome, final(session)@) == apply_script(
            sandbox.deep_view(),
            now_unix,
            moved.deep_view(),
            old(session)@,
        ),
{
    proof {
        reveal(apply_script);
    }
    let meta = sandbox.meta();
    let repo = meta.repo_path.as_str();
    let now = current_state(session, repo)?;
    let current = current_branch(session, repo)?;
    if let Err(error) = check_same_checkout(&meta.checkout, &current) {
        return Err(Stop::Fail(error));
    }
    if let Err(error) = check_unchanged(&meta.pre_state, &now, &meta.id) {
        return Err(Stop::Fail(error));
    }
    match branch_to_reset(&meta.checkout, &moved) {
        Some(branch) => {
            let worktree = sandbox.worktree();
            let carried = check_worktree(
                session,
                repo,
                &worktree,
                &branch,
                &meta.carry,
                &meta.id,
            )?;
            transplant(session, sandbox, now_unix, moved, Some(branch), carried)
        },
        None => transplant(session, sandbox, now_unix, moved, None, None),
    }
}

/// Applies a rehearsal to the repository it was rehearsed against. It is refused
/// if the repository is no longer the one that was rehearsed: a ref moved, the
/// worktree is dirty, or the checkout changed.
pub fn run(session: &mut Session, sandbox: &Sandbox, now_unix: u64) -> (outcome: Result<
    Applied,
    Stop,
>)
    ensures
        ran(outcome, final(session)@) == run_script(sandbox.deep_view(), now_unix, old(session)@),
{
    proof {
        reveal(run_script);
    }
    let meta = sandbox.meta();
    let rehearsed = current_state(session, &sandbox.worktree())?;
    let moved = ref_moves(&meta.pre_state, &rehearsed);
    if moved.len() == 0 {
        return Err(
            Stop::Fail(
                Error::Refused(
                    cat5(
                        "rehearsal ",
                        &meta.id,
                        " moved no refs, so there is nothing to apply.\nDiscard it with `git rehearse discard ",
                        &meta.id,
                        "`.",
                    ),
                ),
            ),
        );
    }
    apply(session, sandbox, now_unix, moved)
}

/// An apply is refused for moved refs exactly where one is not where the
/// rehearsal found it.
pub proof fn any_moved_ref_refuses_the_apply(pre_state: Entries, now: Entries)
    ensures
        changes(pre_state, now).len() == 0 <==> forall|i: int|
            0 <= i < pre_state.len() ==> lookup(now, (#[trigger] pre_state[i]).0) == Some(
                pre_state[i].1,
            ),
    decreases pre_state.len(),
{
    if pre_state.len() > 0 {
        let rest = pre_state.drop_last();
        any_moved_ref_refuses_the_apply(rest, now);
        assert(pre_state[pre_state.len() - 1] == pre_state.last());
        assert(forall|i: int| 0 <= i < rest.len() ==> #[trigger] rest[i] == pre_state[i]);
        assert(forall|i: int|
            0 <= i < rest.len() ==> rest[i] == #[trigger] pre_state[i]);
    }
}

/// An untracked file is safe: an apply goes on only where no untracked path is
/// one that the reset would write, nor above or below one.
pub proof fn no_untracked_file_is_overwritten(untracked: Seq<Text>, tracked_paths: Seq<Text>)
    ensures
        clashing(untracked, tracked_paths).len() == 0 <==> forall|i: int, j: int|
            0 <= i < untracked.len() && 0 <= j < tracked_paths.len() ==> !clash(
                #[trigger] untracked[i],
                #[trigger] tracked_paths[j],
            ),
    decreases untracked.len(),
{
    if untracked.len() > 0 {
        let rest = untracked.drop_last();
        no_untracked_file_is_overwritten(rest, tracked_paths);
        assert(untracked[untracked.len() - 1] == untracked.last());
        assert(forall|i: int| 0 <= i < rest.len() ==> #[trigger] rest[i] == untracked[i]);
        assert(forall|i: int| 0 <= i < rest.len() ==> rest[i] == #[trigger] untracked[i]);
    }
}

} // verus!
