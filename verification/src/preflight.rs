//! What is learnt about the real repository before anything touches it, and
//! everything that is refused.
//!
//! The snapshot records every branch and where `HEAD` is before the sandbox
//! exists; apply reads them again and refuses if anything moved. Every refusal
//! says what is in the way and then what to do about it.

use vstd::prelude::*;

use crate::carry::{self, Carry, CarryModel};
use crate::compose::{args2, args3, args4, args5, cat2, cat3};
use crate::error::{Error, Fault};
use crate::execute::{split_zero, zero_separated};
use crate::files::{read_text, read_text_script};
use crate::git;
use crate::number::{decimal, show};
use crate::parts::{contains, has, lines, lines_of, starts_with};
use crate::paths::{display, displayed, from_text, inside, join_path, path_named};
use crate::refs::{inserted, Entries, RefMap};
use crate::sandbox::meta::{Checkout, CheckoutModel};
use crate::sandbox::{Plan, PlanModel};
use crate::session::{caught, ran, Heard, HeardModel, Run, Session, Stop, Tape};
use crate::text::{same, Text};

verus! {

/// The key that the pre-state records the commit of `HEAD` under, beside the
/// full names of the branches.
pub const HEAD_KEY: &'static str = "HEAD";

/// A repository that passed preflight, and what was true of it at that moment.
#[derive(Debug)]
pub struct Preflight {
    /// Canonical worktree root.
    pub repo: String,
    /// What `HEAD` pointed at; the sandbox reproduces this.
    pub checkout: Checkout,
    /// Every branch and [`HEAD_KEY`], and their commits.
    pub pre_state: RefMap,
    /// The uncommitted work to carry through the rehearsal, if there was any.
    pub carry: Option<Carry>,
}

/// The model of a [`Preflight`].
pub struct PreflightModel {
    pub repo: Text,
    pub checkout: CheckoutModel,
    pub pre_state: Entries,
    pub carry: Option<CarryModel>,
}

impl DeepView for Preflight {
    type V = PreflightModel;

    open spec fn deep_view(&self) -> PreflightModel {
        PreflightModel {
            repo: self.repo@,
            checkout: self.checkout.deep_view(),
            pre_state: self.pre_state.deep_view(),
            carry: self.carry.deep_view(),
        }
    }
}

/// The plan of a rehearsal in an inspected repository.
pub open spec fn plan_of(found: PreflightModel, command: Seq<Text>) -> PlanModel {
    PlanModel {
        repo: found.repo,
        command,
        checkout: found.checkout,
        pre_state: found.pre_state,
        carry: found.carry,
    }
}

impl Preflight {
    /// Turns the snapshot into a plan for a sandbox.
    pub fn into_plan(self, command: Vec<String>) -> (plan: Plan)
        ensures
            plan.deep_view() == plan_of(self.deep_view(), command.deep_view()),
    {
        Plan {
            repo: self.repo,
            command,
            checkout: self.checkout,
            pre_state: self.pre_state,
            carry: self.carry,
        }
    }
}

// ---------------------------------------------------------------------------
// Where the repository is
// ---------------------------------------------------------------------------
pub open spec fn not_a_repository(cwd: Text) -> Fault {
    Fault::Refused(
        "not a git repository: "@ + displayed(cwd)
            + "\nRun git-rehearse from inside the repository you want to rehearse against."@,
    )
}

pub open spec fn bare_repository() -> Fault {
    Fault::Refused(
        "this is a bare repository.\nA rehearsal runs the real command in a real worktree, and a bare repository has none — run git-rehearse from a normal checkout."@,
    )
}

pub open spec fn inside_the_git_directory(cwd: Text) -> Fault {
    Fault::Refused(
        displayed(cwd)
            + " is inside the .git directory, not the worktree.\nRun git-rehearse from the working tree."@,
    )
}

/// Whether a line of a listing says yes.
pub open spec fn says_true(facts: Seq<Text>, i: int) -> bool {
    i < facts.len() && facts[i] == "true"@
}

/// The canonical worktree root that a directory is in.
#[verifier::opaque]
pub open spec fn locate_script(cwd: Text, tape: Tape) -> Run<Text> {
    git::run_script(
        cwd,
        seq!["rev-parse"@, "--is-bare-repository"@, "--is-inside-work-tree"@],
        tape,
    ).either(
        |facts: Text, tape: Tape|
            if says_true(lines_of(facts), 0) {
                Run::Fails(bare_repository(), tape)
            } else if !says_true(lines_of(facts), 1) {
                Run::Fails(inside_the_git_directory(cwd), tape)
            } else {
                git::path_script(cwd, seq!["rev-parse"@, "--show-toplevel"@], tape).and_then(
                    |top: Text, tape: Tape| git::canonicalize_script(top, tape),
                )
            },
        |fault: Fault, tape: Tape|
            if fault is Git {
                Run::Fails(not_a_repository(cwd), tape)
            } else {
                Run::Fails(fault, tape)
            },
    )
}

fn locate(session: &mut Session, cwd: &str) -> (outcome: Result<String, Stop>)
    ensures
        ran(outcome, final(session)@) == locate_script(cwd@, old(session)@),
{
    proof {
        reveal(locate_script);
    }
    let facts = match caught(
        git::run(
            session,
            cwd,
            args3("rev-parse", "--is-bare-repository", "--is-inside-work-tree"),
        ),
    )? {
        Ok(facts) => lines(&facts),
        Err(Error::Git { .. }) => {
            return Err(
                Stop::Fail(
                    Error::Refused(
                        cat3(
                            "not a git repository: ",
                            &display(cwd),
                            "\nRun git-rehearse from inside the repository you want to rehearse against.",
                        ),
                    ),
                ),
            );
        },
        Err(other) => return Err(Stop::Fail(other)),
    };
    let bare = facts.len() > 0 && same(&facts[0], "true");
    let inside_worktree = facts.len() > 1 && same(&facts[1], "true");
    if bare {
        return Err(
            Stop::Fail(
                Error::Refused(
                    "this is a bare repository.\nA rehearsal runs the real command in a real worktree, and a bare repository has none — run git-rehearse from a normal checkout.".to_owned(),
                ),
            ),
        );
    }
    if !inside_worktree {
        return Err(
            Stop::Fail(
                Error::Refused(
                    cat2(
                        &display(cwd),
                        " is inside the .git directory, not the worktree.\nRun git-rehearse from the working tree.",
                    ),
                ),
            ),
        );
    }
    let top = git::run_path(session, cwd, args2("rev-parse", "--show-toplevel"))?;
    git::canonicalize(session, &top)
}

// ---------------------------------------------------------------------------
// What is refused
// ---------------------------------------------------------------------------
pub open spec fn shallow_clone() -> Fault {
    Fault::Refused(
        "this is a shallow clone.\nThe rehearsal would inherit its missing history, so the result could differ from what the same command does in a complete clone — run `git fetch --unshallow` first."@,
    )
}

#[verifier::opaque]
pub open spec fn refuse_if_shallow_script(repo: Text, tape: Tape) -> Run<()> {
    git::run_script(repo, seq!["rev-parse"@, "--is-shallow-repository"@], tape).and_then(
        |answer: Text, tape: Tape|
            if answer == "true"@ {
                Run::Fails(shallow_clone(), tape)
            } else {
                Run::Gives((), tape)
            },
    )
}

fn refuse_if_shallow(session: &mut Session, repo: &str) -> (outcome: Result<(), Stop>)
    ensures
        ran(outcome, final(session)@) == refuse_if_shallow_script(repo@, old(session)@),
{
    proof {
        reveal(refuse_if_shallow_script);
    }
    let answer = git::run(session, repo, args2("rev-parse", "--is-shallow-repository"))?;
    if same(&answer, "true") {
        return Err(
            Stop::Fail(
                Error::Refused(
                    "this is a shallow clone.\nThe rehearsal would inherit its missing history, so the result could differ from what the same command does in a complete clone — run `git fetch --unshallow` first.".to_owned(),
                ),
            ),
        );
    }
    Ok(())
}

/// How many lines of a listing name a worktree.
pub open spec fn worktrees_in(lines: Seq<Text>) -> nat
    decreases lines.len(),
{
    if lines.len() == 0 {
        0
    } else {
        worktrees_in(lines.drop_last()) + (if "worktree "@.is_prefix_of(lines.last()) {
            1nat
        } else {
            0nat
        })
    }
}

pub open spec fn several_worktrees(count: nat) -> Fault {
    Fault::Refused(
        "this repository has "@ + decimal(count)
            + " worktrees (see `git worktree list`).\nApplying a rehearsal moves branches, and a branch checked out in another worktree would be moved out from under it — v0.1 will not risk that. Remove the extra worktrees, or rehearse elsewhere."@,
    )
}

#[verifier::opaque]
pub open spec fn refuse_if_multiple_worktrees_script(repo: Text, tape: Tape) -> Run<()> {
    git::run_script(repo, seq!["worktree"@, "list"@, "--porcelain"@], tape).and_then(
        |listing: Text, tape: Tape|
            if worktrees_in(lines_of(listing)) > 1 {
                Run::Fails(several_worktrees(worktrees_in(lines_of(listing))), tape)
            } else {
                Run::Gives((), tape)
            },
    )
}

fn count_worktrees(listing: &str) -> (count: usize)
    ensures
        count == worktrees_in(lines_of(listing@)),
{
    let found = lines(listing);
    let ghost all = found.deep_view();
    let len = found.len();
    let mut count: usize = 0;
    let mut i: usize = 0;
    assert(all.take(0) =~= Seq::empty());
    while i < len
        invariant
            i <= len == found@.len(),
            all == found.deep_view(),
            count <= i,
            count == worktrees_in(all.take(i as int)),
        decreases len - i,
    {
        assert(all.take(i + 1).drop_last() =~= all.take(i as int));
        assert(all.take(i + 1).last() == found[i as int]@);
        if starts_with(&found[i], "worktree ") {
            count = count + 1;
        }
        i = i + 1;
    }
    assert(all.take(all.len() as int) =~= all);
    count
}

fn refuse_if_multiple_worktrees(session: &mut Session, repo: &str) -> (outcome: Result<(), Stop>)
    ensures
        ran(outcome, final(session)@) == refuse_if_multiple_worktrees_script(
            repo@,
            old(session)@,
        ),
{
    proof {
        reveal(refuse_if_multiple_worktrees_script);
    }
    let listing = git::run(session, repo, args3("worktree", "list", "--porcelain"))?;
    let count = count_worktrees(&listing);
    if count > 1 {
        return Err(
            Stop::Fail(
                Error::Refused(
                    cat3(
                        "this repository has ",
                        &show(count as u64),
                        " worktrees (see `git worktree list`).\nApplying a rehearsal moves branches, and a branch checked out in another worktree would be moved out from under it — v0.1 will not risk that. Remove the extra worktrees, or rehearse elsewhere.",
                    ),
                ),
            ),
        );
    }
    Ok(())
}

pub open spec fn has_submodules() -> Fault {
    Fault::Refused(
        "this repository has submodules.\nA local clone does not bring them along, so the sandbox would run your command against a checkout that is missing them and the report would be misleading. Submodules are not supported in v1."@,
    )
}

#[verifier::opaque]
pub open spec fn refuse_if_submodules_script(repo: Text, tape: Tape) -> Run<()> {
    git::run_script(repo, seq!["submodule"@, "status"@], tape).and_then(
        |status: Text, tape: Tape|
            if status.len() != 0 {
                Run::Fails(has_submodules(), tape)
            } else {
                Run::Gives((), tape)
            },
    )
}

fn refuse_if_submodules(session: &mut Session, repo: &str) -> (outcome: Result<(), Stop>)
    ensures
        ran(outcome, final(session)@) == refuse_if_submodules_script(repo@, old(session)@),
{
    proof {
        reveal(refuse_if_submodules_script);
    }
    let status = git::run(session, repo, args2("submodule", "status"))?;
    if !status.as_str().is_empty() {
        return Err(
            Stop::Fail(
                Error::Refused(
                    "this repository has submodules.\nA local clone does not bring them along, so the sandbox would run your command against a checkout that is missing them and the report would be misleading. Submodules are not supported in v1.".to_owned(),
                ),
            ),
        );
    }
    Ok(())
}

pub open spec fn uses_lfs(name: Text) -> Fault {
    Fault::Refused(
        "this repository uses Git LFS ("@ + name
            + " sets filter=lfs).\nA local clone does not copy the LFS object store, so the sandbox would check out pointer files instead of your content. LFS is not supported in v1."@,
    )
}

/// Looks for the filter in the attribute files. An unreadable one proves
/// nothing, and preflight refuses on evidence.
pub open spec fn lfs_from(repo: Text, names: Seq<Text>, tape: Tape) -> Run<()>
    decreases names.len(),
{
    if names.len() == 0 {
        Run::Gives((), tape)
    } else {
        match read_text_script(inside(repo, path_named(names[0])), tape) {
            Run::Gives(HeardModel::Got(attributes), tape) => if has(
                attributes,
                "filter=lfs"@,
            ) {
                Run::Fails(uses_lfs(names[0]), tape)
            } else {
                lfs_from(repo, names.drop_first(), tape)
            },
            Run::Gives(HeardModel::Trouble(_), tape) => lfs_from(repo, names.drop_first(), tape),
            Run::Fails(fault, tape) => Run::Fails(fault, tape),
            Run::Asks(ask, tape) => Run::Asks(ask, tape),
        }
    }
}

#[verifier::opaque]
pub open spec fn refuse_if_lfs_script(repo: Text, tape: Tape) -> Run<()> {
    git::run_script(
        repo,
        seq!["ls-files"@, "-z"@, "--"@, ".gitattributes"@, "*/.gitattributes"@],
        tape,
    ).and_then(|listing: Text, tape: Tape| lfs_from(repo, zero_separated(listing), tape))
}

fn refuse_if_lfs(session: &mut Session, repo: &str) -> (outcome: Result<(), Stop>)
    ensures
        ran(outcome, final(session)@) == refuse_if_lfs_script(repo@, old(session)@),
{
    proof {
        reveal(refuse_if_lfs_script);
    }
    let listing = git::run(
        session,
        repo,
        args5("ls-files", "-z", "--", ".gitattributes", "*/.gitattributes"),
    )?;
    let names = split_zero(&listing);
    let ghost all = names.deep_view();
    let mut i: usize = 0;
    assert(all.skip(0) =~= all);
    while i < names.len()
        invariant
            i <= names@.len(),
            all == names.deep_view(),
            refuse_if_lfs_script(repo@, old(session)@) == lfs_from(
                repo@,
                all.skip(i as int),
                session@,
            ),
        decreases names@.len() - i,
    {
        assert(all.skip(i as int).drop_first() =~= all.skip(i + 1));
        assert(all.skip(i as int)[0] == names[i as int]@);
        let name = &names[i];
        if let Heard::Got(attributes) = read_text(session, &join_path(repo, &from_text(name)))? {
            if contains(&attributes, "filter=lfs") {
                return Err(
                    Stop::Fail(
                        Error::Refused(
                            cat3(
                                "this repository uses Git LFS (",
                                name,
                                " sets filter=lfs).\nA local clone does not copy the LFS object store, so the sandbox would check out pointer files instead of your content. LFS is not supported in v1.",
                            ),
                        ),
                    ),
                );
            }
        }
        i = i + 1;
    }
    Ok(())
}

/// The refusal of a worktree with uncommitted changes, for a rehearsal of
/// committed history only.
pub open spec fn dirty_words(status: Text) -> Text {
    "you have uncommitted changes: "@ + carry::described(
        carry::paths_in_lines(lines_of(status)),
    )
        + ".\nv0.1 rehearses committed history only, so the rehearsal would not include them — commit or stash first. (Rehearsing a dirty worktree is planned for v1.x.)"@
}

/// Builds the refusal of a dirty worktree from `git status --porcelain` output.
pub fn dirty_message(status: &str) -> (message: String)
    ensures
        message@ == dirty_words(status@),
{
    cat3(
        "you have uncommitted changes: ",
        &carry::describe(&carry::paths_of(status)),
        ".\nv0.1 rehearses committed history only, so the rehearsal would not include them — commit or stash first. (Rehearsing a dirty worktree is planned for v1.x.)",
    )
}

/// Refuses a worktree with uncommitted changes to tracked files.
#[verifier::opaque]
pub open spec fn refuse_if_dirty_script(repo: Text, tape: Tape) -> Run<()> {
    git::run_script(repo, carry::status_args(), tape).and_then(|status: Text, tape: Tape|
        if status.len() == 0 {
            Run::Gives((), tape)
        } else {
            Run::Fails(Fault::Refused(dirty_words(status)), tape)
        })
}

/// Refuses a worktree with uncommitted changes to tracked files, for a caller
/// that rehearses committed history only. [`run`] carries them instead.
pub fn refuse_if_dirty(session: &mut Session, repo: &str) -> (outcome: Result<(), Stop>)
    ensures
        ran(outcome, final(session)@) == refuse_if_dirty_script(repo@, old(session)@),
{
    proof {
        reveal(refuse_if_dirty_script);
    }
    let status = git::run(session, repo, args3("status", "--porcelain", "--untracked-files=no"))?;
    if status.as_str().is_empty() {
        return Ok(());
    }
    Err(Stop::Fail(Error::Refused(dirty_message(&status))))
}

// ---------------------------------------------------------------------------
// The snapshot
// ---------------------------------------------------------------------------
pub open spec fn no_commits() -> Fault {
    Fault::Refused(
        "this repository has no commits yet.\nThere is no history here to rehearse against."@,
    )
}

/// Where `HEAD` is, as something the sandbox can reproduce, and its commit.
#[verifier::opaque]
pub open spec fn head_script(repo: Text, tape: Tape) -> Run<(CheckoutModel, Text)> {
    git::run_script(repo, crate::analyze::head_args(), tape).either(
        |commit: Text, tape: Tape|
            git::run_script(
                repo,
                seq!["symbolic-ref"@, "--quiet"@, "--short"@, "HEAD"@],
                tape,
            ).either(
                |branch: Text, tape: Tape|
                    Run::Gives((CheckoutModel::Branch(branch), commit), tape),
                |fault: Fault, tape: Tape|
                    if fault is Git {
                        Run::Gives((CheckoutModel::Detached(commit), commit), tape)
                    } else {
                        Run::Fails(fault, tape)
                    },
            ),
        |fault: Fault, tape: Tape|
            if fault is Git {
                Run::Fails(no_commits(), tape)
            } else {
                Run::Fails(fault, tape)
            },
    )
}

fn head(session: &mut Session, repo: &str) -> (outcome: Result<(Checkout, String), Stop>)
    ensures
        ran(outcome, final(session)@) == head_script(repo@, old(session)@),
{
    proof {
        reveal(head_script);
    }
    let commit = match caught(
        git::run(session, repo, args4("rev-parse", "--verify", "--quiet", "HEAD")),
    )? {
        Ok(commit) => commit,
        Err(Error::Git { .. }) => {
            return Err(
                Stop::Fail(
                    Error::Refused(
                        "this repository has no commits yet.\nThere is no history here to rehearse against.".to_owned(),
                    ),
                ),
            );
        },
        Err(other) => return Err(Stop::Fail(other)),
    };
    match caught(
        git::run(session, repo, args4("symbolic-ref", "--quiet", "--short", "HEAD")),
    )? {
        Ok(branch) => Ok((Checkout::Branch(branch), commit)),
        Err(Error::Git { .. }) => Ok((Checkout::Detached(commit.clone()), commit)),
        Err(other) => Err(Stop::Fail(other)),
    }
}

/// Every refusal that has to do with how the repository is made. They come
/// before anything a user could fix in a minute.
#[verifier::opaque]
pub open spec fn refuse_unsupported_script(repo: Text, tape: Tape) -> Run<()> {
    refuse_if_shallow_script(repo, tape).and_then(|done: (), tape: Tape|
    refuse_if_multiple_worktrees_script(repo, tape).and_then(|done: (), tape: Tape|
    refuse_if_submodules_script(repo, tape).and_then(|done: (), tape: Tape|
        refuse_if_lfs_script(repo, tape))))
}

fn refuse_unsupported(session: &mut Session, repo: &str) -> (outcome: Result<(), Stop>)
    ensures
        ran(outcome, final(session)@) == refuse_unsupported_script(repo@, old(session)@),
{
    proof {
        reveal(refuse_unsupported_script);
    }
    refuse_if_shallow(session, repo)?;
    refuse_if_multiple_worktrees(session, repo)?;
    refuse_if_submodules(session, repo)?;
    refuse_if_lfs(session, repo)
}

/// What is true of the repository that a directory is in, where it can be
/// rehearsed against.
#[verifier::opaque]
pub open spec fn run_script(cwd: Text, tape: Tape) -> Run<PreflightModel> {
    locate_script(cwd, tape).and_then(|repo: Text, tape: Tape|
    refuse_unsupported_script(repo, tape).and_then(|done: (), tape: Tape|
    head_script(repo, tape).and_then(|head: (CheckoutModel, Text), tape: Tape|
    carry::snapshot_script(repo, tape).and_then(|carry: Option<CarryModel>, tape: Tape|
    git::refs_script(repo, "refs/heads/"@, 0, tape).and_then(|refs: Entries, tape: Tape|
        Run::Gives(
            PreflightModel {
                repo,
                checkout: head.0,
                pre_state: inserted(refs, HEAD_KEY@, head.1),
                carry,
            },
            tape,
        ))))))
}

/// Inspects the repository that contains `cwd`. Uncommitted work is no reason to
/// refuse: it is snapshotted, and carried through the rehearsal.
pub fn run(session: &mut Session, cwd: &str) -> (outcome: Result<Preflight, Stop>)
    ensures
        ran(outcome, final(session)@) == run_script(cwd@, old(session)@),
{
    proof {
        reveal(run_script);
    }
    let repo = locate(session, cwd)?;
    refuse_unsupported(session, &repo)?;
    let (checkout, commit) = head(session, &repo)?;
    let carry = carry::snapshot(session, &repo)?;
    let mut pre_state = git::refs(session, &repo, "refs/heads/", 0)?;
    pre_state.insert(HEAD_KEY.to_owned(), commit);
    Ok(Preflight { repo, checkout, pre_state, carry })
}

/// Whether git's own answers, from `tape` on, say that a repository is neither
/// shallow nor has more than one worktree or any submodule.
pub open spec fn is_plain(repo: Text, tape: Tape) -> bool {
    &&& git::run_script(
        repo,
        seq!["rev-parse"@, "--is-shallow-repository"@],
        tape,
    ) matches Run::Gives(shallow, tape)
    &&& shallow != "true"@
    &&& git::run_script(
        repo,
        seq!["worktree"@, "list"@, "--porcelain"@],
        tape,
    ) matches Run::Gives(listing, tape)
    &&& worktrees_in(lines_of(listing)) <= 1
    &&& git::run_script(repo, seq!["submodule"@, "status"@], tape) matches Run::Gives(status, tape)
    &&& status.len() == 0
    &&& refuse_if_lfs_script(repo, tape) is Gives
}

proof fn lfs_is_refused(repo: Text, names: Seq<Text>, tape: Tape)
    ensures
        lfs_from(repo, names, tape) matches Run::Fails(fault, _) ==> fault is Refused,
    decreases names.len(),
{
    reveal(read_text_script);
    if names.len() > 0 {
        if let Run::Gives(found, after) = read_text_script(inside(repo, path_named(names[0])), tape) {
            lfs_is_refused(repo, names.drop_first(), after);
        }
    }
}

/// What cannot be rehearsed is refused: only a plain repository passes, and what
/// does not pass is a refusal, unless git itself could not answer.
pub proof fn unsupported_repositories_are_refused(repo: Text, tape: Tape)
    ensures
        refuse_unsupported_script(repo, tape) is Gives ==> is_plain(repo, tape),
        refuse_unsupported_script(repo, tape) matches Run::Fails(fault, _) ==> fault is Refused
            || fault is Git || fault is Spawn,
{
    reveal(refuse_unsupported_script);
    reveal(refuse_if_shallow_script);
    reveal(refuse_if_multiple_worktrees_script);
    reveal(refuse_if_submodules_script);
    reveal(refuse_if_lfs_script);
    reveal(git::run_script);
    reveal(git::captured);
    assert forall|names: Seq<Text>, tape: Tape|
        #[trigger] lfs_from(repo, names, tape) matches Run::Fails(fault, _) ==> fault is Refused by {
        lfs_is_refused(repo, names, tape);
    }
}

} // verus!
