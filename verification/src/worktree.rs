//! Durable worktree origin and shared branch occupancy checks.

use vstd::prelude::*;

use crate::compose::{args2, args3, args4, cat2, cat3};
use crate::error::{Error, Fault};
use crate::files::{present, present_script, read_text, read_text_script};
use crate::git;
use crate::order::{sort_paths, sorted_paths};
use crate::parts::{
    after_prefix, chunks, contains, has, keep_nonempty, nonempty, pieces, split, split_chunks,
    starts_with, strip_prefix, trim, trimmed,
};
use crate::paths::{
    display, displayed, from_text, inside, join_path, parent, parent_of, path_named,
};
use crate::session::{
    caught, ran, Heard, HeardModel, Reason, Request, Run, Session, Stop, Tape,
};
use crate::text::{holds, put, same, same_texts, utf8, Text};

verus! {

/// Which repository and which of its worktrees something belongs to.
#[derive(Debug, PartialEq, Eq)]
pub struct Origin {
    pub common_dir: String,
    pub git_dir: String,
}

/// The model of an [`Origin`].
pub struct OriginModel {
    pub common_dir: Text,
    pub git_dir: Text,
}

impl DeepView for Origin {
    type V = OriginModel;

    open spec fn deep_view(&self) -> OriginModel {
        OriginModel { common_dir: self.common_dir@, git_dir: self.git_dir@ }
    }
}

/// The directory that all worktrees of a repository share.
#[verifier::opaque]
pub open spec fn common_dir_script(repo: Text, tape: Tape) -> Run<Text> {
    git::path_script(
        repo,
        seq!["rev-parse"@, "--path-format=absolute"@, "--git-common-dir"@],
        tape,
    ).and_then(|path: Text, tape: Tape| git::canonicalize_script(path, tape))
}

/// The directory that all worktrees of a repository share.
pub fn common_dir(session: &mut Session, repo: &str) -> (outcome: Result<String, Stop>)
    ensures
        ran(outcome, final(session)@) == common_dir_script(repo@, old(session)@),
{
    proof {
        reveal(common_dir_script);
    }
    let path = git::run_path(
        session,
        repo,
        args3("rev-parse", "--path-format=absolute", "--git-common-dir"),
    )?;
    git::canonicalize(session, &path)
}

/// The origin that a worktree is now.
#[verifier::opaque]
pub open spec fn capture_script(repo: Text, tape: Tape) -> Run<OriginModel> {
    git::path_script(repo, seq!["rev-parse"@, "--absolute-git-dir"@], tape).and_then(
        |dir: Text, tape: Tape|
    common_dir_script(repo, tape).and_then(|common_dir: Text, tape: Tape|
    git::canonicalize_script(dir, tape).and_then(|git_dir: Text, tape: Tape|
        Run::Gives(OriginModel { common_dir, git_dir }, tape))))
}

pub open spec fn origin_changed() -> Text {
    "the rehearsal's original worktree or shared repository is unavailable or has changed; mutation is blocked"@
}

/// Whether a worktree still is this origin.
#[verifier::opaque]
pub open spec fn verify_script(origin: OriginModel, repo: Text, tape: Tape) -> Run<()> {
    capture_script(repo, tape).either(
        |now: OriginModel, tape: Tape|
            if now == origin {
                Run::Gives((), tape)
            } else {
                Run::Fails(Fault::Refused(origin_changed()), tape)
            },
        |fault: Fault, tape: Tape| Run::Fails(Fault::Refused(origin_changed()), tape),
    )
}

impl Origin {
    /// The origin that a worktree is now.
    pub fn capture(session: &mut Session, repo: &str) -> (outcome: Result<Origin, Stop>)
        ensures
            ran(outcome, final(session)@) == capture_script(repo@, old(session)@),
    {
        proof {
            reveal(capture_script);
        }
        let dir = git::run_path(session, repo, args2("rev-parse", "--absolute-git-dir"))?;
        let common_dir = common_dir(session, repo)?;
        let git_dir = git::canonicalize(session, &dir)?;
        Ok(Origin { common_dir, git_dir })
    }

    /// Refuses where the worktree is no longer this origin.
    pub fn verify(&self, session: &mut Session, repo: &str) -> (outcome: Result<(), Stop>)
        ensures
            ran(outcome, final(session)@) == verify_script(
                self.deep_view(),
                repo@,
                old(session)@,
            ),
    {
        proof {
            reveal(verify_script);
        }
        if let Ok(now) = caught(Origin::capture(session, repo))? {
            if same(&now.common_dir, &self.common_dir) && same(&now.git_dir, &self.git_dir) {
                return Ok(());
            }
            assert(now.deep_view() != self.deep_view());
        }
        Err(
            Stop::Fail(
                Error::Refused(
                    "the rehearsal's original worktree or shared repository is unavailable or has changed; mutation is blocked".to_owned(),
                ),
            ),
        )
    }
}

// ---------------------------------------------------------------------------
// Refusing
// ---------------------------------------------------------------------------
/// That it is not known who has what checked out.
pub open spec fn refusal_of() -> Fault {
    Fault::Refused(
        "worktree occupancy or origin cannot be established safely; repair missing or ambiguous worktree registrations before mutating"@,
    )
}

fn refusal() -> (stop: Stop)
    ensures
        stop matches Stop::Fail(error) && error.deep_view() == refusal_of(),
{
    Stop::Fail(
        Error::Refused(
            "worktree occupancy or origin cannot be established safely; repair missing or ambiguous worktree registrations before mutating".to_owned(),
        ),
    )
}

/// A run whose every failure is the refusal.
pub open spec fn or_refusal<T>(run: Run<T>) -> Run<T> {
    run.either(
        |value: T, tape: Tape| Run::Gives(value, tape),
        |fault: Fault, tape: Tape| Run::Fails(refusal_of(), tape),
    )
}

fn or_refuse<T: DeepView>(outcome: Result<T, Stop>) -> (result: Result<T, Stop>)
    ensures
        match outcome {
            Ok(value) => result == Ok::<T, Stop>(value),
            Err(Stop::Fail(_)) => result matches Err(Stop::Fail(error)) && error.deep_view()
                == refusal_of(),
            Err(Stop::Ask(request)) => result == Err::<T, Stop>(Stop::Ask(request)),
        },
{
    match outcome {
        Ok(value) => Ok(value),
        Err(Stop::Fail(_)) => Err(refusal()),
        Err(Stop::Ask(request)) => Err(Stop::Ask(request)),
    }
}

/// The branch that a worktree is on, or none where its `HEAD` is detached.
#[verifier::opaque]
pub open spec fn symbolic_head_script(repo: Text, tape: Tape) -> Run<Option<Text>> {
    git::run_script(repo, seq!["symbolic-ref"@, "--quiet"@, "HEAD"@], tape).either(
        |branch: Text, tape: Tape| Run::Gives(Some(branch), tape),
        |fault: Fault, tape: Tape|
            if fault is Git && fault->code == Some(1i32) {
                Run::Gives(None, tape)
            } else {
                Run::Fails(fault, tape)
            },
    )
}

fn symbolic_head(session: &mut Session, repo: &str) -> (outcome: Result<Option<String>, Stop>)
    ensures
        ran(outcome, final(session)@) == symbolic_head_script(repo@, old(session)@),
{
    proof {
        reveal(symbolic_head_script);
    }
    match caught(git::run(session, repo, args3("symbolic-ref", "--quiet", "HEAD")))? {
        Ok(branch) => Ok(Some(branch)),
        Err(Error::Git { args, code, stderr }) => {
            if let Some(code) = code {
                if code == 1 {
                    return Ok(None);
                }
            }
            Err(Stop::Fail(Error::Git { args, code, stderr }))
        },
        Err(error) => Err(Stop::Fail(error)),
    }
}

// ---------------------------------------------------------------------------
// The registered worktrees
// ---------------------------------------------------------------------------
/// The paths of the worktrees in `records`, after those in `done`. A bare
/// repository has no worktree; the first record is that of the main worktree,
/// which is `origin` itself where `main` says so.
pub open spec fn paths_from(
    records: Seq<Text>,
    first: bool,
    origin: Text,
    main: bool,
    done: Seq<Text>,
    tape: Tape,
) -> Run<Seq<Text>>
    decreases records.len(),
{
    if records.len() == 0 {
        Run::Gives(done, tape)
    } else {
        let fields = pieces(records[0], '\0');
        if fields.contains("bare"@) {
            paths_from(records.drop_first(), false, origin, main, done, tape)
        } else {
            match after_prefix(fields[0], "worktree "@) {
                None => Run::Fails(refusal_of(), tape),
                Some(path) => if first && main {
                    paths_from(records.drop_first(), false, origin, main, done.push(origin), tape)
                } else {
                    or_refusal(git::canonicalize_script(path_named(path), tape)).and_then(
                        |resolved: Text, tape: Tape|
                            paths_from(
                                records.drop_first(),
                                false,
                                origin,
                                main,
                                done.push(resolved),
                                tape,
                            ),
                    )
                },
            }
        }
    }
}

/// Whether two neighbours are the same.
pub open spec fn repeats(texts: Seq<Text>) -> bool {
    exists|i: int| 0 < i < texts.len() && texts[i - 1] == #[trigger] texts[i]
}

/// The paths of all registered worktrees, in order. One that is registered
/// twice, or not as UTF-8, cannot establish anything.
#[verifier::opaque]
pub open spec fn registered_paths_script(
    repo: Text,
    origin: Text,
    main: bool,
    tape: Tape,
) -> Run<Seq<Text>> {
    git::run_bytes_script(
        repo,
        seq!["worktree"@, "list"@, "--porcelain"@, "-z"@],
        tape,
    ).and_then(|listing: Seq<u8>, tape: Tape|
    if !vstd::utf8::valid_utf8(listing) {
        Run::Fails(refusal_of(), tape)
    } else {
        paths_from(
            nonempty(chunks(vstd::utf8::decode_utf8(listing), "\0\0"@)),
            true,
            origin,
            main,
            Seq::empty(),
            tape,
        ).and_then(|paths: Seq<Text>, tape: Tape|
        if repeats(sorted_paths(paths)) {
            Run::Fails(refusal_of(), tape)
        } else {
            Run::Gives(sorted_paths(paths), tape)
        })
    })
}

fn has_repeat(texts: &Vec<String>) -> (yes: bool)
    ensures
        yes == repeats(texts.deep_view()),
{
    let ghost all = texts.deep_view();
    let mut i: usize = 1;
    while i < texts.len()
        invariant
            1 <= i,
            all == texts.deep_view(),
            forall|j: int| 0 < j < i && j < all.len() ==> all[j - 1] != #[trigger] all[j],
        decreases texts@.len() - i,
    {
        if same(&texts[i - 1], &texts[i]) {
            assert(all[i - 1] == all[i as int]);
            return true;
        }
        assert(all[i - 1] != all[i as int]);
        i = i + 1;
    }
    false
}

fn paths_of_records(
    session: &mut Session,
    records: &Vec<String>,
    origin: &str,
    main: bool,
) -> (outcome: Result<Vec<String>, Stop>)
    ensures
        ran(outcome, final(session)@) == paths_from(
            records.deep_view(),
            true,
            origin@,
            main,
            Seq::empty(),
            old(session)@,
        ),
{
    let ghost all = records.deep_view();
    let ghost start = session@;
    let mut done: Vec<String> = Vec::new();
    let mut i: usize = 0;
    assert(all.skip(0) =~= all);
    assert(done.deep_view() =~= Seq::empty());
    while i < records.len()
        invariant
            i <= records@.len(),
            all == records.deep_view(),
            start == old(session)@,
            paths_from(all, true, origin@, main, Seq::empty(), start) == paths_from(
                all.skip(i as int),
                i == 0,
                origin@,
                main,
                done.deep_view(),
                session@,
            ),
        decreases records@.len() - i,
    {
        assert(all.skip(i as int).drop_first() =~= all.skip(i + 1));
        assert(all.skip(i as int)[0] == records[i as int]@);
        let fields = split(&records[i], '\0');
        proof {
            crate::parts::pieces_nonempty(records[i as int]@, '\0');
            assert(fields.deep_view()[0] == fields[0]@);
        }
        if !holds(&fields, "bare") {
            match strip_prefix(&fields[0], "worktree ") {
                Some(path) => {
                    if i == 0 && main {
                        put(&mut done, origin.to_owned());
                    } else {
                        let resolved = or_refuse(git::canonicalize(session, &from_text(&path)))?;
                        put(&mut done, resolved);
                    }
                },
                None => return Err(refusal()),
            }
        }
        i = i + 1;
    }
    Ok(done)
}

fn registered_paths(session: &mut Session, repo: &str, origin: &str, main: bool) -> (outcome:
    Result<Vec<String>, Stop>)
    ensures
        ran(outcome, final(session)@) == registered_paths_script(
            repo@,
            origin@,
            main,
            old(session)@,
        ),
{
    proof {
        reveal(registered_paths_script);
        reveal_strlit("\0\0");
    }
    let listing = git::run_bytes(session, repo, args4("worktree", "list", "--porcelain", "-z"))?;
    assert(listing.deep_view() =~= listing@);
    let text = match utf8(&listing) {
        Some(text) => text,
        None => return Err(refusal()),
    };
    let records = keep_nonempty(&split_chunks(&text, "\0\0"));
    let paths = paths_of_records(session, &records, origin, main)?;
    let sorted = sort_paths(&paths);
    if has_repeat(&sorted) {
        return Err(refusal());
    }
    Ok(sorted)
}

// ---------------------------------------------------------------------------
// Occupancy
// ---------------------------------------------------------------------------
/// The branch that a file of an operation in progress names.
pub open spec fn owned_branch(owner: Text) -> Text {
    if "refs/heads/"@.is_prefix_of(owner) {
        owner
    } else {
        "refs/heads/"@ + owner
    }
}

/// Refuses where the operation that `state` belongs to owns an affected branch
/// in another worktree, or where what it owns cannot be read.
#[verifier::opaque]
pub open spec fn ownership_script(
    admin: Text,
    state: Text,
    other: bool,
    affected: Seq<Text>,
    tape: Tape,
) -> Run<()> {
    read_text_script(inside(admin, state), tape).and_then(|found: HeardModel<Text>, tape: Tape|
    match found {
        HeardModel::Got(owner) => if trimmed(owner).len() == 0 {
            Run::Fails(refusal_of(), tape)
        } else if other && affected.contains(owned_branch(trimmed(owner))) {
            Run::Fails(refusal_of(), tape)
        } else {
            Run::Gives((), tape)
        },
        HeardModel::Trouble(trouble) => if trouble.reason != Reason::Missing {
            Run::Fails(refusal_of(), tape)
        } else if state == "BISECT_START"@ {
            Run::Gives((), tape)
        } else {
            match parent_of(inside(admin, state)) {
                None => Run::Gives((), tape),
                Some(parent) => present_script(parent, tape).and_then(|there: bool, tape: Tape|
                    if there {
                        Run::Fails(refusal_of(), tape)
                    } else {
                        Run::Gives((), tape)
                    }),
            }
        },
    })
}

fn check_ownership(
    session: &mut Session,
    admin: &str,
    state: &str,
    other: bool,
    affected: &Vec<String>,
) -> (outcome: Result<(), Stop>)
    ensures
        ran(outcome, final(session)@) == ownership_script(
            admin@,
            state@,
            other,
            affected.deep_view(),
            old(session)@,
        ),
{
    proof {
        reveal(ownership_script);
    }
    let path = join_path(admin, state);
    match read_text(session, &path)? {
        Heard::Got(owner) => {
            let owner = trim(&owner);
            if owner.as_str().is_empty() {
                return Err(refusal());
            }
            let branch = if starts_with(&owner, "refs/heads/") {
                owner
            } else {
                cat2("refs/heads/", &owner)
            };
            if other && holds(affected, &branch) {
                return Err(refusal());
            }
            Ok(())
        },
        Heard::Trouble(trouble) => {
            if trouble.reason != Reason::Missing {
                return Err(refusal());
            }
            if same(state, "BISECT_START") {
                return Ok(());
            }
            if let Some(parent) = parent(&path) {
                if present(session, &parent)? {
                    return Err(refusal());
                }
            }
            Ok(())
        },
    }
}

pub open spec fn occupied_elsewhere(path: Text) -> Fault {
    Fault::Refused(
        "an affected branch is checked out in another worktree at "@ + displayed(path)
            + "; no branch or worktree was changed"@,
    )
}

/// Checks one worktree: it still resolves to its own root in this repository,
/// and it does not hold an affected branch unless it is the origin, neither
/// checked out nor through an operation that detached `HEAD` and will restore
/// it.
#[verifier::opaque]
pub open spec fn occupant_script(
    path: Text,
    origin: Text,
    common: Text,
    affected: Seq<Text>,
    tape: Tape,
) -> Run<()> {
    let other = path != origin;
    or_refusal(
        git::path_script(path, seq!["rev-parse"@, "--show-toplevel"@], tape),
    ).and_then(|top: Text, tape: Tape|
    or_refusal(git::canonicalize_script(top, tape)).and_then(|root: Text, tape: Tape|
    if root != path {
        Run::Fails(refusal_of(), tape)
    } else {
    or_refusal(common_dir_script(path, tape)).and_then(|shared: Text, tape: Tape|
    if shared != common {
        Run::Fails(refusal_of(), tape)
    } else {
    symbolic_head_script(path, tape).and_then(|branch: Option<Text>, tape: Tape|
    if other && branch is Some && affected.contains(branch->0) {
        Run::Fails(occupied_elsewhere(path), tape)
    } else {
    capture_script(path, tape).and_then(|admin: OriginModel, tape: Tape|
    ownership_script(admin.git_dir, "rebase-merge/head-name"@, other, affected, tape).and_then(
        |clear: (), tape: Tape|
    ownership_script(admin.git_dir, "rebase-apply/head-name"@, other, affected, tape).and_then(
        |clear: (), tape: Tape|
    ownership_script(admin.git_dir, "BISECT_START"@, other, affected, tape).and_then(
        |clear: (), tape: Tape|
    if branch is Some {
        Run::Gives((), tape)
    } else {
        or_refusal(git::run_script(path, seq!["rev-parse"@, "--verify"@, "HEAD"@], tape)).and_then(
            |head: Text, tape: Tape| Run::Gives((), tape),
        )
    })))) }) }) }))
}

fn check_occupant(
    session: &mut Session,
    path: &str,
    origin: &str,
    common: &str,
    affected: &Vec<String>,
) -> (outcome: Result<(), Stop>)
    ensures
        ran(outcome, final(session)@) == occupant_script(
            path@,
            origin@,
            common@,
            affected.deep_view(),
            old(session)@,
        ),
{
    proof {
        reveal(occupant_script);
    }
    let other = !same(path, origin);
    let top = or_refuse(git::run_path(session, path, args2("rev-parse", "--show-toplevel")))?;
    let root = or_refuse(git::canonicalize(session, &top))?;
    if !same(&root, path) {
        return Err(refusal());
    }
    let shared = or_refuse(common_dir(session, path))?;
    if !same(&shared, common) {
        return Err(refusal());
    }
    let branch = symbolic_head(session, path)?;
    if other {
        if let Some(branch) = &branch {
            if holds(affected, branch) {
                return Err(
                    Stop::Fail(
                        Error::Refused(
                            cat3(
                                "an affected branch is checked out in another worktree at ",
                                &display(path),
                                "; no branch or worktree was changed",
                            ),
                        ),
                    ),
                );
            }
        }
    }
    let admin = Origin::capture(session, path)?;
    check_ownership(session, &admin.git_dir, "rebase-merge/head-name", other, affected)?;
    check_ownership(session, &admin.git_dir, "rebase-apply/head-name", other, affected)?;
    check_ownership(session, &admin.git_dir, "BISECT_START", other, affected)?;
    if branch.is_none() {
        or_refuse(git::run(session, path, args3("rev-parse", "--verify", "HEAD")))?;
    }
    Ok(())
}

/// Checks each of `paths`; the origin is one of all of them, and `seen` says how
/// often it was among those before.
pub open spec fn occupants_from(
    paths: Seq<Text>,
    origin: Text,
    common: Text,
    affected: Seq<Text>,
    seen: int,
    tape: Tape,
) -> Run<()>
    decreases paths.len(),
{
    if paths.len() == 0 {
        if seen == 1 {
            Run::Gives((), tape)
        } else {
            Run::Fails(refusal_of(), tape)
        }
    } else {
        occupant_script(paths[0], origin, common, affected, tape).and_then(
            |clear: (), tape: Tape|
                occupants_from(
                    paths.drop_first(),
                    origin,
                    common,
                    affected,
                    if paths[0] == origin {
                        seen + 1
                    } else {
                        seen
                    },
                    tape,
                ),
        )
    }
}

/// Checks that no worktree but the origin holds an affected branch.
#[verifier::opaque]
pub open spec fn check_occupancy_script(
    repo: Text,
    affected: Seq<Text>,
    tape: Tape,
) -> Run<()> {
    git::canonicalize_script(repo, tape).and_then(|origin: Text, tape: Tape|
    common_dir_script(repo, tape).and_then(|common: Text, tape: Tape|
    capture_script(repo, tape).and_then(|captured: OriginModel, tape: Tape|
    registered_paths_script(repo, origin, captured.git_dir == common, tape).and_then(
        |paths: Seq<Text>, tape: Tape|
            occupants_from(paths, origin, common, affected, 0, tape)))))
}

/// Refuses unless every registered worktree still resolves to its own root in
/// this repository, the origin is exactly one of them, and no other holds one
/// of the affected branches.
pub fn check_occupancy(session: &mut Session, repo: &str, affected: &Vec<String>) -> (outcome:
    Result<(), Stop>)
    ensures
        ran(outcome, final(session)@) == check_occupancy_script(
            repo@,
            affected.deep_view(),
            old(session)@,
        ),
{
    proof {
        reveal(check_occupancy_script);
    }
    let origin = git::canonicalize(session, repo)?;
    let common = common_dir(session, repo)?;
    let captured = Origin::capture(session, repo)?;
    let main = same(&captured.git_dir, &common);
    let paths = registered_paths(session, repo, &origin, main)?;
    let ghost all = paths.deep_view();
    let mut seen: usize = 0;
    let mut i: usize = 0;
    assert(all.skip(0) =~= all);
    while i < paths.len()
        invariant
            i <= paths@.len(),
            seen <= i,
            all == paths.deep_view(),
            check_occupancy_script(repo@, affected.deep_view(), old(session)@) == occupants_from(
                all.skip(i as int),
                origin@,
                common@,
                affected.deep_view(),
                seen as int,
                session@,
            ),
        decreases paths@.len() - i,
    {
        assert(all.skip(i as int).drop_first() =~= all.skip(i + 1));
        assert(all.skip(i as int)[0] == paths[i as int]@);
        check_occupant(session, &paths[i], &origin, &common, affected)?;
        if same(&paths[i], &origin) {
            seen = seen + 1;
        }
        i = i + 1;
    }
    if seen == 1 {
        Ok(())
    } else {
        Err(refusal())
    }
}

// ---------------------------------------------------------------------------
// Moving refs under the locks of every worktree
// ---------------------------------------------------------------------------
/// A last check that runs while the refs are locked.
pub trait Check {
    /// How the check runs.
    spec fn script(&self, tape: Tape) -> Run<()>;

    /// Runs the check; what fails here abandons the transaction.
    fn check(&self, session: &mut Session) -> (outcome: Result<(), Stop>)
        ensures
            ran(outcome, final(session)@) == self.script(old(session)@),
    ;
}

/// No further check.
pub struct NoCheck;

impl Check for NoCheck {
    open spec fn script(&self, tape: Tape) -> Run<()> {
        Run::Gives((), tape)
    }

    fn check(&self, session: &mut Session) -> (outcome: Result<(), Stop>) {
        Ok(())
    }
}

/// That the worktree `repo` still is `origin`.
pub struct SameOrigin {
    pub origin: Origin,
    pub repo: String,
}

impl Check for SameOrigin {
    open spec fn script(&self, tape: Tape) -> Run<()> {
        verify_script(self.origin.deep_view(), self.repo@, tape)
    }

    fn check(&self, session: &mut Session) -> (outcome: Result<(), Stop>) {
        self.origin.verify(session, &self.repo)
    }
}

/// The ref command that fails unless a worktree's `HEAD` is what it is now.
#[verifier::opaque]
pub open spec fn head_verification_script(repo: Text, tape: Tape) -> Run<Text> {
    symbolic_head_script(repo, tape).and_then(|branch: Option<Text>, tape: Tape|
    match branch {
        Some(target) => Run::Gives("symref-verify HEAD\0"@ + target + "\0"@, tape),
        None => git::run_script(repo, seq!["rev-parse"@, "--verify"@, "HEAD"@], tape).and_then(
            |value: Text, tape: Tape| Run::Gives("verify HEAD\0"@ + value + "\0"@, tape),
        ),
    })
}

fn head_verification(session: &mut Session, repo: &str) -> (outcome: Result<String, Stop>)
    ensures
        ran(outcome, final(session)@) == head_verification_script(repo@, old(session)@),
{
    proof {
        reveal(head_verification_script);
    }
    match symbolic_head(session, repo)? {
        Some(target) => Ok(cat3("symref-verify HEAD\0", &target, "\0")),
        None => {
            let value = git::run(session, repo, args3("rev-parse", "--verify", "HEAD"))?;
            Ok(cat3("verify HEAD\0", &value, "\0"))
        },
    }
}

/// The verifications of every worktree in `paths` but the origin, after those in
/// `done`.
pub open spec fn guards_from(
    paths: Seq<Text>,
    origin: Text,
    done: Seq<(Text, Text)>,
    tape: Tape,
) -> Run<Seq<(Text, Text)>>
    decreases paths.len(),
{
    if paths.len() == 0 {
        Run::Gives(done, tape)
    } else if paths[0] == origin {
        guards_from(paths.drop_first(), origin, done, tape)
    } else {
        head_verification_script(paths[0], tape).and_then(
            |command: Text, tape: Tape|
                guards_from(paths.drop_first(), origin, done.push((paths[0], command)), tape),
        )
    }
}

fn guards(session: &mut Session, paths: &Vec<String>, origin: &str) -> (outcome: Result<
    Vec<(String, String)>,
    Stop,
>)
    ensures
        ran(outcome, final(session)@) == guards_from(
            paths.deep_view(),
            origin@,
            Seq::empty(),
            old(session)@,
        ),
{
    let ghost all = paths.deep_view();
    let mut done: Vec<(String, String)> = Vec::new();
    let mut i: usize = 0;
    assert(all.skip(0) =~= all);
    assert(done.deep_view() =~= Seq::empty());
    while i < paths.len()
        invariant
            i <= paths@.len(),
            all == paths.deep_view(),
            guards_from(all, origin@, Seq::empty(), old(session)@) == guards_from(
                all.skip(i as int),
                origin@,
                done.deep_view(),
                session@,
            ),
        decreases paths@.len() - i,
    {
        assert(all.skip(i as int).drop_first() =~= all.skip(i + 1));
        assert(all.skip(i as int)[0] == paths[i as int]@);
        if !same(&paths[i], origin) {
            let command = head_verification(session, &paths[i])?;
            put(&mut done, (paths[i].clone(), command));
        }
        i = i + 1;
    }
    Ok(done)
}

/// What runs under the locks: no other worktree holds an affected branch, the
/// registered worktrees are still those that were locked, the occupancy still
/// holds, and the caller's own check.
#[verifier::opaque]
pub open spec fn checked_script<C: Check>(
    repo: Text,
    affected: Seq<Text>,
    origin: Text,
    main: bool,
    paths: Seq<Text>,
    check: &C,
    tape: Tape,
) -> Run<()> {
    check_occupancy_script(repo, affected, tape).and_then(|clear: (), tape: Tape|
    registered_paths_script(repo, origin, main, tape).and_then(|now: Seq<Text>, tape: Tape|
    if now != paths {
        Run::Fails(refusal_of(), tape)
    } else {
    check_occupancy_script(repo, affected, tape).and_then(|clear: (), tape: Tape|
        check.script(tape))
    }))
}

/// The transaction that moves the refs.
pub open spec fn mutation<C: Check>(
    repo: Text,
    commands: Text,
    affected: Seq<Text>,
    message: Text,
    origin: Text,
    main: bool,
    paths: Seq<Text>,
    check: &C,
) -> spec_fn(Tape) -> Run<()> {
    |tape: Tape|
        git::ref_transaction_script(
            repo,
            commands,
            message,
            |tape: Tape| checked_script(repo, affected, origin, main, paths, check, tape),
            tape,
        )
}

/// Runs `inner` while every guard's verification is prepared and holds its
/// locks.
pub open spec fn lock_heads_script(
    guards: Seq<(Text, Text)>,
    inner: spec_fn(Tape) -> Run<()>,
    tape: Tape,
) -> Run<()>
    decreases guards.len(),
{
    if guards.len() == 0 {
        inner(tape)
    } else {
        git::ref_transaction_script(
            guards[0].0,
            guards[0].1,
            "git-rehearse occupancy"@,
            |tape: Tape| lock_heads_script(guards.drop_first(), inner, tape),
            tape,
        )
    }
}

/// Whether the commands already lock `HEAD` through the ref that it names.
#[verifier::opaque]
pub open spec fn guarded_commands_script(repo: Text, commands: Text, tape: Tape) -> Run<Text> {
    git::run_script(repo, seq!["symbolic-ref"@, "--quiet"@, "HEAD"@], tape).either(
        |target: Text, tape: Tape|
            if has(commands, " "@ + target + "\0"@) {
                Run::Gives(commands, tape)
            } else {
                head_verification_script(repo, tape).and_then(
                    |command: Text, tape: Tape| Run::Gives(commands + command, tape),
                )
            },
        |fault: Fault, tape: Tape|
            head_verification_script(repo, tape).and_then(
                |command: Text, tape: Tape| Run::Gives(commands + command, tape),
            ),
    )
}

/// Moves refs while the `HEAD` of every worktree is locked.
#[verifier::opaque]
pub open spec fn transact_script<C: Check>(
    repo: Text,
    commands: Text,
    affected: Seq<Text>,
    message: Text,
    check: &C,
    tape: Tape,
) -> Run<()> {
    git::canonicalize_script(repo, tape).and_then(|origin: Text, tape: Tape|
    capture_script(repo, tape).and_then(|captured: OriginModel, tape: Tape|
    common_dir_script(repo, tape).and_then(|common: Text, tape: Tape|
    registered_paths_script(repo, origin, captured.git_dir == common, tape).and_then(
        |paths: Seq<Text>, tape: Tape|
    guards_from(paths, origin, Seq::empty(), tape).and_then(
        |guards: Seq<(Text, Text)>, tape: Tape|
    guarded_commands_script(repo, commands, tape).and_then(|guarded: Text, tape: Tape|
        lock_heads_script(
            guards,
            mutation(
                repo,
                guarded,
                affected,
                message,
                origin,
                captured.git_dir == common,
                paths,
                check,
            ),
            tape,
        )))))))
}

fn guarded_commands(session: &mut Session, repo: &str, commands: &str) -> (outcome: Result<
    String,
    Stop,
>)
    ensures
        ran(outcome, final(session)@) == guarded_commands_script(
            repo@,
            commands@,
            old(session)@,
        ),
{
    proof {
        reveal(guarded_commands_script);
    }
    if let Ok(target) = caught(
        git::run(session, repo, args3("symbolic-ref", "--quiet", "HEAD")),
    )? {
        if contains(commands, &cat3(" ", &target, "\0")) {
            return Ok(commands.to_owned());
        }
    }
    let command = head_verification(session, repo)?;
    Ok(cat2(commands, &command))
}

/// What is to be done, and what has to hold when it is.
struct Plan<'p, C: Check> {
    repo: &'p str,
    commands: &'p str,
    affected: &'p Vec<String>,
    message: &'p str,
    origin: &'p str,
    main: bool,
    paths: &'p Vec<String>,
    check: &'p C,
}

impl<'p, C: Check> Plan<'p, C> {
    spec fn mutation(self) -> spec_fn(Tape) -> Run<()> {
        mutation(
            self.repo@,
            self.commands@,
            self.affected.deep_view(),
            self.message@,
            self.origin@,
            self.main,
            self.paths.deep_view(),
            self.check,
        )
    }

    fn checked(&self, session: &mut Session) -> (outcome: Result<(), Stop>)
        ensures
            ran(outcome, final(session)@) == checked_script(
                self.repo@,
                self.affected.deep_view(),
                self.origin@,
                self.main,
                self.paths.deep_view(),
                self.check,
                old(session)@,
            ),
    {
        proof {
            reveal(checked_script);
        }
        check_occupancy(session, self.repo, self.affected)?;
        let now = registered_paths(session, self.repo, self.origin, self.main)?;
        if !same_texts(&now, self.paths) {
            return Err(refusal());
        }
        check_occupancy(session, self.repo, self.affected)?;
        self.check.check(session)
    }

    fn mutate(&self, session: &mut Session) -> (outcome: Result<(), Stop>)
        ensures
            ran(outcome, final(session)@) == (self.mutation())(old(session)@),
    {
        proof {
            reveal(git::ref_transaction_script);
        }
        git::step_transaction(
            session,
            Request::Prepare {
                dir: self.repo.to_owned(),
                commands: self.commands.to_owned(),
                message: self.message.to_owned(),
            },
            self.message,
        )?;
        let inner = self.checked(session);
        git::end_transaction(session, self.message, inner)
    }

    fn lock_heads(
        &self,
        session: &mut Session,
        guards: &Vec<(String, String)>,
        from: usize,
    ) -> (outcome: Result<(), Stop>)
        requires
            from <= guards@.len(),
        ensures
            ran(outcome, final(session)@) == lock_heads_script(
                guards.deep_view().skip(from as int),
                self.mutation(),
                old(session)@,
            ),
        decreases guards@.len() - from,
    {
        let ghost rest = guards.deep_view().skip(from as int);
        if from == guards.len() {
            return self.mutate(session);
        }
        proof {
            reveal(git::ref_transaction_script);
            assert(rest.drop_first() =~= guards.deep_view().skip(from + 1));
            assert(rest[0] == guards.deep_view()[from as int]);
        }
        git::step_transaction(
            session,
            Request::Prepare {
                dir: guards[from].0.clone(),
                commands: guards[from].1.clone(),
                message: "git-rehearse occupancy".to_owned(),
            },
            "git-rehearse occupancy",
        )?;
        let inner = self.lock_heads(session, guards, from + 1);
        git::end_transaction(session, "git-rehearse occupancy", inner)
    }
}

/// Moves refs while the `HEAD` of every worktree is locked: each foreign `HEAD`
/// by a prepared verification, and that of the origin and the affected refs by
/// the transaction itself, which is abandoned where the occupancy no longer
/// holds or `check` fails.
pub fn transact<C: Check>(
    session: &mut Session,
    repo: &str,
    commands: &str,
    affected: &Vec<String>,
    message: &str,
    check: &C,
) -> (outcome: Result<(), Stop>)
    ensures
        ran(outcome, final(session)@) == transact_script(
            repo@,
            commands@,
            affected.deep_view(),
            message@,
            check,
            old(session)@,
        ),
{
    proof {
        reveal(transact_script);
    }
    let origin = git::canonicalize(session, repo)?;
    let captured = Origin::capture(session, repo)?;
    let common = common_dir(session, repo)?;
    let main = same(&captured.git_dir, &common);
    let paths = registered_paths(session, repo, &origin, main)?;
    let guards = guards(session, &paths, &origin)?;
    let guarded = guarded_commands(session, repo, commands)?;
    let plan = Plan {
        repo,
        commands: &guarded,
        affected,
        message,
        origin: &origin,
        main,
        paths: &paths,
        check,
    };
    assert(guards.deep_view().skip(0) =~= guards.deep_view());
    plan.lock_heads(session, &guards, 0)
}

} // verus!
