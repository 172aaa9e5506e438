//! Bringing a shadow clone into existence, in the one order that works.
//!
//! The sandbox is disposable and inert: no remotes, so that an accidental push
//! inside it has nowhere to go, and no hooks. The order of the steps is the
//! contract. Configuration in particular is carried before the checkout, which
//! decides what bytes the worktree holds.

use vstd::prelude::*;

use crate::cache::{id_of, repo_id};
use crate::carry::{park, park_script, Carry, CarryModel};
use crate::compose::{args1, args3, args4, args5, args6, args7, args8, cat2, cat3, cat5, cat6};
use crate::error::{Error, Fault};
use crate::files::{do_script, or_fail, or_io, perform, read_bytes, read_bytes_script};
use crate::git;
use crate::number::{decimal, decimal_value, show, show_two_digits, two_digits, value_of};
use crate::parts::{lines, lines_of, pieces, replace_char, replaced_char};
use crate::paths::{display, displayed, inside, join_path};
use crate::refs::{lookup, Entries, RefMap};
use crate::sandbox::merge_config;
use crate::sandbox::meta::{write_script, Meta, MetaModel, Status, META_SCHEMA};
use crate::sandbox::rerere;
use crate::sandbox::{worktree_of, Checkout, CheckoutModel, Plan, PlanModel, Sandbox, SandboxModel};
use crate::session::{
    asked, caught, done_in, heard, ran, Answer, Ask, Heard, HeardModel, Reason, Request, Run,
    Session, Stop, Tape,
};
use crate::text::{copy_texts, same, Text};
use crate::worktree::{capture_script, Origin, OriginModel};

verus! {

// ---------------------------------------------------------------------------
// The steps
// ---------------------------------------------------------------------------
/// A git command whose output nobody reads.
pub open spec fn quietly(run: Run<Text>) -> Run<()> {
    run.and_then(|output: Text, tape: Tape| Run::Gives((), tape))
}

/// `git clone --local --no-checkout` into the rehearsal directory. Local, so
/// that the object store is linked and not copied; and no worktree and no
/// alternates, which would share what is being sandboxed.
#[verifier::opaque]
pub open spec fn clone_script(root: Text, repo: Text, hooks: Text, tape: Tape) -> Run<()> {
    quietly(
        git::run_script(
            root,
            seq![
                "clone"@,
                "--local"@,
                "--no-checkout"@,
                "--template="@ + hooks,
                "--"@,
                repo,
                "sandbox"@,
            ],
            tape,
        ),
    )
}

fn clone_repository(session: &mut Session, root: &str, repo: &str, hooks: &str) -> (outcome: Result<
    (),
    Stop,
>)
    ensures
        ran(outcome, final(session)@) == clone_script(root@, repo@, hooks@, old(session)@),
{
    proof {
        reveal(clone_script);
    }
    let template = git::flag_with_path("--template=", hooks);
    git::run(
        session,
        root,
        args7("clone", "--local", "--no-checkout", &template, "--", repo, "sandbox"),
    )?;
    Ok(())
}

/// The command that makes one remote branch a local one: it states the commit
/// that it replaces, or that there is none.
pub open spec fn promotion(name: Text, commit: Text, existing: Entries) -> Text {
    match lookup(existing, name) {
        Some(old) => "update refs/heads/"@ + name + "\0"@ + commit + "\0"@ + old + "\0"@,
        None => "create refs/heads/"@ + name + "\0"@ + commit + "\0"@,
    }
}

/// The commands that make every remote branch a local one. The source's default
/// branch pointer is no branch of its own.
pub open spec fn promotions(remote: Entries, existing: Entries) -> Text
    decreases remote.len(),
{
    if remote.len() == 0 {
        Seq::empty()
    } else {
        let earlier = promotions(remote.drop_last(), existing);
        if remote.last().0 == "HEAD"@ {
            earlier
        } else {
            earlier + promotion(remote.last().0, remote.last().1, existing)
        }
    }
}

/// The commands that make every remote branch a local one.
pub fn promotion_commands(remote: &RefMap, existing: &RefMap) -> (commands: String)
    ensures
        commands@ == promotions(remote.deep_view(), existing.deep_view()),
{
    let ghost all = remote.deep_view();
    let mut commands = String::new();
    let mut i: usize = 0;
    assert(all.take(0) =~= Seq::empty());
    assert(commands@ =~= Seq::<char>::empty());
    while i < remote.len()
        invariant
            i <= all.len(),
            all == remote.deep_view(),
            commands@ == promotions(all.take(i as int), existing.deep_view()),
        decreases all.len() - i,
    {
        assert(all.take(i + 1).drop_last() =~= all.take(i as int));
        let name = remote.name(i);
        let commit = remote.value(i);
        if !same(name, "HEAD") {
            let command = match existing.get(name) {
                Some(old) => cat2(
                    &cat6("update refs/heads/", name, "\0", commit, "\0", &old),
                    "\0",
                ),
                None => cat5("create refs/heads/", name, "\0", commit, "\0"),
            };
            assert(command@ =~= promotion(name@, commit@, existing.deep_view()));
            commands.append(&command);
        }
        i = i + 1;
    }
    assert(all.take(all.len() as int) =~= all);
    commands
}

/// Makes every remote branch a local one, in one transaction.
#[verifier::opaque]
pub open spec fn promote_branches_script(worktree: Text, tape: Tape) -> Run<()> {
    git::refs_script(worktree, "refs/heads/"@, 2, tape).and_then(|existing: Entries, tape: Tape|
    git::refs_script(worktree, "refs/remotes/origin/"@, 3, tape).and_then(
        |remote: Entries, tape: Tape|
            if promotions(remote, existing).len() == 0 {
                Run::Gives((), tape)
            } else {
                quietly(
                    git::run_with_stdin_script(
                        worktree,
                        seq!["update-ref"@, "--stdin"@, "-z"@],
                        promotions(remote, existing),
                        tape,
                    ),
                )
            }))
}

fn promote_branches(session: &mut Session, worktree: &str) -> (outcome: Result<(), Stop>)
    ensures
        ran(outcome, final(session)@) == promote_branches_script(worktree@, old(session)@),
{
    proof {
        reveal(promote_branches_script);
    }
    let existing = git::refs(session, worktree, "refs/heads/", 2)?;
    let remote = git::refs(session, worktree, "refs/remotes/origin/", 3)?;
    let updates = promotion_commands(&remote, &existing);
    if updates.as_str().is_empty() {
        return Ok(());
    }
    git::run_with_stdin(session, worktree, args3("update-ref", "--stdin", "-z"), &updates)?;
    Ok(())
}

/// Removes each of the remotes.
pub open spec fn strip_from(worktree: Text, remotes: Seq<Text>, tape: Tape) -> Run<()>
    decreases remotes.len(),
{
    if remotes.len() == 0 {
        Run::Gives((), tape)
    } else {
        git::run_script(worktree, seq!["remote"@, "remove"@, remotes[0]], tape).and_then(
            |output: Text, tape: Tape| strip_from(worktree, remotes.drop_first(), tape),
        )
    }
}

pub open spec fn still_remotes(left: Text) -> Fault {
    Fault::Sandbox(
        "sandbox still has remotes after stripping: "@ + replaced_char(left, '\n', ", "@),
    )
}

/// Removes every remote, and fails unless none is left then.
#[verifier::opaque]
pub open spec fn strip_remotes_script(worktree: Text, tape: Tape) -> Run<()> {
    git::run_script(worktree, seq!["remote"@], tape).and_then(|remotes: Text, tape: Tape|
    strip_from(worktree, lines_of(remotes), tape).and_then(|stripped: (), tape: Tape|
    git::run_script(worktree, seq!["remote"@], tape).and_then(|left: Text, tape: Tape|
        if left.len() == 0 {
            Run::Gives((), tape)
        } else {
            Run::Fails(still_remotes(left), tape)
        })))
}

fn strip(session: &mut Session, worktree: &str, remotes: &Vec<String>) -> (outcome: Result<
    (),
    Stop,
>)
    ensures
        ran(outcome, final(session)@) == strip_from(
            worktree@,
            remotes.deep_view(),
            old(session)@,
        ),
{
    let ghost all = remotes.deep_view();
    let mut i: usize = 0;
    assert(all.skip(0) =~= all);
    while i < remotes.len()
        invariant
            i <= remotes@.len(),
            all == remotes.deep_view(),
            strip_from(worktree@, all, old(session)@) == strip_from(
                worktree@,
                all.skip(i as int),
                session@,
            ),
        decreases remotes@.len() - i,
    {
        assert(all.skip(i as int).drop_first() =~= all.skip(i + 1));
        assert(all.skip(i as int)[0] == remotes[i as int]@);
        git::run(session, worktree, args3("remote", "remove", &remotes[i]))?;
        i = i + 1;
    }
    Ok(())
}

fn strip_remotes(session: &mut Session, worktree: &str) -> (outcome: Result<(), Stop>)
    ensures
        ran(outcome, final(session)@) == strip_remotes_script(worktree@, old(session)@),
{
    proof {
        reveal(strip_remotes_script);
    }
    let remotes = git::run(session, worktree, args1("remote"))?;
    strip(session, worktree, &lines(&remotes))?;
    let left = git::run(session, worktree, args1("remote"))?;
    if left.as_str().is_empty() {
        Ok(())
    } else {
        Err(
            Stop::Fail(
                Error::Sandbox(
                    cat2(
                        "sandbox still has remotes after stripping: ",
                        &replace_char(&left, '\n', ", "),
                    ),
                ),
            ),
        )
    }
}

/// Settings whose absence would make the rehearsal differ from the real thing:
/// the identity that a rebase writes into every replayed commit, the line
/// endings of the worktree, and what signs commits and whether.
pub open spec fn carried_config() -> Seq<Text> {
    seq![
        "user.name"@,
        "user.email"@,
        "core.autocrlf"@,
        "core.eol"@,
        "commit.gpgsign"@,
        "tag.gpgsign"@,
        "user.signingkey"@,
        "gpg.format"@,
    ] + seq!["gpg.program"@, "gpg.openpgp.program"@, "gpg.ssh.program"@, "gpg.x509.program"@]
}

fn carried_keys() -> (keys: Vec<String>)
    ensures
        keys.deep_view() == carried_config(),
{
    let first = args8(
        "user.name",
        "user.email",
        "core.autocrlf",
        "core.eol",
        "commit.gpgsign",
        "tag.gpgsign",
        "user.signingkey",
        "gpg.format",
    );
    let programs = args4(
        "gpg.program",
        "gpg.openpgp.program",
        "gpg.ssh.program",
        "gpg.x509.program",
    );
    crate::compose::chain(first, &programs)
}

/// Copies each of the settings that the real repository has.
pub open spec fn carry_config_from(
    repo: Text,
    worktree: Text,
    keys: Seq<Text>,
    tape: Tape,
) -> Run<()>
    decreases keys.len(),
{
    if keys.len() == 0 {
        Run::Gives((), tape)
    } else {
        git::run_script(repo, seq!["config"@, "--get"@, keys[0]], tape).either(
            |value: Text, tape: Tape|
                if value.len() == 0 {
                    carry_config_from(repo, worktree, keys.drop_first(), tape)
                } else {
                    git::run_script(worktree, seq!["config"@, keys[0], value], tape).and_then(
                        |output: Text, tape: Tape|
                            carry_config_from(repo, worktree, keys.drop_first(), tape),
                    )
                },
            |fault: Fault, tape: Tape| carry_config_from(repo, worktree, keys.drop_first(), tape),
        )
    }
}

fn carry_config(session: &mut Session, repo: &str, worktree: &str) -> (outcome: Result<(), Stop>)
    ensures
        ran(outcome, final(session)@) == carry_config_from(
            repo@,
            worktree@,
            carried_config(),
            old(session)@,
        ),
{
    let keys = carried_keys();
    let ghost all = keys.deep_view();
    let mut i: usize = 0;
    assert(all.skip(0) =~= all);
    while i < keys.len()
        invariant
            i <= keys@.len(),
            all == keys.deep_view(),
            all == carried_config(),
            carry_config_from(repo@, worktree@, all, old(session)@) == carry_config_from(
                repo@,
                worktree@,
                all.skip(i as int),
                session@,
            ),
        decreases keys@.len() - i,
    {
        assert(all.skip(i as int).drop_first() =~= all.skip(i + 1));
        assert(all.skip(i as int)[0] == keys[i as int]@);
        if let Ok(value) = caught(git::run(session, repo, args3("config", "--get", &keys[i])))? {
            if !value.as_str().is_empty() {
                git::run(session, worktree, args3("config", &keys[i], &value))?;
            }
        }
        i = i + 1;
    }
    Ok(())
}

/// Writes a repository's own merge settings behind the sandbox's configuration.
#[verifier::opaque]
pub open spec fn write_merge_config_script(
    worktree: Text,
    entries: Seq<merge_config::EntryModel>,
    tape: Tape,
) -> Run<()> {
    let path = inside(worktree, ".git/config"@);
    or_io(read_bytes_script(path, tape), path).and_then(|config: Seq<u8>, tape: Tape|
        match merge_config::appended_from(merge_config::line_ended(config), entries) {
            Err(message) => Run::Fails(Fault::Sandbox(message), tape),
            Ok(transformed) => do_script(Ask::Write(path, transformed), path, tape),
        })
}

/// Carries a repository's own merge settings, so that its merge drivers run as
/// they do there. That there are none is no failure.
#[verifier::opaque]
pub open spec fn carry_merge_config_script(repo: Text, worktree: Text, tape: Tape) -> Run<()> {
    git::run_bytes_script(
        repo,
        seq!["config"@, "--local"@, "--show-origin"@, "-z"@, "--get-regexp"@, "^merge\\."@],
        tape,
    ).either(
        |output: Seq<u8>, tape: Tape|
            match merge_config::entries_from(pieces(output, 0u8), Seq::empty()) {
                Err(message) => Run::Fails(Fault::Sandbox(message), tape),
                Ok(entries) => if entries.len() == 0 {
                    Run::Gives((), tape)
                } else {
                    write_merge_config_script(worktree, entries, tape)
                },
            },
        |fault: Fault, tape: Tape|
            if fault is Git && fault->code == Some(1i32) {
                Run::Gives((), tape)
            } else {
                Run::Fails(fault, tape)
            },
    )
}

fn write_merge_config(
    session: &mut Session,
    worktree: &str,
    entries: &Vec<merge_config::Entry>,
) -> (outcome: Result<(), Stop>)
    ensures
        ran(outcome, final(session)@) == write_merge_config_script(
            worktree@,
            entries.deep_view(),
            old(session)@,
        ),
{
    proof {
        reveal(write_merge_config_script);
    }
    let path = join_path(worktree, ".git/config");
    let answer = read_bytes(session, &path)?;
    let config = or_fail(answer, &path)?;
    assert(config.deep_view() =~= config@);
    match merge_config::append(&config, entries) {
        Err(message) => Err(Stop::Fail(Error::Sandbox(message))),
        Ok(transformed) => perform(session, Request::Write(path.clone(), transformed), &path),
    }
}

fn carry_merge_config(session: &mut Session, repo: &str, worktree: &str) -> (outcome: Result<
    (),
    Stop,
>)
    ensures
        ran(outcome, final(session)@) == carry_merge_config_script(
            repo@,
            worktree@,
            old(session)@,
        ),
{
    proof {
        reveal(carry_merge_config_script);
    }
    match caught(
        git::run_bytes(
            session,
            repo,
            args6("config", "--local", "--show-origin", "-z", "--get-regexp", "^merge\\."),
        ),
    )? {
        Ok(output) => {
            assert(output.deep_view() =~= output@);
            match merge_config::parse(&output) {
                Err(message) => Err(Stop::Fail(Error::Sandbox(message))),
                Ok(entries) => {
                    if entries.len() == 0 {
                        return Ok(());
                    }
                    write_merge_config(session, worktree, &entries)
                },
            }
        },
        Err(Error::Git { args, code, stderr }) => {
            if let Some(code) = code {
                if code == 1 {
                    return Ok(());
                }
            }
            Err(Stop::Fail(Error::Git { args, code, stderr }))
        },
        Err(error) => Err(Stop::Fail(error)),
    }
}

/// The arguments that check out what the real repository had checked out.
pub open spec fn checkout_args(target: CheckoutModel) -> Seq<Text> {
    match target {
        CheckoutModel::Branch(name) => seq!["checkout"@, "--quiet"@, name, "--"@],
        CheckoutModel::Detached(commit) => seq![
            "checkout"@,
            "--quiet"@,
            "--detach"@,
            commit,
            "--"@,
        ],
    }
}

fn checkout_arguments(target: &Checkout) -> (args: Vec<String>)
    ensures
        args.deep_view() == checkout_args(target.deep_view()),
{
    match target {
        Checkout::Branch(name) => args4("checkout", "--quiet", name, "--"),
        Checkout::Detached(commit) => args5("checkout", "--quiet", "--detach", commit, "--"),
    }
}

/// Moves the carried work into the sandbox, where there is any.
#[verifier::opaque]
pub open spec fn park_carry_script(
    repo: Text,
    worktree: Text,
    carry: Option<CarryModel>,
    tape: Tape,
) -> Run<()> {
    match carry {
        Some(carry) => park_script(repo, worktree, carry.snapshot, tape),
        None => Run::Gives((), tape),
    }
}

fn park_carry(session: &mut Session, repo: &str, worktree: &str, carry: &Option<Carry>) -> (outcome:
    Result<(), Stop>)
    ensures
        ran(outcome, final(session)@) == park_carry_script(
            repo@,
            worktree@,
            carry.deep_view(),
            old(session)@,
        ),
{
    proof {
        reveal(park_carry_script);
    }
    match carry {
        Some(carry) => park(session, repo, worktree, carry),
        None => Ok(()),
    }
}

// ---------------------------------------------------------------------------
// All of it
// ---------------------------------------------------------------------------
/// The clone, made inert and checked out.
#[verifier::opaque]
pub open spec fn furnish_script(root: Text, plan: PlanModel, tape: Tape) -> Run<()> {
    let hooks = inside(root, "no-hooks"@);
    let worktree = worktree_of(root);
    do_script(Ask::CreateDir(hooks), hooks, tape).and_then(|made: (), tape: Tape|
    clone_script(root, plan.repo, hooks, tape).and_then(|made: (), tape: Tape|
    promote_branches_script(worktree, tape).and_then(|made: (), tape: Tape|
    strip_remotes_script(worktree, tape).and_then(|made: (), tape: Tape|
    git::run_script(worktree, seq!["config"@, "core.hooksPath"@, hooks], tape).and_then(
        |made: Text, tape: Tape|
    carry_config_from(plan.repo, worktree, carried_config(), tape).and_then(
        |made: (), tape: Tape|
    carry_merge_config_script(plan.repo, worktree, tape).and_then(|made: (), tape: Tape|
    rerere::copy_script(plan.repo, worktree, tape).and_then(|made: (), tape: Tape|
    git::run_script(worktree, checkout_args(plan.checkout), tape).and_then(
        |made: Text, tape: Tape|
        park_carry_script(plan.repo, worktree, plan.carry, tape))))))))))
}

/// The metadata of a new rehearsal.
pub open spec fn fresh_meta(
    plan: PlanModel,
    id: Text,
    origin: OriginModel,
    now: u64,
) -> MetaModel {
    MetaModel {
        schema: META_SCHEMA,
        id,
        repo_id: id_of(plan.repo),
        repo_path: plan.repo,
        origin: Some(origin),
        command: plan.command,
        checkout: plan.checkout,
        pre_state: plan.pre_state,
        carry: plan.carry,
        created_unix: now,
        status: Status::Fresh,
        result: None,
        extensions: Seq::empty(),
    }
}

/// Everything that happens inside a claimed directory.
#[verifier::opaque]
pub open spec fn build_script(
    root: Text,
    plan: PlanModel,
    id: Text,
    now: u64,
    tape: Tape,
) -> Run<MetaModel> {
    furnish_script(root, plan, tape).and_then(|furnished: (), tape: Tape|
    capture_script(plan.repo, tape).and_then(|origin: OriginModel, tape: Tape|
    write_script(fresh_meta(plan, id, origin, now), root, tape).and_then(
        |written: (), tape: Tape| Run::Gives(fresh_meta(plan, id, origin, now), tape))))
}

fn furnish(session: &mut Session, root: &str, plan: &Plan) -> (outcome: Result<(), Stop>)
    ensures
        ran(outcome, final(session)@) == furnish_script(root@, plan.deep_view(), old(session)@),
{
    proof {
        reveal(furnish_script);
    }
    let hooks = join_path(root, "no-hooks");
    perform(session, Request::CreateDir(hooks.clone()), &hooks)?;
    let worktree = join_path(root, "sandbox");
    clone_repository(session, root, &plan.repo, &hooks)?;
    promote_branches(session, &worktree)?;
    strip_remotes(session, &worktree)?;
    git::run(session, &worktree, args3("config", "core.hooksPath", &hooks))?;
    carry_config(session, &plan.repo, &worktree)?;
    carry_merge_config(session, &plan.repo, &worktree)?;
    rerere::copy(session, &plan.repo, &worktree)?;
    git::run(session, &worktree, checkout_arguments(&plan.checkout))?;
    park_carry(session, &plan.repo, &worktree, &plan.carry)
}

fn build(session: &mut Session, root: &str, plan: &Plan, id: &str, now: u64) -> (outcome: Result<
    Meta,
    Stop,
>)
    ensures
        ran(outcome, final(session)@) == build_script(
            root@,
            plan.deep_view(),
            id@,
            now,
            old(session)@,
        ),
{
    proof {
        reveal(build_script);
    }
    furnish(session, root, plan)?;
    let origin = Origin::capture(session, &plan.repo)?;
    let extensions: Vec<(String, String)> = Vec::new();
    assert(extensions.deep_view() =~= Seq::empty());
    let meta = Meta {
        schema: META_SCHEMA,
        id: id.to_owned(),
        repo_id: repo_id(&plan.repo),
        repo_path: plan.repo.clone(),
        origin: Some(origin),
        command: copy_texts(&plan.command),
        checkout: plan.checkout.copy(),
        pre_state: plan.pre_state.copy(),
        carry: match &plan.carry {
            Some(carry) => Some(carry.copy()),
            None => None,
        },
        created_unix: now,
        status: Status::Fresh,
        result: None,
        extensions,
    };
    meta.write(session, root)?;
    Ok(meta)
}

/// The id of the rehearsal that is the `attempt`-th of its second.
pub open spec fn rehearsal_id(now: u64, attempt: nat) -> Text {
    decimal(now as nat) + "-"@ + two_digits(attempt)
}

pub open spec fn too_many(repo_dir: Text) -> Fault {
    Fault::Sandbox(displayed(repo_dir) + ": 100 rehearsals already started this second"@)
}

/// Claims the first directory from the `attempt`-th on that is free. Creating it
/// is what allocates the id.
pub open spec fn claim_from(repo_dir: Text, now: u64, attempt: int, tape: Tape) -> Run<Text>
    decreases 100 - attempt,
{
    if attempt >= 100 {
        Run::Fails(too_many(repo_dir), tape)
    } else {
        let id = rehearsal_id(now, attempt as nat);
        let root = inside(repo_dir, id);
        heard(Ask::CreateDir(root), |answer: Answer| done_in(answer), tape).and_then(
            |claimed: HeardModel<()>, tape: Tape|
                match claimed {
                    HeardModel::Got(_) => Run::Gives(id, tape),
                    HeardModel::Trouble(trouble) => if trouble.reason == Reason::Exists {
                        claim_from(repo_dir, now, attempt + 1, tape)
                    } else {
                        Run::Fails(Fault::Io(root, trouble.message), tape)
                    },
                },
        )
    }
}

fn claim_directory(session: &mut Session, repo_dir: &str, now: u64) -> (outcome: Result<
    String,
    Stop,
>)
    ensures
        ran(outcome, final(session)@) == claim_from(repo_dir@, now, 0, old(session)@),
{
    let mut attempt: u64 = 0;
    while attempt < 100
        invariant
            attempt <= 100,
            claim_from(repo_dir@, now, 0, old(session)@) == claim_from(
                repo_dir@,
                now,
                attempt as int,
                session@,
            ),
        decreases 100 - attempt,
    {
        let id = cat3(&show(now), "-", &show_two_digits(attempt));
        let root = join_path(repo_dir, &id);
        match session.done(Request::CreateDir(root.clone()))? {
            Heard::Got(_) => return Ok(id),
            Heard::Trouble(trouble) => {
                if trouble.reason != Reason::Exists {
                    return Err(Stop::Fail(Error::io(&root, &trouble.message)));
                }
            },
        }
        attempt = attempt + 1;
    }
    Err(
        Stop::Fail(
            Error::Sandbox(
                cat2(&display(repo_dir), ": 100 rehearsals already started this second"),
            ),
        ),
    )
}

/// Builds a sandbox; where that fails the directory is removed again, and the
/// first failure is the one that is reported.
#[verifier::opaque]
pub open spec fn create_script(
    cache_root: Text,
    plan: PlanModel,
    now: u64,
    tape: Tape,
) -> Run<SandboxModel> {
    let repo_dir = inside(cache_root, id_of(plan.repo));
    do_script(Ask::CreateDirs(repo_dir), repo_dir, tape).and_then(|made: (), tape: Tape|
    claim_from(repo_dir, now, 0, tape).and_then(|id: Text, tape: Tape| {
        let root = inside(repo_dir, id);
        build_script(root, plan, id, now, tape).either(
            |meta: MetaModel, tape: Tape| Run::Gives(SandboxModel { root, meta }, tape),
            |fault: Fault, tape: Tape|
                asked(Ask::RemoveTree(root), tape).and_then(
                    |answer: Answer, tape: Tape| Run::Fails(fault, tape),
                ),
        )
    }))
}

/// Builds a sandbox for `plan` under `cache_root`: claim a directory, clone,
/// promote every branch, strip the remotes, point hooks at nothing, carry the
/// configuration, check out, bring the uncommitted work, write `meta.json`.
pub fn create(session: &mut Session, cache_root: &str, plan: &Plan, now_unix: u64) -> (outcome:
    Result<Sandbox, Stop>)
    ensures
        ran(outcome, final(session)@) == create_script(
            cache_root@,
            plan.deep_view(),
            now_unix,
            old(session)@,
        ),
{
    proof {
        reveal(create_script);
    }
    let repo_dir = join_path(cache_root, &repo_id(&plan.repo));
    perform(session, Request::CreateDirs(repo_dir.clone()), &repo_dir)?;
    let id = claim_directory(session, &repo_dir, now_unix)?;
    let root = join_path(&repo_dir, &id);
    match caught(build(session, &root, plan, &id, now_unix))? {
        Ok(meta) => Ok(Sandbox { root, meta }),
        Err(error) => {
            session.ask(Request::RemoveTree(root))?;
            Err(Stop::Fail(error))
        },
    }
}

/// Whether the steps that make a sandbox inert all went through, from `tape` on.
pub open spec fn is_made_inert(root: Text, repo: Text, tape: Tape) -> bool {
    let hooks = inside(root, "no-hooks"@);
    let worktree = worktree_of(root);
    &&& do_script(Ask::CreateDir(hooks), hooks, tape) matches Run::Gives(_, tape)
    &&& clone_script(root, repo, hooks, tape) matches Run::Gives(_, tape)
    &&& promote_branches_script(worktree, tape) matches Run::Gives(_, tape)
    &&& strip_remotes_script(worktree, tape) matches Run::Gives(_, tape)
    &&& git::run_script(worktree, seq!["config"@, "core.hooksPath"@, hooks], tape) is Gives
}

/// A sandbox is inert from the start: none is furnished, and nothing is checked
/// out in it, before its remotes are gone and its hooks point at a directory that
/// was created empty.
pub proof fn sandboxes_are_inert(root: Text, plan: PlanModel, tape: Tape)
    requires
        furnish_script(root, plan, tape) is Gives,
    ensures
        is_made_inert(root, plan.repo, tape),
{
    reveal(furnish_script);
}

/// Remotes count as gone only once git lists none.
pub proof fn no_remote_is_left(worktree: Text, tape: Tape, after: Tape)
    requires
        strip_remotes_script(worktree, tape) == Run::Gives((), after),
    ensures
        exists|asked: Tape|
            #[trigger] git::run_script(worktree, seq!["remote"@], asked) == Run::Gives(
                Seq::<char>::empty(),
                after,
            ),
{
    reveal(strip_remotes_script);
    if let Run::Gives(remotes, listed) = git::run_script(worktree, seq!["remote"@], tape) {
        if let Run::Gives(_, asked) = strip_from(worktree, lines_of(remotes), listed) {
            if let Run::Gives(left, _) = git::run_script(worktree, seq!["remote"@], asked) {
                assert(left =~= Seq::<char>::empty());
            }
        }
    }
}

/// Two rehearsals of one second never get the same id: creating the directory
/// claims it, and each attempt has an id of its own.
pub proof fn attempts_have_their_own_ids(now: u64, first: nat, second: nat)
    requires
        first < 100,
        second < 100,
        rehearsal_id(now, first) == rehearsal_id(now, second),
    ensures
        first == second,
{
    let head = decimal(now as nat) + "-"@;
    let a = two_digits(first);
    let b = two_digits(second);
    assert(a =~= rehearsal_id(now, first).skip(head.len() as int));
    assert(b =~= rehearsal_id(now, second).skip(head.len() as int));
    decimal_value(first);
    decimal_value(second);
    two_digits_value(first);
    two_digits_value(second);
}

proof fn two_digits_value(n: nat)
    ensures
        value_of(two_digits(n)) == n,
{
    decimal_value(n);
    if n < 10 {
        reveal_strlit("0");
        let digits = two_digits(n);
        assert(digits.drop_last() =~= seq!['0']);
        assert(seq!['0'].drop_last() =~= Seq::<char>::empty());
        reveal_with_fuel(value_of, 3);
        reveal_with_fuel(decimal, 2);
        assert(digits.last() == decimal(n).last());
    }
}

} // verus!
