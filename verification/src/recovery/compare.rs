//! Whether index and worktree are exactly those of a commit.
//!
//! The comparison goes through disposable indexes, so that neither the bits of
//! the real index that hide a path nor its cached timestamps can hide an edit,
//! and so that the real index stays as it is to the byte.

use vstd::prelude::*;

use crate::compose::{args1, args2, args3, args4, args5, args8, cat2, chain};
use crate::error::Fault;
use crate::files::{do_script, kind, kind_script, or_fail, or_io, perform};
use crate::git;
use crate::parts::{bytes_start_with, pieces, split_bytes};
use crate::paths::{from_bytes, inside, join_path, text_of_bytes};
use crate::session::{
    caught, copy_bytes, heard, ran, text_in, Answer, Ask, Heard, HeardModel, Kind, Reason, Request,
    Run, Session, Stop, Tape,
};
use crate::text::{put, same_text, Text};

verus! {

/// Whether a procedure runs to its end.
pub open spec fn succeeds<T>(run: Run<T>) -> Run<bool> {
    run.either(
        |value: T, tape: Tape| Run::Gives(true, tape),
        |fault: Fault, tape: Tape| Run::Gives(false, tape),
    )
}

/// What a procedure gives, or nothing where it fails.
pub open spec fn optional<T>(run: Run<T>) -> Run<Option<T>> {
    run.either(
        |value: T, tape: Tape| Run::Gives(Some(value), tape),
        |fault: Fault, tape: Tape| Run::Gives(None, tape),
    )
}

/// Takes a failure as `None`.
pub fn when_ok<T>(outcome: Result<T, Stop>) -> (result: Result<Option<T>, Stop>)
    ensures
        match outcome {
            Ok(value) => result == Ok::<Option<T>, Stop>(Some(value)),
            Err(Stop::Fail(_)) => result == Ok::<Option<T>, Stop>(None),
            Err(Stop::Ask(request)) => result == Err::<Option<T>, Stop>(Stop::Ask(request)),
        },
{
    match caught(outcome)? {
        Ok(value) => Ok(Some(value)),
        Err(_) => Ok(None),
    }
}

// ---------------------------------------------------------------------------
// The index
// ---------------------------------------------------------------------------
/// The git directory of a repository.
#[verifier::opaque]
pub open spec fn git_dir_script(repo: Text, tape: Tape) -> Run<Text> {
    git::path_script(repo, seq!["rev-parse"@, "--absolute-git-dir"@], tape)
}

/// The git directory of a repository.
pub fn git_dir(session: &mut Session, repo: &str) -> (outcome: Result<String, Stop>)
    ensures
        ran(outcome, final(session)@) == git_dir_script(repo@, old(session)@),
{
    proof {
        reveal(git_dir_script);
    }
    git::run_path(session, repo, args2("rev-parse", "--absolute-git-dir"))
}

/// The environment in which git uses another index.
pub open spec fn index_env(index: Text) -> Seq<(Text, Text)> {
    seq![("GIT_INDEX_FILE"@, index)]
}

/// The environment in which git uses another index and another worktree.
pub open spec fn populate_env(index: Text, worktree: Text) -> Seq<(Text, Text)> {
    seq![("GIT_INDEX_FILE"@, index), ("GIT_WORK_TREE"@, worktree)]
}

fn with_index(index: &str) -> (env: Vec<(String, String)>)
    ensures
        env.deep_view() == index_env(index@),
{
    let env = vec![("GIT_INDEX_FILE".to_owned(), index.to_owned())];
    assert(env.deep_view() =~= index_env(index@));
    env
}

fn with_index_and_worktree(index: &str, worktree: &str) -> (env: Vec<(String, String)>)
    ensures
        env.deep_view() == populate_env(index@, worktree@),
{
    let env = vec![
        ("GIT_INDEX_FILE".to_owned(), index.to_owned()),
        ("GIT_WORK_TREE".to_owned(), worktree.to_owned()),
    ];
    assert(env.deep_view() =~= populate_env(index@, worktree@));
    env
}

/// The tree of a copy of the index, made in a directory of its own.
#[verifier::opaque]
pub open spec fn copied_tree_script(repo: Text, storage: Text, temporary: Text, tape: Tape) -> Run<
    Text,
> {
    let index = inside(temporary, "index"@);
    do_script(Ask::Copy(inside(storage, "index"@), index), index, tape).and_then(
        |done: (), tape: Tape|
            git::run_with_clean_env_script(repo, seq!["write-tree"@], index_env(index), tape),
    )
}

fn copied_tree(session: &mut Session, repo: &str, storage: &str, temporary: &str) -> (outcome: Result<
    String,
    Stop,
>)
    ensures
        ran(outcome, final(session)@) == copied_tree_script(
            repo@,
            storage@,
            temporary@,
            old(session)@,
        ),
{
    proof {
        reveal(copied_tree_script);
    }
    let index = join_path(temporary, "index");
    perform(session, Request::Copy(join_path(storage, "index"), index.clone()), &index)?;
    git::run_with_clean_env(session, repo, args1("write-tree"), with_index(&index))
}

/// The tree of the index. It is taken of a copy, because taking it can update
/// the index.
#[verifier::opaque]
pub open spec fn index_tree_script(repo: Text, tape: Tape) -> Run<Text> {
    git_dir_script(repo, tape).and_then(|storage: Text, tape: Tape|
    or_io(
        heard(Ask::TempDir(storage, ".tmp"@), |answer: Answer| text_in(answer), tape),
        storage,
    ).and_then(|temporary: Text, tape: Tape|
        copied_tree_script(repo, storage, temporary, tape).closing(Ask::DropTemp(temporary))))
}

fn index_tree(session: &mut Session, repo: &str) -> (outcome: Result<String, Stop>)
    ensures
        ran(outcome, final(session)@) == index_tree_script(repo@, old(session)@),
{
    proof {
        reveal(index_tree_script);
    }
    let storage = git_dir(session, repo)?;
    let answer = session.text(Request::TempDir(storage.clone(), ".tmp".to_owned()))?;
    let temporary = or_fail(answer, &storage)?;
    let outcome = copied_tree(session, repo, &storage, &temporary);
    session.close(Request::DropTemp(temporary), outcome)
}

/// Whether the index is that of a commit.
#[verifier::opaque]
pub open spec fn index_is_script(repo: Text, commit: Text, tape: Tape) -> Run<bool> {
    optional(git::run_script(repo, seq!["rev-parse"@, commit + "^{tree}"@], tape)).and_then(
        |expected: Option<Text>, tape: Tape|
            optional(index_tree_script(repo, tape)).and_then(
                |actual: Option<Text>, tape: Tape|
                    Run::Gives(expected is Some && expected == actual, tape),
            ),
    )
}

fn index_is(session: &mut Session, repo: &str, commit: &str) -> (outcome: Result<bool, Stop>)
    ensures
        ran(outcome, final(session)@) == index_is_script(repo@, commit@, old(session)@),
{
    proof {
        reveal(index_is_script);
    }
    let expected = when_ok(
        git::run(session, repo, args2("rev-parse", &cat2(commit, "^{tree}"))),
    )?;
    let actual = when_ok(index_tree(session, repo))?;
    Ok(expected.is_some() && same_text(&expected, &actual))
}

// ---------------------------------------------------------------------------
// The files
// ---------------------------------------------------------------------------
/// The paths that a sparse checkout left out and that are absent.
pub open spec fn sparse_from(records: Seq<Seq<u8>>, repo: Text, done: Seq<Text>, tape: Tape) -> Run<
    Option<Seq<Text>>,
>
    decreases records.len(),
{
    if records.len() == 0 {
        Run::Gives(Some(done), tape)
    } else if records[0].len() == 0 {
        sparse_from(records.drop_first(), repo, done, tape)
    } else if records[0].len() < 2 || records[0][1] != 0x20u8 {
        Run::Gives(None, tape)
    } else if records[0][0] != 0x53u8 {
        sparse_from(records.drop_first(), repo, done, tape)
    } else {
        let path = text_of_bytes(records[0].skip(2));
        match kind_script(inside(repo, path), tape) {
            Run::Gives(HeardModel::Got(_), tape) => sparse_from(
                records.drop_first(),
                repo,
                done,
                tape,
            ),
            Run::Gives(HeardModel::Trouble(_), tape) => sparse_from(
                records.drop_first(),
                repo,
                done.push(path),
                tape,
            ),
            Run::Fails(fault, tape) => Run::Fails(fault, tape),
            Run::Asks(ask, tape) => Run::Asks(ask, tape),
        }
    }
}

/// The paths that a sparse checkout left out and that are still absent from the
/// real worktree. One that was brought in by hand is compared like any other.
#[verifier::opaque]
pub open spec fn sparse_excluded_script(repo: Text, env: Seq<(Text, Text)>, tape: Tape) -> Run<
    Option<Seq<Text>>,
> {
    optional(
        git::run_bytes_with_clean_env_script(
            repo,
            seq!["ls-files"@, "-t"@, "-z"@],
            env,
            tape,
        ),
    ).and_then(|listing: Option<Seq<u8>>, tape: Tape|
        match listing {
            None => Run::Gives(None, tape),
            Some(listing) => sparse_from(pieces(listing, 0u8), repo, Seq::empty(), tape),
        })
}

/// The bytes behind the first two.
fn behind_two(record: &Vec<u8>) -> (rest: Vec<u8>)
    requires
        record@.len() >= 2,
    ensures
        rest@ == record@.skip(2),
{
    let mut rest: Vec<u8> = Vec::new();
    let mut i: usize = 2;
    while i < record.len()
        invariant
            2 <= i <= record@.len(),
            rest@ == record@.subrange(2, i as int),
        decreases record@.len() - i,
    {
        rest.push(record[i]);
        i = i + 1;
    }
    assert(rest@ =~= record@.skip(2));
    rest
}

fn sparse_excluded_paths(session: &mut Session, repo: &str, env: Vec<(String, String)>) -> (outcome:
    Result<Option<Vec<String>>, Stop>)
    ensures
        ran(outcome, final(session)@) == sparse_excluded_script(
            repo@,
            env.deep_view(),
            old(session)@,
        ),
{
    proof {
        reveal(sparse_excluded_script);
    }
    let listing = match when_ok(
        git::run_bytes_with_clean_env(session, repo, args3("ls-files", "-t", "-z"), env),
    )? {
        Some(listing) => listing,
        None => return Ok(None),
    };
    assert(listing.deep_view() =~= listing@);
    let records = split_bytes(&listing, 0);
    let ghost all = records.deep_view();
    let ghost start = session@;
    let mut paths: Vec<String> = Vec::new();
    let mut i: usize = 0;
    assert(all.skip(0) =~= all);
    assert(paths.deep_view() =~= Seq::empty());
    while i < records.len()
        invariant
            i <= records@.len(),
            all == records.deep_view(),
            sparse_from(all, repo@, Seq::empty(), start) == sparse_from(
                all.skip(i as int),
                repo@,
                paths.deep_view(),
                session@,
            ),
            sparse_excluded_script(repo@, env.deep_view(), old(session)@) == sparse_from(
                all,
                repo@,
                Seq::empty(),
                start,
            ),
        decreases records@.len() - i,
    {
        assert(all.skip(i as int).drop_first() =~= all.skip(i + 1));
        let record = &records[i];
        assert(all.skip(i as int)[0] =~= record@);
        if record.len() == 0 {
            i = i + 1;
            continue;
        }
        if record.len() < 2 || record[1] != 0x20u8 {
            return Ok(None);
        }
        if record[0] == 0x53u8 {
            let path = from_bytes(&behind_two(record));
            match kind(session, &join_path(repo, &path))? {
                Heard::Got(_) => {},
                Heard::Trouble(_) => {
                    put(&mut paths, path);
                },
            }
        }
        i = i + 1;
    }
    Ok(Some(paths))
}

/// Whether git runs to its end with these arguments.
#[verifier::opaque]
pub open spec fn runs_script(
    repo: Text,
    args: Seq<Text>,
    env: Seq<(Text, Text)>,
    tape: Tape,
) -> Run<bool> {
    succeeds(git::run_with_clean_env_script(repo, args, env, tape))
}

fn runs(session: &mut Session, repo: &str, args: Vec<String>, env: Vec<(String, String)>) -> (outcome:
    Result<bool, Stop>)
    ensures
        ran(outcome, final(session)@) == runs_script(
            repo@,
            args.deep_view(),
            env.deep_view(),
            old(session)@,
        ),
{
    proof {
        reveal(runs_script);
    }
    match when_ok(git::run_with_clean_env(session, repo, args, env))? {
        Some(_) => Ok(true),
        None => Ok(false),
    }
}

/// Compares the real files with an index that holds a commit, except for the
/// paths that are to be left out. The index starts with no cached timestamps.
#[verifier::opaque]
pub open spec fn compare_script(
    repo: Text,
    commit: Text,
    index: Text,
    left_out: Seq<Text>,
    tape: Tape,
) -> Run<bool> {
    let env = index_env(index);
    runs_script(repo, seq!["read-tree"@, "--reset"@, commit], env, tape).and_then(
        |loaded: bool, tape: Tape|
            if !loaded {
                Run::Gives(false, tape)
            } else {
                mark_script(repo, left_out, env, tape).and_then(|marked: bool, tape: Tape|
                if !marked {
                    Run::Gives(false, tape)
                } else {
                    runs_script(repo, seq!["update-index"@, "--refresh"@], env, tape).and_then(
                        |fresh: bool, tape: Tape|
                            if !fresh {
                                Run::Gives(false, tape)
                            } else {
                                runs_script(repo, seq!["diff-files"@, "--quiet"@], env, tape)
                            },
                    )
                })
            },
    )
}

/// Marks the paths that a comparison leaves out.
#[verifier::opaque]
pub open spec fn mark_script(
    repo: Text,
    left_out: Seq<Text>,
    env: Seq<(Text, Text)>,
    tape: Tape,
) -> Run<bool> {
    if left_out.len() == 0 {
        Run::Gives(true, tape)
    } else {
        runs_script(
            repo,
            seq!["update-index"@, "--skip-worktree"@, "--"@] + left_out,
            env,
            tape,
        )
    }
}

fn compare(session: &mut Session, repo: &str, commit: &str, index: &str, left_out: &Vec<String>) -> (
    outcome: Result<bool, Stop>)
    ensures
        ran(outcome, final(session)@) == compare_script(
            repo@,
            commit@,
            index@,
            left_out.deep_view(),
            old(session)@,
        ),
{
    proof {
        reveal(compare_script);
        reveal(mark_script);
    }
    if !runs(session, repo, args3("read-tree", "--reset", commit), with_index(index))? {
        return Ok(false);
    }
    if left_out.len() != 0 {
        let args = chain(args3("update-index", "--skip-worktree", "--"), left_out);
        if !runs(session, repo, args, with_index(index))? {
            return Ok(false);
        }
    }
    if !runs(session, repo, args2("update-index", "--refresh"), with_index(index))? {
        return Ok(false);
    }
    runs(session, repo, args2("diff-files", "--quiet"), with_index(index))
}

/// Compares the real files with a commit, with a directory for the indexes and
/// one to check out into. The sparse patterns of the user are applied on the
/// way, because a path that they leave out is not a change.
#[verifier::opaque]
pub open spec fn probe_files_script(
    repo: Text,
    commit: Text,
    template: Text,
    check: Text,
    tape: Tape,
) -> Run<bool> {
    let env = populate_env(inside(template, "index"@), check);
    runs_script(repo, seq!["read-tree"@, "-m"@, "-u"@, commit], env, tape).and_then(
        |populated: bool, tape: Tape|
            if !populated {
                Run::Gives(false, tape)
            } else {
                sparse_excluded_script(repo, env, tape).and_then(
                    |left_out: Option<Seq<Text>>, tape: Tape|
                        match left_out {
                            None => Run::Gives(false, tape),
                            Some(left_out) => compare_script(
                                repo,
                                commit,
                                inside(template, "comparison-index"@),
                                left_out,
                                tape,
                            ),
                        },
                )
            },
    )
}

fn probe_files(session: &mut Session, repo: &str, commit: &str, template: &str, check: &str) -> (
    outcome: Result<bool, Stop>)
    ensures
        ran(outcome, final(session)@) == probe_files_script(
            repo@,
            commit@,
            template@,
            check@,
            old(session)@,
        ),
{
    proof {
        reveal(probe_files_script);
    }
    let index = join_path(template, "index");
    if !runs(
        session,
        repo,
        args4("read-tree", "-m", "-u", commit),
        with_index_and_worktree(&index, check),
    )? {
        return Ok(false);
    }
    match sparse_excluded_paths(session, repo, with_index_and_worktree(&index, check))? {
        None => Ok(false),
        Some(left_out) => compare(
            session,
            repo,
            commit,
            &join_path(template, "comparison-index"),
            &left_out,
        ),
    }
}

/// Compares the real files with a commit, in directories that are removed
/// whatever came out.
#[verifier::opaque]
pub open spec fn files_are_in_script(repo: Text, commit: Text, storage: Text, tape: Tape) -> Run<
    bool,
> {
    heard(Ask::TempDir(storage, ".tmp"@), |answer: Answer| text_in(answer), tape).and_then(
        |template: HeardModel<Text>, tape: Tape|
            match template {
                HeardModel::Trouble(_) => Run::Gives(false, tape),
                HeardModel::Got(template) => heard(
                    Ask::TempDir(storage, ".tmp"@),
                    |answer: Answer| text_in(answer),
                    tape,
                ).and_then(
                    |check: HeardModel<Text>, tape: Tape|
                        match check {
                            HeardModel::Trouble(_) => Run::Gives(false, tape),
                            HeardModel::Got(check) => probe_files_script(
                                repo,
                                commit,
                                template,
                                check,
                                tape,
                            ).closing(Ask::DropTemp(check)),
                        },
                ).closing(Ask::DropTemp(template)),
            },
    )
}

fn check_files(session: &mut Session, repo: &str, commit: &str, storage: &str, template: &str) -> (
    outcome: Result<bool, Stop>)
    ensures
        ran(outcome, final(session)@) == heard(
            Ask::TempDir(storage@, ".tmp"@),
            |answer: Answer| text_in(answer),
            old(session)@,
        ).and_then(
            |check: HeardModel<Text>, tape: Tape|
                match check {
                    HeardModel::Trouble(_) => Run::Gives(false, tape),
                    HeardModel::Got(check) => probe_files_script(
                        repo@,
                        commit@,
                        template@,
                        check,
                        tape,
                    ).closing(Ask::DropTemp(check)),
                },
        ),
{
    match session.text(Request::TempDir(storage.to_owned(), ".tmp".to_owned()))? {
        Heard::Trouble(_) => Ok(false),
        Heard::Got(check) => {
            let outcome = probe_files(session, repo, commit, template, &check);
            session.close(Request::DropTemp(check), outcome)
        },
    }
}

/// Whether the files in the worktree are those of a commit.
#[verifier::opaque]
pub open spec fn files_are_script(repo: Text, commit: Text, tape: Tape) -> Run<bool> {
    optional(git_dir_script(repo, tape)).and_then(|storage: Option<Text>, tape: Tape|
        match storage {
            None => Run::Gives(false, tape),
            Some(storage) => files_are_in_script(repo, commit, storage, tape),
        })
}

/// Whether the files in the worktree are those of a commit, whatever the real
/// index says of them.
pub fn worktree_matches_without_index_flags(session: &mut Session, repo: &str, commit: &str) -> (
    outcome: Result<bool, Stop>)
    ensures
        ran(outcome, final(session)@) == files_are_script(repo@, commit@, old(session)@),
{
    proof {
        reveal(files_are_script);
        reveal(files_are_in_script);
    }
    let storage = match when_ok(git_dir(session, repo))? {
        None => return Ok(false),
        Some(storage) => storage,
    };
    match session.text(Request::TempDir(storage.clone(), ".tmp".to_owned()))? {
        Heard::Trouble(_) => Ok(false),
        Heard::Got(template) => {
            let outcome = check_files(session, repo, commit, &storage, &template);
            session.close(Request::DropTemp(template), outcome)
        },
    }
}

/// Whether index and worktree are those of a commit.
#[verifier::opaque]
pub open spec fn worktree_at_script(repo: Text, commit: Text, tape: Tape) -> Run<bool> {
    index_is_script(repo, commit, tape).and_then(|same: bool, tape: Tape|
        if same {
            files_are_script(repo, commit, tape)
        } else {
            Run::Gives(false, tape)
        })
}

/// Whether index and worktree are those of a commit.
pub fn worktree_at(session: &mut Session, repo: &str, commit: &str) -> (outcome: Result<bool, Stop>)
    ensures
        ran(outcome, final(session)@) == worktree_at_script(repo@, commit@, old(session)@),
{
    proof {
        reveal(worktree_at_script);
    }
    if !index_is(session, repo, commit)? {
        return Ok(false);
    }
    worktree_matches_without_index_flags(session, repo, commit)
}

// ---------------------------------------------------------------------------
// Deleted paths
// ---------------------------------------------------------------------------
/// The byte between the names of a path.
pub const SLASH: u8 = 0x2f;

/// Whether a path lies below another.
pub open spec fn lies_below(path: Seq<u8>, above: Seq<u8>) -> bool {
    above.len() > 0 && above.push(SLASH).is_prefix_of(path)
}

fn below(path: &Vec<u8>, above: &Vec<u8>) -> (yes: bool)
    ensures
        yes == lies_below(path@, above@),
{
    if above.len() == 0 {
        return false;
    }
    let mut prefix = copy_bytes(above);
    prefix.push(SLASH);
    bytes_start_with(path, &prefix)
}

/// Whether a path lies below one of the leaves.
pub open spec fn is_covered(path: Seq<u8>, leaves: Seq<Seq<u8>>) -> bool {
    exists|i: int| 0 <= i < leaves.len() && lies_below(path, #[trigger] leaves[i])
}

/// Whether one of the leaves lies below a path.
pub open spec fn is_parent(path: Seq<u8>, leaves: Seq<Seq<u8>>) -> bool {
    exists|i: int| 0 <= i < leaves.len() && lies_below(#[trigger] leaves[i], path)
}

fn covered(path: &Vec<u8>, leaves: &Vec<Vec<u8>>) -> (yes: bool)
    ensures
        yes == is_covered(path@, leaves.deep_view()),
{
    let ghost all = leaves.deep_view();
    let mut i: usize = 0;
    while i < leaves.len()
        invariant
            i <= leaves@.len(),
            all == leaves.deep_view(),
            forall|j: int| 0 <= j < i ==> !lies_below(path@, #[trigger] all[j]),
        decreases leaves@.len() - i,
    {
        assert(all[i as int] =~= leaves[i as int]@);
        if below(path, &leaves[i]) {
            assert(lies_below(path@, all[i as int]));
            return true;
        }
        i = i + 1;
    }
    false
}

fn parents(path: &Vec<u8>, leaves: &Vec<Vec<u8>>) -> (yes: bool)
    ensures
        yes == is_parent(path@, leaves.deep_view()),
{
    let ghost all = leaves.deep_view();
    let mut i: usize = 0;
    while i < leaves.len()
        invariant
            i <= leaves@.len(),
            all == leaves.deep_view(),
            forall|j: int| 0 <= j < i ==> !lies_below(#[trigger] all[j], path@),
        decreases leaves@.len() - i,
    {
        assert(all[i as int] =~= leaves[i as int]@);
        if below(&leaves[i], path) {
            assert(lies_below(all[i as int], path@));
            return true;
        }
        i = i + 1;
    }
    false
}

/// Whether what stands at a deleted path fits the tree with these leaves: there
/// is nothing, or a directory that the tree puts something into.
pub open spec fn fits_deletion(
    found: HeardModel<Kind>,
    path: Seq<u8>,
    leaves: Seq<Seq<u8>>,
) -> bool {
    match found {
        HeardModel::Got(kind) => kind == Kind::Directory && is_parent(path, leaves),
        HeardModel::Trouble(trouble) => trouble.reason == Reason::Missing || trouble.reason
            == Reason::NotADirectory,
    }
}

/// Whether every deleted path is gone from the worktree. One below a leaf is
/// settled by the comparison of that leaf.
pub open spec fn deleted_from(
    deleted: Seq<Seq<u8>>,
    leaves: Seq<Seq<u8>>,
    repo: Text,
    tape: Tape,
) -> Run<bool>
    decreases deleted.len(),
{
    if deleted.len() == 0 {
        Run::Gives(true, tape)
    } else if deleted[0].len() == 0 || is_covered(deleted[0], leaves) {
        deleted_from(deleted.drop_first(), leaves, repo, tape)
    } else {
        match kind_script(inside(repo, text_of_bytes(deleted[0])), tape) {
            Run::Gives(found, tape) => if fits_deletion(found, deleted[0], leaves) {
                deleted_from(deleted.drop_first(), leaves, repo, tape)
            } else {
                Run::Gives(false, tape)
            },
            Run::Fails(fault, tape) => Run::Fails(fault, tape),
            Run::Asks(ask, tape) => Run::Asks(ask, tape),
        }
    }
}

/// The arguments that list what a worktree deletes of an index.
pub open spec fn deletion_args(index: Text, worktree: Text) -> Seq<Text> {
    seq![
        "diff-tree"@,
        "-r"@,
        "--no-commit-id"@,
        "--name-only"@,
        "--no-renames"@,
        "--diff-filter=D"@,
        "-z"@,
        index,
    ] + seq![worktree, "--"@]
}

/// Whether the paths that a worktree deletes of its index are gone. The
/// comparison of files cannot see paths that are absent from its tree.
#[verifier::opaque]
pub open spec fn deletions_match_script(repo: Text, index: Text, worktree: Text, tape: Tape) -> Run<
    bool,
> {
    optional(git::run_bytes_script(repo, deletion_args(index, worktree), tape)).and_then(
        |deleted: Option<Seq<u8>>, tape: Tape|
            match deleted {
                None => Run::Gives(false, tape),
                Some(deleted) => if deleted.len() == 0 {
                    Run::Gives(true, tape)
                } else {
                    optional(
                        git::run_bytes_script(
                            repo,
                            seq!["ls-tree"@, "-r"@, "--name-only"@, "-z"@, worktree],
                            tape,
                        ),
                    ).and_then(|listing: Option<Seq<u8>>, tape: Tape|
                        match listing {
                            None => Run::Gives(false, tape),
                            Some(listing) => deleted_from(
                                pieces(deleted, 0u8),
                                pieces(listing, 0u8),
                                repo,
                                tape,
                            ),
                        })
                },
            },
    )
}

fn all_deleted(session: &mut Session, repo: &str, deleted: &Vec<Vec<u8>>, leaves: &Vec<Vec<u8>>) -> (
    outcome: Result<bool, Stop>)
    ensures
        ran(outcome, final(session)@) == deleted_from(
            deleted.deep_view(),
            leaves.deep_view(),
            repo@,
            old(session)@,
        ),
{
    let ghost all = deleted.deep_view();
    let mut i: usize = 0;
    assert(all.skip(0) =~= all);
    while i < deleted.len()
        invariant
            i <= deleted@.len(),
            all == deleted.deep_view(),
            deleted_from(all, leaves.deep_view(), repo@, old(session)@) == deleted_from(
                all.skip(i as int),
                leaves.deep_view(),
                repo@,
                session@,
            ),
        decreases deleted@.len() - i,
    {
        assert(all.skip(i as int).drop_first() =~= all.skip(i + 1));
        let path = &deleted[i];
        assert(all.skip(i as int)[0] =~= path@);
        if path.len() != 0 && !covered(path, leaves) {
            let fits = match kind(session, &join_path(repo, &from_bytes(path)))? {
                Heard::Got(kind) => kind == Kind::Directory && parents(path, leaves),
                Heard::Trouble(trouble) => trouble.reason == Reason::Missing || trouble.reason
                    == Reason::NotADirectory,
            };
            if !fits {
                return Ok(false);
            }
        }
        i = i + 1;
    }
    Ok(true)
}

fn deleted_paths_match(session: &mut Session, repo: &str, index: &str, worktree: &str) -> (outcome:
    Result<bool, Stop>)
    ensures
        ran(outcome, final(session)@) == deletions_match_script(
            repo@,
            index@,
            worktree@,
            old(session)@,
        ),
{
    proof {
        reveal(deletions_match_script);
    }
    let args = chain(
        args8(
            "diff-tree",
            "-r",
            "--no-commit-id",
            "--name-only",
            "--no-renames",
            "--diff-filter=D",
            "-z",
            index,
        ),
        &args2(worktree, "--"),
    );
    let deleted = match when_ok(git::run_bytes(session, repo, args))? {
        None => return Ok(false),
        Some(deleted) => deleted,
    };
    assert(deleted.deep_view() =~= deleted@);
    if deleted.len() == 0 {
        return Ok(true);
    }
    let listing = match when_ok(
        git::run_bytes(session, repo, args5("ls-tree", "-r", "--name-only", "-z", worktree)),
    )? {
        None => return Ok(false),
        Some(listing) => listing,
    };
    assert(listing.deep_view() =~= listing@);
    all_deleted(session, repo, &split_bytes(&deleted, 0), &split_bytes(&listing, 0))
}

/// Whether the index is that of one commit and the worktree that of another.
#[verifier::opaque]
pub open spec fn result_matches_script(
    repo: Text,
    expected: Text,
    expected_head: Option<Text>,
    tape: Tape,
) -> Run<bool> {
    match expected_head {
        None => Run::Gives(false, tape),
        Some(head) => index_is_script(repo, head, tape).and_then(|same: bool, tape: Tape|
        if !same {
            Run::Gives(false, tape)
        } else {
            deletions_match_script(repo, head, expected, tape).and_then(
                |gone: bool, tape: Tape|
                    if !gone {
                        Run::Gives(false, tape)
                    } else {
                        files_are_script(repo, expected, tape)
                    },
            )
        }),
    }
}

/// Whether the index is that of `expected_head` and the worktree that of
/// `expected`.
pub fn worktree_result_matches(
    session: &mut Session,
    repo: &str,
    expected: &str,
    expected_head: &Option<String>,
) -> (outcome: Result<bool, Stop>)
    ensures
        ran(outcome, final(session)@) == result_matches_script(
            repo@,
            expected@,
            expected_head.deep_view(),
            old(session)@,
        ),
{
    proof {
        reveal(result_matches_script);
    }
    let head = match expected_head {
        None => return Ok(false),
        Some(head) => head,
    };
    if !index_is(session, repo, head)? {
        return Ok(false);
    }
    if !deleted_paths_match(session, repo, head, expected)? {
        return Ok(false);
    }
    worktree_matches_without_index_flags(session, repo, expected)
}

} // verus!
