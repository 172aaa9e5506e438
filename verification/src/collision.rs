//! Checks a prospective checkout using git's own worktree safety rules.
//!
//! Git's answer depends on its index, ignore rules, sparse-checkout settings
//! and the filesystem's path semantics. So a disposable repository is made, the
//! current worktree is copied into it, and git is asked to perform the same
//! operation there. The repository is the adapter; collision policy remains
//! git's policy.

use vstd::prelude::*;

use crate::compose::{
    args2, args3, args4, args5, cat2, cat3,
};
use crate::error::{Error, Fault};
use crate::files::{do_script, leads_to, leads_to_script, list, list_script, perform};
use crate::git;
use crate::parts::{
    after_prefix, nonempty, pieces, split_bytes, starts_with, strip_prefix,
};
use crate::paths::{
    absolute, from_bytes, from_text, inside, is_absolute, join_path, parent, parent_of, path_named,
    text_of_bytes,
};
use crate::session::{
    caught, heard, ran, text_in, Answer, Ask, Heard, HeardModel, Kind, Request, Run, Session, Stop,
    Tape,
};
use crate::text::{holds, put, same, Text};

pub mod walk;

use walk::{
    clear_worktree, clear_worktree_script, copy_worktree, copy_worktree_script, empty_directories,
    empty_directories_script, remove_ignore_files, remove_ignore_files_script, worktree_file,
    worktree_file_script, worktree_files, worktree_files_script, FileState, FileStateModel,
};

verus! {

/// Which way the worktree is brought to its target.
#[derive(Debug, Clone, Copy, PartialEq, Eq, Structural)]
pub enum Operation {
    /// `git reset --hard <target>`, as apply does it.
    Reset,
    /// `git read-tree -u --reset <target>^{tree}`, as the restore of a carried
    /// result does it.
    Restore,
}

// ---------------------------------------------------------------------------
// Paths that git names
// ---------------------------------------------------------------------------
/// A path that git named, which is relative to the repository unless it is
/// absolute.
pub open spec fn placed_in(repo: Text, named: Run<Text>) -> Run<Text> {
    named.and_then(
        |path: Text, tape: Tape|
            Run::Gives(
                if is_absolute(path) {
                    path
                } else {
                    inside(repo, path)
                },
                tape,
            ),
    )
}

pub open spec fn git_path_args(name: Text) -> Seq<Text> {
    seq!["rev-parse"@, "--git-path"@, name]
}

/// Where git keeps `name`.
#[verifier::opaque]
pub open spec fn git_path_script(repo: Text, name: Text, tape: Tape) -> Run<Text> {
    placed_in(repo, git::path_script(repo, git_path_args(name), tape))
}

/// Where git keeps `name` in this environment.
#[verifier::opaque]
pub open spec fn git_path_with_env_script(
    repo: Text,
    name: Text,
    env: Seq<(Text, Text)>,
    tape: Tape,
) -> Run<Text> {
    placed_in(
        repo,
        git::run_with_clean_env_script(repo, git_path_args(name), env, tape).and_then(
            |output: Text, tape: Tape| Run::Gives(path_named(output), tape),
        ),
    )
}

fn place_in(repo: &str, path: String) -> (placed: String)
    ensures
        placed@ == if is_absolute(path@) {
            path@
        } else {
            inside(repo@, path@)
        },
{
    if absolute(&path) {
        path
    } else {
        join_path(repo, &path)
    }
}

fn git_path(session: &mut Session, repo: &str, name: &str) -> (outcome: Result<String, Stop>)
    ensures
        ran(outcome, final(session)@) == git_path_script(repo@, name@, old(session)@),
{
    proof {
        reveal(git_path_script);
    }
    let path = git::run_path(session, repo, args3("rev-parse", "--git-path", name))?;
    Ok(place_in(repo, path))
}

/// The environment of the disposable repository.
pub struct Env {
    pairs: Vec<(String, String)>,
}

impl Env {
    /// The variables and their values.
    pub closed spec fn spec_pairs(&self) -> Seq<(Text, Text)> {
        self.pairs.deep_view()
    }

    /// A list of the variables and their values.
    fn list(&self) -> (env: Vec<(String, String)>)
        ensures
            env.deep_view() == self.spec_pairs(),
    {
        let ghost all = self.pairs.deep_view();
        let mut env: Vec<(String, String)> = Vec::new();
        let mut i: usize = 0;
        while i < self.pairs.len()
            invariant
                i <= self.pairs@.len(),
                all == self.pairs.deep_view(),
                env.deep_view() == all.take(i as int),
            decreases self.pairs@.len() - i,
        {
            put(&mut env, (self.pairs[i].0.clone(), self.pairs[i].1.clone()));
            i = i + 1;
            assert(all.take(i as int) =~= all.take(i - 1).push(all[i - 1]));
        }
        assert(all.take(all.len() as int) =~= all);
        env
    }
}

fn git_path_with_env(session: &mut Session, repo: &str, name: &str, env: &Env) -> (outcome: Result<
    String,
    Stop,
>)
    ensures
        ran(outcome, final(session)@) == git_path_with_env_script(
            repo@,
            name@,
            env.spec_pairs(),
            old(session)@,
        ),
{
    proof {
        reveal(git_path_with_env_script);
    }
    let path = git::run_with_clean_env(
        session,
        repo,
        args3("rev-parse", "--git-path", name),
        env.list(),
    )?;
    Ok(place_in(repo, from_text(&path)))
}

// ---------------------------------------------------------------------------
// The index and the sparse-checkout settings
// ---------------------------------------------------------------------------
/// Copies each of `names` that is a shared index.
pub open spec fn shared_from(from: Text, to: Text, names: Seq<Text>, tape: Tape) -> Run<()>
    decreases names.len(),
{
    if names.len() == 0 {
        Run::Gives((), tape)
    } else if !"sharedindex."@.is_prefix_of(names[0]) {
        shared_from(from, to, names.drop_first(), tape)
    } else {
        do_script(
            Ask::Copy(inside(from, names[0]), inside(to, names[0])),
            inside(to, names[0]),
            tape,
        ).and_then(
            |copied: (), tape: Tape| shared_from(from, to, names.drop_first(), tape),
        )
    }
}

/// Copies an index with the shared indexes beside it.
#[verifier::opaque]
pub open spec fn copy_index_script(source: Text, destination: Text, tape: Tape) -> Run<()> {
    do_script(Ask::Copy(source, destination), destination, tape).and_then(
        |copied: (), tape: Tape|
            match (parent_of(source), parent_of(destination)) {
                (Some(from), Some(to)) => list_script(from, from, tape).and_then(
                    |names: Seq<Text>, tape: Tape| shared_from(from, to, names, tape),
                ),
                _ => Run::Gives((), tape),
            },
    )
}

fn copy_index(session: &mut Session, source: &str, destination: &str) -> (outcome: Result<(), Stop>)
    ensures
        ran(outcome, final(session)@) == copy_index_script(
            source@,
            destination@,
            old(session)@,
        ),
{
    proof {
        reveal(copy_index_script);
    }
    perform(session, Request::Copy(source.to_owned(), destination.to_owned()), destination)?;
    let from = match parent(source) {
        Some(from) => from,
        None => return Ok(()),
    };
    let to = match parent(destination) {
        Some(to) => to,
        None => return Ok(()),
    };
    let names = list(session, &from, &from)?;
    let ghost all = names.deep_view();
    let mut i: usize = 0;
    assert(all.skip(0) =~= all);
    while i < names.len()
        invariant
            i <= names@.len(),
            all == names.deep_view(),
            copy_index_script(source@, destination@, old(session)@) == shared_from(
                from@,
                to@,
                all.skip(i as int),
                session@,
            ),
        decreases names@.len() - i,
    {
        assert(all.skip(i as int).drop_first() =~= all.skip(i + 1));
        assert(all.skip(i as int)[0] == names[i as int]@);
        if starts_with(&names[i], "sharedindex.") {
            let target = join_path(&to, &names[i]);
            let copy = Request::Copy(join_path(&from, &names[i]), target.clone());
            perform(session, copy, &target)?;
        }
        i = i + 1;
    }
    Ok(())
}

pub open spec fn local_bool_args(key: Text) -> Seq<Text> {
    seq!["config"@, "--local"@, "--bool"@, "--get"@, key]
}

/// Copies one setting, where the repository has it.
#[verifier::opaque]
pub open spec fn copy_setting_script(
    repo: Text,
    probe: Text,
    key: Text,
    env: Seq<(Text, Text)>,
    tape: Tape,
) -> Run<()> {
    git::run_script(repo, local_bool_args(key), tape).either(
        |value: Text, tape: Tape|
            git::run_with_clean_env_script(probe, seq!["config"@, key, value], env, tape).and_then(
                |set: Text, tape: Tape| Run::Gives((), tape),
            ),
        |fault: Fault, tape: Tape| Run::Gives((), tape),
    )
}

fn copy_setting(session: &mut Session, repo: &str, probe: &str, key: &str, env: &Env) -> (outcome:
    Result<(), Stop>)
    ensures
        ran(outcome, final(session)@) == copy_setting_script(
            repo@,
            probe@,
            key@,
            env.spec_pairs(),
            old(session)@,
        ),
{
    proof {
        reveal(copy_setting_script);
    }
    if let Ok(value) = caught(
        git::run(session, repo, args5("config", "--local", "--bool", "--get", key)),
    )? {
        git::run_with_clean_env(session, probe, args3("config", key, &value), env.list())?;
    }
    Ok(())
}

/// Makes room for a file: the directory it stands in.
#[verifier::opaque]
pub open spec fn make_parent_script(path: Text, tape: Tape) -> Run<()> {
    match parent_of(path) {
        Some(parent) => do_script(Ask::CreateDirs(parent), parent, tape),
        None => Run::Gives((), tape),
    }
}

fn make_parent(session: &mut Session, path: &str) -> (outcome: Result<(), Stop>)
    ensures
        ran(outcome, final(session)@) == make_parent_script(path@, old(session)@),
{
    proof {
        reveal(make_parent_script);
    }
    match parent(path) {
        Some(parent) => perform(session, Request::CreateDirs(parent.clone()), &parent),
        None => Ok(()),
    }
}

/// Copies the sparse-checkout patterns and settings, where the repository has a
/// sparse checkout.
#[verifier::opaque]
pub open spec fn copy_sparse_config_script(
    repo: Text,
    probe: Text,
    env: Seq<(Text, Text)>,
    tape: Tape,
) -> Run<()> {
    git::run_script(repo, local_bool_args("core.sparseCheckout"@), tape).either(
        |value: Text, tape: Tape| Run::Gives(value == "true"@, tape),
        |fault: Fault, tape: Tape| Run::Gives(false, tape),
    ).and_then(|sparse: bool, tape: Tape|
    if !sparse {
        Run::Gives((), tape)
    } else {
    git::run_with_clean_env_script(
        probe,
        seq!["config"@, "core.sparseCheckout"@, "true"@],
        env,
        tape,
    ).and_then(|set: Text, tape: Tape|
    git_path_script(repo, "info/sparse-checkout"@, tape).and_then(|source: Text, tape: Tape|
    git_path_with_env_script(probe, "info/sparse-checkout"@, env, tape).and_then(
        |destination: Text, tape: Tape|
    make_parent_script(destination, tape).and_then(|ready: (), tape: Tape|
    do_script(Ask::Copy(source, destination), destination, tape).and_then(
        |copied: (), tape: Tape|
    copy_setting_script(repo, probe, "core.sparseCheckoutCone"@, env, tape).and_then(
        |copied: (), tape: Tape|
        copy_setting_script(repo, probe, "index.sparse"@, env, tape)))))))
    })
}

fn copy_sparse_config(session: &mut Session, repo: &str, probe: &str, env: &Env) -> (outcome:
    Result<(), Stop>)
    ensures
        ran(outcome, final(session)@) == copy_sparse_config_script(
            repo@,
            probe@,
            env.spec_pairs(),
            old(session)@,
        ),
{
    proof {
        reveal(copy_sparse_config_script);
    }
    let sparse = match caught(
        git::run(
            session,
            repo,
            args5("config", "--local", "--bool", "--get", "core.sparseCheckout"),
        ),
    )? {
        Ok(value) => same(&value, "true"),
        Err(_) => false,
    };
    if !sparse {
        return Ok(());
    }
    git::run_with_clean_env(
        session,
        probe,
        args3("config", "core.sparseCheckout", "true"),
        env.list(),
    )?;
    let source = git_path(session, repo, "info/sparse-checkout")?;
    let destination = git_path_with_env(session, probe, "info/sparse-checkout", env)?;
    make_parent(session, &destination)?;
    perform(session, Request::Copy(source, destination.clone()), &destination)?;
    copy_setting(session, repo, probe, "core.sparseCheckoutCone", env)?;
    copy_setting(session, repo, probe, "index.sparse", env)
}

// ---------------------------------------------------------------------------
// What the operation did to the copy
// ---------------------------------------------------------------------------
/// The paths in a listing with a NUL behind each.
pub open spec fn paths_in(listing: Seq<u8>) -> Seq<Text> {
    nonempty(pieces(listing, 0u8)).map_values(|name: Seq<u8>| text_of_bytes(name))
}

/// The paths in a listing with a NUL behind each.
pub fn split_paths(listing: &Vec<u8>) -> (paths: Vec<String>)
    ensures
        paths.deep_view() == paths_in(listing@),
{
    let found = split_bytes(listing, 0);
    let ghost all = found.deep_view();
    let ghost filled = |piece: Seq<u8>| piece.len() > 0;
    let ghost text = |name: Seq<u8>| text_of_bytes(name);
    let mut paths: Vec<String> = Vec::new();
    let mut i: usize = 0;
    assert(all.take(0) =~= Seq::empty());
    assert(all.take(0).filter(filled) =~= Seq::empty()) by {
        reveal(Seq::filter);
    }
    assert(paths.deep_view() =~= all.take(0).filter(filled).map_values(text));
    while i < found.len()
        invariant
            i <= found@.len(),
            all == found.deep_view(),
            filled == (|piece: Seq<u8>| piece.len() > 0),
            text == (|name: Seq<u8>| text_of_bytes(name)),
            paths.deep_view() == all.take(i as int).filter(filled).map_values(text),
        decreases found@.len() - i,
    {
        let ghost now = all.take(i + 1);
        assert(now.drop_last() =~= all.take(i as int));
        assert(now.last() =~= found[i as int]@);
        assert(now.filter(filled) == if filled(now.last()) {
            now.drop_last().filter(filled).push(now.last())
        } else {
            now.drop_last().filter(filled)
        }) by {
            reveal(Seq::filter);
        }
        if found[i].len() > 0 {
            put(&mut paths, from_bytes(&found[i]));
            assert(paths.deep_view() =~= now.filter(filled).map_values(text));
        }
        i = i + 1;
    }
    assert(all.take(all.len() as int) =~= all);
    paths
}

/// The paths that the index of the copy holds.
#[verifier::opaque]
pub open spec fn tracked_paths_script(
    probe: Text,
    env: Seq<(Text, Text)>,
    tape: Tape,
) -> Run<Seq<Text>> {
    git::run_bytes_with_clean_env_script(
        probe,
        seq!["ls-files"@, "-z"@, "--cached"@],
        env,
        tape,
    ).and_then(|listing: Seq<u8>, tape: Tape| Run::Gives(paths_in(listing), tape))
}

fn tracked_paths(session: &mut Session, probe: &str, env: &Env) -> (outcome: Result<
    Vec<String>,
    Stop,
>)
    ensures
        ran(outcome, final(session)@) == tracked_paths_script(
            probe@,
            env.spec_pairs(),
            old(session)@,
        ),
{
    proof {
        reveal(tracked_paths_script);
    }
    let listing = git::run_bytes_with_clean_env(
        session,
        probe,
        args3("ls-files", "-z", "--cached"),
        env.list(),
    )?;
    assert(listing.deep_view() =~= listing@);
    Ok(split_paths(&listing))
}

/// Whether any of `paths` no longer leads to a directory.
pub open spec fn directory_gone_script(paths: Seq<Text>, tape: Tape) -> Run<bool>
    decreases paths.len(),
{
    if paths.len() == 0 {
        Run::Gives(false, tape)
    } else {
        leads_to_script(paths[0], Kind::Directory, tape).and_then(|there: bool, tape: Tape|
            if there {
                directory_gone_script(paths.drop_first(), tape)
            } else {
                Run::Gives(true, tape)
            })
    }
}

fn directory_gone(session: &mut Session, paths: &Vec<String>) -> (outcome: Result<bool, Stop>)
    ensures
        ran(outcome, final(session)@) == directory_gone_script(paths.deep_view(), old(session)@),
{
    let ghost all = paths.deep_view();
    let mut i: usize = 0;
    assert(all.skip(0) =~= all);
    while i < paths.len()
        invariant
            i <= paths@.len(),
            all == paths.deep_view(),
            directory_gone_script(all, old(session)@) == directory_gone_script(
                all.skip(i as int),
                session@,
            ),
        decreases paths@.len() - i,
    {
        assert(all.skip(i as int).drop_first() =~= all.skip(i + 1));
        assert(all.skip(i as int)[0] == paths[i as int]@);
        if !leads_to(session, &paths[i], Kind::Directory)? {
            return Ok(true);
        }
        i = i + 1;
    }
    Ok(false)
}

/// A path relative to the directory it is in.
pub open spec fn relative_to(path: Text, root: Text) -> Text {
    match after_prefix(path, inside(root, Seq::empty())) {
        Some(relative) => relative,
        None => path,
    }
}

fn relative(path: &str, root: &str) -> (text: String)
    ensures
        text@ == relative_to(path@, root@),
{
    proof {
        reveal_strlit("");
        assert(""@ =~= Seq::<char>::empty());
    }
    match strip_prefix(path, &join_path(root, "")) {
        Some(relative) => relative,
        None => path.to_owned(),
    }
}

/// Whether any of `files` that the index does not hold is no longer what it was.
pub open spec fn file_changed_script(
    files: Seq<(Text, FileStateModel)>,
    known: Seq<Text>,
    probe: Text,
    tape: Tape,
) -> Run<bool>
    decreases files.len(),
{
    if files.len() == 0 {
        Run::Gives(false, tape)
    } else if known.contains(relative_to(files[0].0, probe)) {
        file_changed_script(files.drop_first(), known, probe, tape)
    } else {
        worktree_file_script(files[0].0, tape).and_then(
            |after: Option<FileStateModel>, tape: Tape|
                if after == Some(files[0].1) {
                    file_changed_script(files.drop_first(), known, probe, tape)
                } else {
                    Run::Gives(true, tape)
                },
        )
    }
}

/// Whether two byte lists are the same.
pub fn same_bytes(left: &Vec<u8>, right: &Vec<u8>) -> (equal: bool)
    ensures
        equal == (left@ == right@),
{
    if left.len() != right.len() {
        return false;
    }
    let mut i: usize = 0;
    while i < left.len()
        invariant
            i <= left@.len(),
            left@.len() == right@.len(),
            forall|j: int| 0 <= j < i ==> left@[j] == right@[j],
        decreases left@.len() - i,
    {
        if left[i] != right[i] {
            return false;
        }
        i = i + 1;
    }
    assert(left@ =~= right@);
    true
}

fn same_state(left: &FileState, right: &FileState) -> (equal: bool)
    ensures
        equal == (left.deep_view() == right.deep_view()),
{
    match (left, right) {
        (FileState::File(left), FileState::File(right)) => same_bytes(left, right),
        (FileState::Symlink(left), FileState::Symlink(right)) => same(left, right),
        _ => false,
    }
}

fn file_changed(
    session: &mut Session,
    files: &Vec<(String, FileState)>,
    known: &Vec<String>,
    probe: &str,
) -> (outcome: Result<bool, Stop>)
    ensures
        ran(outcome, final(session)@) == file_changed_script(
            files.deep_view(),
            known.deep_view(),
            probe@,
            old(session)@,
        ),
{
    let ghost all = files.deep_view();
    let mut i: usize = 0;
    assert(all.skip(0) =~= all);
    while i < files.len()
        invariant
            i <= files@.len(),
            all == files.deep_view(),
            file_changed_script(all, known.deep_view(), probe@, old(session)@)
                == file_changed_script(
                all.skip(i as int),
                known.deep_view(),
                probe@,
                session@,
            ),
        decreases files@.len() - i,
    {
        assert(all.skip(i as int).drop_first() =~= all.skip(i + 1));
        assert(all.skip(i as int)[0] == (files[i as int].0@, files[i as int].1.deep_view()));
        if !holds(known, &relative(&files[i].0, probe)) {
            match worktree_file(session, &files[i].0)? {
                Some(after) => if !same_state(&after, &files[i].1) {
                    return Ok(true);
                },
                None => return Ok(true),
            }
        }
        i = i + 1;
    }
    Ok(false)
}

// ---------------------------------------------------------------------------
// The check
// ---------------------------------------------------------------------------
/// The variables that the disposable repository runs with: it sees the objects
/// of both repositories, and no configuration but its own.
pub open spec fn probe_env(probe: Text, alternates: Text) -> Seq<(Text, Text)> {
    seq![
        ("GIT_ALTERNATE_OBJECT_DIRECTORIES"@, alternates),
        ("GIT_CONFIG_COUNT"@, "0"@),
        ("GIT_TEMPLATE_DIR"@, inside(probe, "template"@)),
        ("GIT_CONFIG_GLOBAL"@, inside(probe, "no-global-config"@)),
        ("GIT_CONFIG_SYSTEM"@, inside(probe, "no-system-config"@)),
    ]
}

fn probe_environment(probe: &str, alternates: String) -> (env: Env)
    ensures
        env.spec_pairs() == probe_env(probe@, alternates@),
{
    let mut pairs: Vec<(String, String)> = Vec::new();
    put(&mut pairs, ("GIT_ALTERNATE_OBJECT_DIRECTORIES".to_owned(), alternates));
    put(&mut pairs, ("GIT_CONFIG_COUNT".to_owned(), "0".to_owned()));
    put(&mut pairs, ("GIT_TEMPLATE_DIR".to_owned(), join_path(probe, "template")));
    put(&mut pairs, ("GIT_CONFIG_GLOBAL".to_owned(), join_path(probe, "no-global-config")));
    put(&mut pairs, ("GIT_CONFIG_SYSTEM".to_owned(), join_path(probe, "no-system-config")));
    assert(pairs.deep_view() =~= probe_env(probe@, alternates@));
    Env { pairs }
}

/// What the check needs to know of the two repositories.
pub struct Subject {
    pub head: String,
    pub target: String,
    pub objects: String,
    pub rehearsed_objects: String,
    pub index: String,
    pub format: String,
}

/// The model of a [`Subject`].
pub struct SubjectModel {
    pub head: Text,
    pub target: Text,
    pub objects: Text,
    pub rehearsed_objects: Text,
    pub index: Text,
    pub format: Text,
}

impl DeepView for Subject {
    type V = SubjectModel;

    open spec fn deep_view(&self) -> SubjectModel {
        SubjectModel {
            head: self.head@,
            target: self.target@,
            objects: self.objects@,
            rehearsed_objects: self.rehearsed_objects@,
            index: self.index@,
            format: self.format@,
        }
    }
}

/// Reads what the check needs to know of the two repositories.
#[verifier::opaque]
pub open spec fn subject_script(repo: Text, rehearsed: Text, target: Text, tape: Tape) -> Run<
    SubjectModel,
> {
    git::run_script(repo, seq!["rev-parse"@, "--verify"@, "HEAD"@], tape).and_then(
        |head: Text, tape: Tape|
    git::run_script(rehearsed, seq!["rev-parse"@, "--verify"@, target], tape).and_then(
        |target: Text, tape: Tape|
    git_path_script(repo, "objects"@, tape).and_then(|objects: Text, tape: Tape|
    git_path_script(rehearsed, "objects"@, tape).and_then(|rehearsed_objects: Text, tape: Tape|
    git_path_script(repo, "index"@, tape).and_then(|index: Text, tape: Tape|
    git::run_script(repo, seq!["rev-parse"@, "--show-object-format"@], tape).and_then(
        |format: Text, tape: Tape|
            Run::Gives(
                SubjectModel { head, target, objects, rehearsed_objects, index, format },
                tape,
            )))))))
}

fn subject(session: &mut Session, repo: &str, rehearsed: &str, target: &str) -> (outcome: Result<
    Subject,
    Stop,
>)
    ensures
        ran(outcome, final(session)@) == subject_script(
            repo@,
            rehearsed@,
            target@,
            old(session)@,
        ),
{
    proof {
        reveal(subject_script);
    }
    let head = git::run(session, repo, args3("rev-parse", "--verify", "HEAD"))?;
    let target = git::run(session, rehearsed, args3("rev-parse", "--verify", target))?;
    let objects = git_path(session, repo, "objects")?;
    let rehearsed_objects = git_path(session, rehearsed, "objects")?;
    let index = git_path(session, repo, "index")?;
    let format = git::run(session, repo, args2("rev-parse", "--show-object-format"))?;
    Ok(Subject { head, target, objects, rehearsed_objects, index, format })
}

/// Builds the copy: a repository at the same commit, with the same index,
/// sparse-checkout settings and worktree.
#[verifier::opaque]
pub open spec fn build_probe_script(
    repo: Text,
    probe: Text,
    subject: SubjectModel,
    env: Seq<(Text, Text)>,
    tape: Tape,
) -> Run<()> {
    git::run_with_clean_env_script(
        probe,
        seq![
            "init"@,
            "--quiet"@,
            "--template="@ + inside(probe, "template"@),
            "--object-format="@ + subject.format,
        ],
        env,
        tape,
    ).and_then(|made: Text, tape: Tape|
    git::run_with_clean_env_script(
        probe,
        seq!["checkout"@, "--quiet"@, "--detach"@, subject.head],
        env,
        tape,
    ).and_then(|made: Text, tape: Tape|
    git_path_with_env_script(probe, "index"@, env, tape).and_then(|index: Text, tape: Tape|
    copy_index_script(subject.index, index, tape).and_then(|made: (), tape: Tape|
    copy_sparse_config_script(repo, probe, env, tape).and_then(|made: (), tape: Tape|
    clear_worktree_script(probe, tape).and_then(|made: (), tape: Tape|
        copy_worktree_script(repo, probe, tape)))))))
}

fn build_probe(session: &mut Session, repo: &str, probe: &str, subject: &Subject, env: &Env) -> (
    outcome: Result<(), Stop>)
    ensures
        ran(outcome, final(session)@) == build_probe_script(
            repo@,
            probe@,
            subject.deep_view(),
            env.spec_pairs(),
            old(session)@,
        ),
{
    proof {
        reveal(build_probe_script);
    }
    let template = git::flag_with_path("--template=", &join_path(probe, "template"));
    let format = cat2("--object-format=", &subject.format);
    git::run_with_clean_env(
        session,
        probe,
        args4("init", "--quiet", &template, &format),
        env.list(),
    )?;
    git::run_with_clean_env(
        session,
        probe,
        args4("checkout", "--quiet", "--detach", &subject.head),
        env.list(),
    )?;
    let index = git_path_with_env(session, probe, "index", env)?;
    copy_index(session, &subject.index, &index)?;
    copy_sparse_config(session, repo, probe, env)?;
    clear_worktree(session, probe)?;
    copy_worktree(session, repo, probe)
}

/// The arguments of the operation itself.
pub open spec fn operation_args(operation: Operation, target: Text) -> Seq<Text> {
    match operation {
        Operation::Reset => seq!["reset"@, "--hard"@, "--quiet"@, target],
        Operation::Restore => seq!["read-tree"@, "-u"@, "--reset"@, target + "^{tree}"@],
    }
}

fn operation_arguments(operation: Operation, target: &str) -> (args: Vec<String>)
    ensures
        args.deep_view() == operation_args(operation, target@),
{
    match operation {
        Operation::Reset => args4("reset", "--hard", "--quiet", target),
        Operation::Restore => args4("read-tree", "-u", "--reset", &cat2(target, "^{tree}")),
    }
}

pub open spec fn directory_collides() -> Text {
    "applying this rehearsal would replace an empty untracked directory\nKeep it elsewhere or rehearse again from here."@
}

pub open spec fn file_collides() -> Text {
    "applying this rehearsal would overwrite untracked file(s)\nKeep them elsewhere or rehearse again from here."@
}

pub open spec fn git_refuses(stderr: Text) -> Text {
    "applying this rehearsal would overwrite untracked file(s):\n"@ + stderr
        + "\nKeep them elsewhere or rehearse again from here."@
}

/// What a failure of the operation in the copy means: git refusing it is a
/// collision, and anything else is what it is.
pub open spec fn operation_failed(fault: Fault) -> Fault {
    match fault {
        Fault::Git { stderr, .. } => Fault::Refused(git_refuses(stderr)),
        _ => fault,
    }
}

/// Performs the operation in the copy, and refuses where it took away an empty
/// directory, or changed a file that the index does not hold, or where git
/// refused it.
#[verifier::opaque]
pub open spec fn attempt_script(
    probe: Text,
    target: Text,
    operation: Operation,
    env: Seq<(Text, Text)>,
    tape: Tape,
) -> Run<()> {
    empty_directories_script(probe, tape).and_then(|empty: Seq<Text>, tape: Tape|
    worktree_files_script(probe, tape).and_then(
        |before: Seq<(Text, FileStateModel)>, tape: Tape|
    tracked_paths_script(probe, env, tape).and_then(|known: Seq<Text>, tape: Tape|
    git::run_with_clean_env_script(
        probe,
        operation_args(operation, target),
        env,
        tape,
    ).either(
        |output: Text, tape: Tape|
            directory_gone_script(empty, tape).and_then(|gone: bool, tape: Tape|
            if gone {
                Run::Fails(Fault::Refused(directory_collides()), tape)
            } else {
                file_changed_script(before, known, probe, tape).and_then(
                    |changed: bool, tape: Tape|
                        if changed {
                            Run::Fails(Fault::Refused(file_collides()), tape)
                        } else {
                            Run::Gives((), tape)
                        },
                )
            }),
        |fault: Fault, tape: Tape| Run::Fails(operation_failed(fault), tape),
    ))))
}

fn attempt(session: &mut Session, probe: &str, target: &str, operation: Operation, env: &Env) -> (
    outcome: Result<(), Stop>)
    ensures
        ran(outcome, final(session)@) == attempt_script(
            probe@,
            target@,
            operation,
            env.spec_pairs(),
            old(session)@,
        ),
{
    proof {
        reveal(attempt_script);
    }
    let empty = empty_directories(session, probe)?;
    let before = worktree_files(session, probe)?;
    let known = tracked_paths(session, probe, env)?;
    match caught(
        git::run_with_clean_env(
            session,
            probe,
            operation_arguments(operation, target),
            env.list(),
        ),
    )? {
        Ok(_) => {
            if directory_gone(session, &empty)? {
                return Err(
                    Stop::Fail(
                        Error::Refused(
                            "applying this rehearsal would replace an empty untracked directory\nKeep it elsewhere or rehearse again from here.".to_owned(),
                        ),
                    ),
                );
            }
            if file_changed(session, &before, &known, probe)? {
                return Err(
                    Stop::Fail(
                        Error::Refused(
                            "applying this rehearsal would overwrite untracked file(s)\nKeep them elsewhere or rehearse again from here.".to_owned(),
                        ),
                    ),
                );
            }
            Ok(())
        },
        Err(Error::Git { args, code, stderr }) => Err(
            Stop::Fail(
                Error::Refused(
                    cat3(
                        "applying this rehearsal would overwrite untracked file(s):\n",
                        &stderr,
                        "\nKeep them elsewhere or rehearse again from here.",
                    ),
                ),
            ),
        ),
        Err(error) => Err(Stop::Fail(error)),
    }
}

/// That the copy cannot see the objects of both repositories.
pub open spec fn no_alternates(why: Text) -> Fault {
    Fault::Sandbox("cannot configure collision probe: "@ + why)
}

/// The check inside the directory made for it.
#[verifier::opaque]
pub open spec fn probe_script(
    repo: Text,
    rehearsed: Text,
    target: Text,
    operation: Operation,
    probe: Text,
    tape: Tape,
) -> Run<()> {
    subject_script(repo, rehearsed, target, tape).and_then(|subject: SubjectModel, tape: Tape|
    do_script(Ask::CreateDir(inside(probe, "template"@)), inside(probe, "template"@), tape).and_then(
        |made: (), tape: Tape|
    heard(
        Ask::JoinPaths(subject.objects, subject.rehearsed_objects),
        |answer: Answer| text_in(answer),
        tape,
    ).and_then(|joined: HeardModel<Text>, tape: Tape|
        match joined {
            HeardModel::Trouble(trouble) => Run::Fails(no_alternates(trouble.message), tape),
            HeardModel::Got(alternates) => build_probe_script(
                repo,
                probe,
                subject,
                probe_env(probe, alternates),
                tape,
            ).and_then(|built: (), tape: Tape|
            remove_ignore_files_script(probe, repo, rehearsed, subject.target, tape).and_then(
                |removed: (), tape: Tape|
                    attempt_script(
                        probe,
                        subject.target,
                        operation,
                        probe_env(probe, alternates),
                        tape,
                    ))),
        })))
}

/// Checks an operation on the worktree in a copy of it, which is removed
/// whatever came out.
#[verifier::opaque]
pub open spec fn check_operation_script(
    repo: Text,
    rehearsed: Text,
    target: Text,
    operation: Operation,
    tape: Tape,
) -> Run<()> {
    let parent = match parent_of(repo) {
        Some(parent) => parent,
        None => repo,
    };
    heard(
        Ask::TempDir(parent, ".git-rehearse-apply-"@),
        |answer: Answer| text_in(answer),
        tape,
    ).and_then(
        |made: HeardModel<Text>, tape: Tape|
            match made {
                HeardModel::Trouble(trouble) => Run::Fails(
                    Fault::Io(parent, trouble.message),
                    tape,
                ),
                HeardModel::Got(probe) => probe_script(
                    repo,
                    rehearsed,
                    target,
                    operation,
                    probe,
                    tape,
                ).closing(Ask::DropTemp(probe)),
            },
    )
}

fn check_probe(
    session: &mut Session,
    repo: &str,
    rehearsed: &str,
    target: &str,
    operation: Operation,
    probe: &str,
) -> (outcome: Result<(), Stop>)
    ensures
        ran(outcome, final(session)@) == probe_script(
            repo@,
            rehearsed@,
            target@,
            operation,
            probe@,
            old(session)@,
        ),
{
    proof {
        reveal(probe_script);
    }
    let subject = subject(session, repo, rehearsed, target)?;
    let template = join_path(probe, "template");
    perform(session, Request::CreateDir(template.clone()), &template)?;
    let request = Request::JoinPaths(subject.objects.clone(), subject.rehearsed_objects.clone());
    let alternates = match session.text(request)? {
        Heard::Got(alternates) => alternates,
        Heard::Trouble(trouble) => {
            return Err(
                Stop::Fail(
                    Error::Sandbox(cat2("cannot configure collision probe: ", &trouble.message)),
                ),
            );
        },
    };
    let env = probe_environment(probe, alternates);
    build_probe(session, repo, probe, &subject, &env)?;
    remove_ignore_files(session, probe, repo, rehearsed, &subject.target)?;
    attempt(session, probe, &subject.target, operation, &env)
}

fn check_operation(
    session: &mut Session,
    repo: &str,
    rehearsed: &str,
    target: &str,
    operation: Operation,
) -> (outcome: Result<(), Stop>)
    ensures
        ran(outcome, final(session)@) == check_operation_script(
            repo@,
            rehearsed@,
            target@,
            operation,
            old(session)@,
        ),
{
    proof {
        reveal(check_operation_script);
    }
    let parent = match parent(repo) {
        Some(parent) => parent,
        None => repo.to_owned(),
    };
    match session.text(Request::TempDir(parent.clone(), ".git-rehearse-apply-".to_owned()))? {
        Heard::Trouble(trouble) => Err(Stop::Fail(Error::io(&parent, &trouble.message))),
        Heard::Got(probe) => {
            let outcome = check_probe(session, repo, rehearsed, target, operation, &probe);
            session.close(Request::DropTemp(probe), outcome)
        },
    }
}

/// Checks the exact `git reset --hard <target>` operation used by apply.
/// `target` is a commit name resolvable in `rehearsed`; no object or ref is
/// written to `repo`.
pub fn check_reset(session: &mut Session, repo: &str, rehearsed: &str, target: &str) -> (outcome:
    Result<(), Stop>)
    ensures
        ran(outcome, final(session)@) == check_operation_script(
            repo@,
            rehearsed@,
            target@,
            Operation::Reset,
            old(session)@,
        ),
{
    check_operation(session, repo, rehearsed, target, Operation::Reset)
}

/// Checks the exact `git read-tree -u --reset <target>^{tree}` operation used to
/// restore a carried result.
pub fn check_restore(session: &mut Session, repo: &str, rehearsed: &str, target: &str) -> (outcome:
    Result<(), Stop>)
    ensures
        ran(outcome, final(session)@) == check_operation_script(
            repo@,
            rehearsed@,
            target@,
            Operation::Restore,
            old(session)@,
        ),
{
    check_operation(session, repo, rehearsed, target, Operation::Restore)
}

} // verus!
