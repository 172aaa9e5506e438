//! Finding rehearsals again, and collecting the ones nobody wants.
//!
//! The cache is a two-level directory tree, `<cache>/<repo-id>/<rehearsal-id>`.
//! A directory with no metadata is skipped; [`prune`] is what eventually
//! collects it. Once metadata exists, a failure to read it is a refusal, and the
//! directory is preserved.

use vstd::prelude::*;

use crate::compose::{args3, cat3, cat4};
use crate::error::{message_of, Error, Fault};
use crate::files::{kind, kind_script, present, present_script, read_text, read_text_script};
use crate::git;
use crate::number::{decimal, show};
use crate::order::{sort_paths, sort_texts, sorted_paths, sorted_texts};
use crate::parts::starts_with;
use crate::paths::{
    absolute, display, displayed, file_name, file_name_of, inside, is_absolute, join_path,
};
use crate::sandbox::meta::{
    json_string, meta_file, read_script, read_string, Meta, MetaModel, Status,
};
use crate::sandbox::{Sandbox, SandboxModel};
use crate::session::{
    caught, done_in, heard, names_in, number_in, ran, Answer, Ask, Heard, HeardModel, Kind, Reason,
    Request, Run, Session, Stop, Tape,
};
use crate::text::{
    before, precedes, precedes_irreflexive, precedes_total, precedes_transitive, put, same,
    same_text, Text,
};

verus! {

/// How long a transient rehearsal survives without being touched: seven days.
pub const DEFAULT_TTL_SECS: u64 = 604_800;

// ---------------------------------------------------------------------------
// Directories
// ---------------------------------------------------------------------------
/// Those of `names` that are directories, after those in `done`.
pub open spec fn directories_from(
    dir: Text,
    names: Seq<Text>,
    done: Seq<Text>,
    tape: Tape,
) -> Run<Seq<Text>>
    decreases names.len(),
{
    if names.len() == 0 {
        Run::Gives(done, tape)
    } else {
        kind_script(inside(dir, names[0]), tape).and_then(|found: HeardModel<Kind>, tape: Tape|
            match found {
                HeardModel::Trouble(trouble) => Run::Fails(Fault::Io(dir, trouble.message), tape),
                HeardModel::Got(kind) => directories_from(
                    dir,
                    names.drop_first(),
                    if kind == Kind::Directory {
                        done.push(inside(dir, names[0]))
                    } else {
                        done
                    },
                    tape,
                ),
            })
    }
}

/// The directories directly inside a directory, sorted; none if it is absent.
#[verifier::opaque]
pub open spec fn subdirectories_script(dir: Text, tape: Tape) -> Run<Seq<Text>> {
    heard(Ask::List(dir), |answer: Answer| names_in(answer), tape).and_then(
        |found: HeardModel<Seq<Text>>, tape: Tape|
            match found {
                HeardModel::Got(names) => directories_from(dir, names, Seq::empty(), tape).and_then(
                    |dirs: Seq<Text>, tape: Tape| Run::Gives(sorted_paths(dirs), tape),
                ),
                HeardModel::Trouble(trouble) => if trouble.reason == Reason::Missing {
                    Run::Gives(Seq::empty(), tape)
                } else {
                    Run::Fails(Fault::Io(dir, trouble.message), tape)
                },
            },
    )
}

fn subdirectories(session: &mut Session, dir: &str) -> (outcome: Result<Vec<String>, Stop>)
    ensures
        ran(outcome, final(session)@) == subdirectories_script(dir@, old(session)@),
{
    proof {
        reveal(subdirectories_script);
    }
    let mut dirs: Vec<String> = Vec::new();
    assert(dirs.deep_view() =~= Seq::empty());
    let names = match session.names(Request::List(dir.to_owned()))? {
        Heard::Got(names) => names,
        Heard::Trouble(trouble) => {
            if trouble.reason == Reason::Missing {
                return Ok(dirs);
            }
            return Err(Stop::Fail(Error::io(dir, &trouble.message)));
        },
    };
    let ghost all = names.deep_view();
    let ghost listed = session@;
    let mut i: usize = 0;
    assert(all.skip(0) =~= all);
    while i < names.len()
        invariant
            i <= names@.len(),
            all == names.deep_view(),
            subdirectories_script(dir@, old(session)@) == directories_from(
                dir@,
                all,
                Seq::empty(),
                listed,
            ).and_then(|dirs: Seq<Text>, tape: Tape| Run::Gives(sorted_paths(dirs), tape)),
            directories_from(dir@, all, Seq::empty(), listed) == directories_from(
                dir@,
                all.skip(i as int),
                dirs.deep_view(),
                session@,
            ),
        decreases names@.len() - i,
    {
        assert(all.skip(i as int).drop_first() =~= all.skip(i + 1));
        assert(all.skip(i as int)[0] == names[i as int]@);
        let path = join_path(dir, &names[i]);
        match kind(session, &path)? {
            Heard::Trouble(trouble) => return Err(Stop::Fail(Error::io(dir, &trouble.message))),
            Heard::Got(kind) => {
                if kind == Kind::Directory {
                    put(&mut dirs, path);
                }
            },
        }
        i = i + 1;
    }
    Ok(sort_paths(&dirs))
}

// ---------------------------------------------------------------------------
// Listing
// ---------------------------------------------------------------------------
pub open spec fn unreadable(path: Text, fault: Fault) -> Fault {
    Fault::Refused(
        "cannot safely read rehearsal metadata at "@ + displayed(path) + ": "@ + message_of(fault),
    )
}

/// The rehearsal in a directory. A directory without metadata is none; metadata
/// that cannot be read is refused.
#[verifier::opaque]
pub open spec fn rehearsal_script(root: Text, tape: Tape) -> Run<Option<SandboxModel>> {
    read_script(root, tape).either(
        |meta: MetaModel, tape: Tape| Run::Gives(Some(SandboxModel { root, meta }), tape),
        |fault: Fault, tape: Tape|
            present_script(meta_file(root), tape).and_then(|there: bool, tape: Tape|
                if there {
                    Run::Fails(unreadable(meta_file(root), fault), tape)
                } else {
                    Run::Gives(None, tape)
                }),
    )
}

fn rehearsal(session: &mut Session, root: &str) -> (outcome: Result<Option<Sandbox>, Stop>)
    ensures
        ran(outcome, final(session)@) == rehearsal_script(root@, old(session)@),
{
    proof {
        reveal(rehearsal_script);
    }
    match caught(Meta::read(session, root))? {
        Ok(meta) => Ok(Some(Sandbox { root: root.to_owned(), meta })),
        Err(error) => {
            let path = join_path(root, "meta.json");
            if present(session, &path)? {
                Err(
                    Stop::Fail(
                        Error::Refused(
                            cat4(
                                "cannot safely read rehearsal metadata at ",
                                &display(&path),
                                ": ",
                                &error.to_string(),
                            ),
                        ),
                    ),
                )
            } else {
                Ok(None)
            }
        },
    }
}

/// The rehearsals in `roots`, after those `found`.
pub open spec fn rehearsals_from(
    roots: Seq<Text>,
    found: Seq<SandboxModel>,
    tape: Tape,
) -> Run<Seq<SandboxModel>>
    decreases roots.len(),
{
    if roots.len() == 0 {
        Run::Gives(found, tape)
    } else {
        rehearsal_script(roots[0], tape).and_then(
            |rehearsal: Option<SandboxModel>, tape: Tape|
                rehearsals_from(
                    roots.drop_first(),
                    match rehearsal {
                        Some(sandbox) => found.push(sandbox),
                        None => found,
                    },
                    tape,
                ),
        )
    }
}

/// Adds the rehearsals in `roots` to those `found`.
fn collect(session: &mut Session, roots: &Vec<String>, earlier: Vec<Sandbox>) -> (outcome: Result<
    Vec<Sandbox>,
    Stop,
>)
    ensures
        ran(outcome, final(session)@) == rehearsals_from(
            roots.deep_view(),
            earlier.deep_view(),
            old(session)@,
        ),
{
    let ghost all = roots.deep_view();
    let ghost start = earlier.deep_view();
    let mut found = earlier;
    let mut i: usize = 0;
    assert(all.skip(0) =~= all);
    while i < roots.len()
        invariant
            i <= roots@.len(),
            all == roots.deep_view(),
            start == earlier.deep_view(),
            rehearsals_from(all, start, old(session)@) == rehearsals_from(
                all.skip(i as int),
                found.deep_view(),
                session@,
            ),
        decreases roots@.len() - i,
    {
        assert(all.skip(i as int).drop_first() =~= all.skip(i + 1));
        assert(all.skip(i as int)[0] == roots[i as int]@);
        if let Some(sandbox) = rehearsal(session, &roots[i])? {
            put(&mut found, sandbox);
        }
        i = i + 1;
    }
    Ok(found)
}

/// Whether a directory is one of those that are wanted.
pub open spec fn is_wanted(dir: Text, wanted: Option<Text>) -> bool {
    wanted is None || file_name_of(dir) == wanted
}

/// The rehearsals of the repositories in `dirs`, after those `found`.
pub open spec fn repositories_from(
    dirs: Seq<Text>,
    wanted: Option<Text>,
    found: Seq<SandboxModel>,
    tape: Tape,
) -> Run<Seq<SandboxModel>>
    decreases dirs.len(),
{
    if dirs.len() == 0 {
        Run::Gives(found, tape)
    } else if !is_wanted(dirs[0], wanted) {
        repositories_from(dirs.drop_first(), wanted, found, tape)
    } else {
        subdirectories_script(dirs[0], tape).and_then(|roots: Seq<Text>, tape: Tape|
        rehearsals_from(roots, found, tape).and_then(|found: Seq<SandboxModel>, tape: Tape|
            repositories_from(dirs.drop_first(), wanted, found, tape)))
    }
}

/// Whether one rehearsal comes before another: it is older, or of the same
/// second and with the earlier id.
pub open spec fn is_older(a: SandboxModel, b: SandboxModel) -> bool {
    a.meta.created_unix < b.meta.created_unix || (a.meta.created_unix == b.meta.created_unix
        && precedes(a.meta.id, b.meta.id))
}

/// The rehearsals with one more among them, oldest first.
pub open spec fn shelved(found: Seq<SandboxModel>, sandbox: SandboxModel) -> Seq<SandboxModel>
    decreases found.len(),
{
    if found.len() > 0 && is_older(sandbox, found.last()) {
        shelved(found.drop_last(), sandbox).push(found.last())
    } else {
        found.push(sandbox)
    }
}

/// The rehearsals, oldest first.
pub open spec fn by_age(found: Seq<SandboxModel>) -> Seq<SandboxModel>
    decreases found.len(),
{
    if found.len() == 0 {
        found
    } else {
        shelved(by_age(found.drop_last()), found.last())
    }
}

fn older(a: &Sandbox, b: &Sandbox) -> (yes: bool)
    ensures
        yes == is_older(a.deep_view(), b.deep_view()),
{
    a.meta.created_unix < b.meta.created_unix || (a.meta.created_unix == b.meta.created_unix
        && before(&a.meta.id, &b.meta.id))
}

fn shelve(found: &mut Vec<Sandbox>, sandbox: Sandbox)
    ensures
        final(found).deep_view() == shelved(old(found).deep_view(), sandbox.deep_view()),
{
    let ghost all = found.deep_view();
    let ghost given = sandbox.deep_view();
    let mut i: usize = found.len();
    assert(all.take(i as int) =~= all);
    assert(shelved(all.take(i as int), given) + all.skip(i as int) =~= shelved(all, given));
    while i > 0 && older(&sandbox, &found[i - 1])
        invariant
            i <= found@.len(),
            all == found.deep_view(),
            all == old(found).deep_view(),
            given == sandbox.deep_view(),
            shelved(all.take(i as int), given) + all.skip(i as int) == shelved(all, given),
        decreases i,
    {
        let ghost now = all.take(i as int);
        assert(now.drop_last() =~= all.take(i - 1));
        assert(shelved(now, given) == shelved(all.take(i - 1), given).push(now.last()));
        assert(shelved(all.take(i - 1), given) + all.skip(i - 1) =~= shelved(now, given)
            + all.skip(i as int));
        i = i - 1;
    }
    let ghost now = all.take(i as int);
    assert(shelved(now, given) =~= now.push(given));
    found.insert(i, sandbox);
    assert(found.deep_view() =~= now.push(given) + all.skip(i as int));
}

/// Every rehearsal in the cache, or of one repository, oldest first.
#[verifier::opaque]
pub open spec fn list_script(
    cache_root: Text,
    repo_id: Option<Text>,
    tape: Tape,
) -> Run<Seq<SandboxModel>> {
    subdirectories_script(cache_root, tape).and_then(|dirs: Seq<Text>, tape: Tape|
    repositories_from(dirs, repo_id, Seq::empty(), tape).and_then(
        |found: Seq<SandboxModel>, tape: Tape| Run::Gives(by_age(found), tape)))
}

fn wanted(dir: &str, repo_id: &Option<String>) -> (yes: bool)
    ensures
        yes == is_wanted(dir@, repo_id.deep_view()),
{
    match repo_id {
        None => true,
        Some(_) => same_text(&file_name(dir), repo_id),
    }
}

fn repositories(session: &mut Session, dirs: &Vec<String>, repo_id: &Option<String>) -> (outcome:
    Result<Vec<Sandbox>, Stop>)
    ensures
        ran(outcome, final(session)@) == repositories_from(
            dirs.deep_view(),
            repo_id.deep_view(),
            Seq::empty(),
            old(session)@,
        ),
{
    let ghost all = dirs.deep_view();
    let mut found: Vec<Sandbox> = Vec::new();
    let mut i: usize = 0;
    assert(all.skip(0) =~= all);
    assert(found.deep_view() =~= Seq::empty());
    while i < dirs.len()
        invariant
            i <= dirs@.len(),
            all == dirs.deep_view(),
            repositories_from(all, repo_id.deep_view(), Seq::empty(), old(session)@)
                == repositories_from(
                all.skip(i as int),
                repo_id.deep_view(),
                found.deep_view(),
                session@,
            ),
        decreases dirs@.len() - i,
    {
        assert(all.skip(i as int).drop_first() =~= all.skip(i + 1));
        assert(all.skip(i as int)[0] == dirs[i as int]@);
        if wanted(&dirs[i], repo_id) {
            let roots = subdirectories(session, &dirs[i])?;
            found = collect(session, &roots, found)?;
        }
        i = i + 1;
    }
    Ok(found)
}

fn sort_by_age(found: Vec<Sandbox>) -> (sorted: Vec<Sandbox>)
    ensures
        sorted.deep_view() == by_age(found.deep_view()),
{
    let ghost given = found.deep_view();
    let mut sorted: Vec<Sandbox> = Vec::new();
    let mut i: usize = 0;
    assert(given.take(0) =~= Seq::empty());
    assert(sorted.deep_view() =~= Seq::empty());
    while i < found.len()
        invariant
            i <= found@.len(),
            given == found.deep_view(),
            sorted.deep_view() == by_age(given.take(i as int)),
        decreases found@.len() - i,
    {
        assert(given.take(i + 1).drop_last() =~= given.take(i as int));
        assert(given.take(i + 1).last() == found[i as int].deep_view());
        let sandbox = Sandbox { root: found[i].root.clone(), meta: found[i].meta.copy() };
        shelve(&mut sorted, sandbox);
        i = i + 1;
    }
    assert(given.take(given.len() as int) =~= given);
    sorted
}

/// Every rehearsal in the cache, newest last. Pass `repo_id` to limit the
/// listing to one repository. A cache root that does not exist yet is an empty
/// list.
pub fn list(session: &mut Session, cache_root: &str, repo_id: &Option<String>) -> (outcome: Result<
    Vec<Sandbox>,
    Stop,
>)
    ensures
        ran(outcome, final(session)@) == list_script(
            cache_root@,
            repo_id.deep_view(),
            old(session)@,
        ),
{
    proof {
        reveal(list_script);
    }
    let dirs = subdirectories(session, cache_root)?;
    let found = repositories(session, &dirs, repo_id)?;
    Ok(sort_by_age(found))
}

// ---------------------------------------------------------------------------
// Finding
// ---------------------------------------------------------------------------
pub open spec fn no_rehearsals() -> Fault {
    Fault::Refused(
        "no rehearsals for this repository.\nRehearse something first: `git rehearse merge <branch>`."@,
    )
}

pub open spec fn no_such_rehearsal(id: Text) -> Fault {
    Fault::Refused(
        "no rehearsal "@ + id
            + " for this repository.\n`git rehearse list` shows the ones there are."@,
    )
}

pub open spec fn ambiguous(id: Text, count: nat) -> Fault {
    Fault::Refused(
        id + " matches "@ + decimal(count)
            + " rehearsals.\nUse more of the id — `git rehearse list` shows them in full."@,
    )
}

/// Those of the rehearsals whose id begins with `id`.
pub open spec fn matching(candidates: Seq<SandboxModel>, id: Text) -> Seq<SandboxModel>
    decreases candidates.len(),
{
    if candidates.len() == 0 {
        candidates
    } else if id.is_prefix_of(candidates.last().meta.id) {
        matching(candidates.drop_last(), id).push(candidates.last())
    } else {
        matching(candidates.drop_last(), id)
    }
}

/// The rehearsal that is meant: the newest without an id, and with one the only
/// one whose id begins with it.
pub open spec fn meant(
    candidates: Seq<SandboxModel>,
    id: Option<Text>,
) -> Result<SandboxModel, Fault> {
    match id {
        None => if candidates.len() == 0 {
            Err(no_rehearsals())
        } else {
            Ok(candidates.last())
        },
        Some(id) => {
            let found = matching(candidates, id);
            if found.len() == 0 {
                Err(no_such_rehearsal(id))
            } else if found.len() == 1 {
                Ok(found[0])
            } else {
                Err(ambiguous(id, found.len()))
            }
        },
    }
}

/// The rehearsal that is meant among `candidates`.
pub fn pick(candidates: Vec<Sandbox>, id: &Option<String>) -> (outcome: Result<Sandbox, Error>)
    ensures
        match outcome {
            Ok(sandbox) => meant(candidates.deep_view(), id.deep_view()) == Ok::<
                SandboxModel,
                Fault,
            >(sandbox.deep_view()),
            Err(error) => meant(candidates.deep_view(), id.deep_view()) == Err::<
                SandboxModel,
                Fault,
            >(error.deep_view()),
        },
{
    let ghost all = candidates.deep_view();
    let mut candidates = candidates;
    match id {
        None => {
            assert(all.len() > 0 ==> all.last() == candidates@.last().deep_view());
            match candidates.pop() {
                Some(sandbox) => Ok(sandbox),
                None => Err(
                    Error::Refused(
                        "no rehearsals for this repository.\nRehearse something first: `git rehearse merge <branch>`.".to_owned(),
                    ),
                ),
            }
        },
        Some(id) => {
            let mut found: Vec<Sandbox> = Vec::new();
            let mut i: usize = 0;
            assert(all.take(0) =~= Seq::empty());
            assert(found.deep_view() =~= Seq::empty());
            while i < candidates.len()
                invariant
                    i <= candidates@.len(),
                    all == candidates.deep_view(),
                    found.deep_view() == matching(all.take(i as int), id@),
                decreases candidates@.len() - i,
            {
                assert(all.take(i + 1).drop_last() =~= all.take(i as int));
                let candidate = &candidates[i];
                assert(all.take(i + 1).last() == candidate.deep_view());
                if starts_with(&candidate.meta.id, id) {
                    put(
                        &mut found,
                        Sandbox { root: candidate.root.clone(), meta: candidate.meta.copy() },
                    );
                }
                i = i + 1;
            }
            assert(all.take(all.len() as int) =~= all);
            let count = found.len();
            if count == 0 {
                return Err(
                    Error::Refused(
                        cat3(
                            "no rehearsal ",
                            id,
                            " for this repository.\n`git rehearse list` shows the ones there are.",
                        ),
                    ),
                );
            }
            if count == 1 {
                let sandbox = &found[0];
                assert(found.deep_view()[0] == sandbox.deep_view());
                return Ok(Sandbox { root: sandbox.root.clone(), meta: sandbox.meta.copy() });
            }
            Err(
                Error::Refused(
                    cat4(
                        id,
                        " matches ",
                        &show(count as u64),
                        " rehearsals.\nUse more of the id — `git rehearse list` shows them in full.",
                    ),
                ),
            )
        },
    }
}

/// Finds one rehearsal of a repository.
#[verifier::opaque]
pub open spec fn find_script(
    cache_root: Text,
    repo_id: Text,
    id: Option<Text>,
    tape: Tape,
) -> Run<SandboxModel> {
    list_script(cache_root, Some(repo_id), tape).and_then(
        |candidates: Seq<SandboxModel>, tape: Tape|
            match meant(candidates, id) {
                Ok(sandbox) => Run::Gives(sandbox, tape),
                Err(fault) => Run::Fails(fault, tape),
            },
    )
}

/// Finds one rehearsal of a repository. `id` may be a full rehearsal id or a
/// unique prefix of one; without an id, the most recent rehearsal is meant.
pub fn find(session: &mut Session, cache_root: &str, repo_id: &str, id: &Option<String>) -> (
    outcome: Result<Sandbox, Stop>)
    ensures
        ran(outcome, final(session)@) == find_script(
            cache_root@,
            repo_id@,
            id.deep_view(),
            old(session)@,
        ),
{
    proof {
        reveal(find_script);
    }
    let candidates = list(session, cache_root, &Some(repo_id.to_owned()))?;
    match pick(candidates, id) {
        Ok(sandbox) => Ok(sandbox),
        Err(error) => Err(Stop::Fail(error)),
    }
}

// ---------------------------------------------------------------------------
// Pruning
// ---------------------------------------------------------------------------
/// Removes a rehearsal directory, at once and entirely. Already gone is fine.
#[verifier::opaque]
pub open spec fn remove_rehearsal_script(root: Text, tape: Tape) -> Run<()> {
    heard(Ask::RemoveTree(root), |answer: Answer| done_in(answer), tape).and_then(
        |removed: HeardModel<()>, tape: Tape|
            match removed {
                HeardModel::Got(_) => Run::Gives((), tape),
                HeardModel::Trouble(trouble) => if trouble.reason == Reason::Missing {
                    Run::Gives((), tape)
                } else {
                    Run::Fails(Fault::Io(root, trouble.message), tape)
                },
            },
    )
}

/// Removes a rehearsal directory, at once and entirely.
pub fn remove_rehearsal(session: &mut Session, root: &str) -> (outcome: Result<(), Stop>)
    ensures
        ran(outcome, final(session)@) == remove_rehearsal_script(root@, old(session)@),
{
    proof {
        reveal(remove_rehearsal_script);
    }
    match session.done(Request::RemoveTree(root.to_owned()))? {
        Heard::Got(_) => Ok(()),
        Heard::Trouble(trouble) => if trouble.reason == Reason::Missing {
            Ok(())
        } else {
            Err(Stop::Fail(Error::io(root, &trouble.message)))
        },
    }
}

impl Sandbox {
    /// Deletes the rehearsal, at once and entirely. The clone's object files are
    /// links of their own, so the real repository is not touched.
    pub fn discard(self, session: &mut Session) -> (outcome: Result<(), Stop>)
        ensures
            ran(outcome, final(session)@) == remove_rehearsal_script(
                self.deep_view().root,
                old(session)@,
            ),
    {
        remove_rehearsal(session, &self.root)
    }
}

/// Whether what a journal holds reserves this rehearsal: it names it, or it
/// cannot be read.
pub open spec fn claims(journal: Text, id: Text) -> bool {
    match json_string(journal, "rehearsal"@) {
        Ok(Some(rehearsal)) => rehearsal == id,
        Ok(None) => true,
        Err(_) => true,
    }
}

/// Whether an apply journal has claimed a rehearsal for recovery. Only a
/// confirmed absence, or a journal that names another rehearsal, says no.
#[verifier::opaque]
pub open spec fn is_recovery_reserved_script(
    repo_path: Text,
    id: Text,
    tape: Tape,
) -> Run<bool> {
    git::path_script(
        repo_path,
        seq!["rev-parse"@, "--git-path"@, "rehearse-apply"@],
        tape,
    ).either(
        |path: Text, tape: Tape| {
            let journal = if is_absolute(path) {
                path
            } else {
                inside(repo_path, path)
            };
            kind_script(journal, tape).and_then(|found: HeardModel<Kind>, tape: Tape|
                match found {
                    HeardModel::Got(kind) => if kind != Kind::File {
                        Run::Gives(true, tape)
                    } else {
                        read_text_script(journal, tape).and_then(
                            |text: HeardModel<Text>, tape: Tape|
                                match text {
                                    HeardModel::Got(text) => Run::Gives(claims(text, id), tape),
                                    HeardModel::Trouble(_) => Run::Gives(true, tape),
                                },
                        )
                    },
                    HeardModel::Trouble(trouble) => Run::Gives(
                        trouble.reason != Reason::Missing,
                        tape,
                    ),
                })
        },
        |fault: Fault, tape: Tape| Run::Gives(true, tape),
    )
}

/// Whether what a journal holds reserves this rehearsal.
pub fn claimed(journal: &str, id: &str) -> (yes: bool)
    ensures
        yes == claims(journal@, id@),
{
    match read_string(journal, "rehearsal") {
        Ok(Some(rehearsal)) => same(&rehearsal, id),
        Ok(None) => true,
        Err(_) => true,
    }
}

/// Whether an apply journal has claimed this rehearsal for recovery. A damaged
/// journal counts as a claim: failing closed preserves the evidence.
pub fn is_recovery_reserved(session: &mut Session, meta: &Meta) -> (outcome: Result<bool, Stop>)
    ensures
        ran(outcome, final(session)@) == is_recovery_reserved_script(
            meta.deep_view().repo_path,
            meta.deep_view().id,
            old(session)@,
        ),
{
    proof {
        reveal(is_recovery_reserved_script);
    }
    let path = match caught(
        git::run_path(
            session,
            &meta.repo_path,
            args3("rev-parse", "--git-path", "rehearse-apply"),
        ),
    )? {
        Ok(path) => path,
        Err(_) => return Ok(true),
    };
    let journal = if absolute(&path) {
        path
    } else {
        join_path(&meta.repo_path, &path)
    };
    match kind(session, &journal)? {
        Heard::Got(kind) => {
            if kind != Kind::File {
                return Ok(true);
            }
            match read_text(session, &journal)? {
                Heard::Got(text) => Ok(claimed(&text, &meta.id)),
                Heard::Trouble(_) => Ok(true),
            }
        },
        Heard::Trouble(trouble) => Ok(trouble.reason != Reason::Missing),
    }
}

/// When a directory was modified last.
#[verifier::opaque]
pub open spec fn directory_mtime_script(dir: Text, tape: Tape) -> Run<u64> {
    heard(Ask::Modified(dir), |answer: Answer| number_in(answer), tape).and_then(
        |found: HeardModel<u64>, tape: Tape|
            match found {
                HeardModel::Got(seconds) => Run::Gives(seconds, tape),
                HeardModel::Trouble(trouble) => Run::Fails(Fault::Io(dir, trouble.message), tape),
            },
    )
}

fn directory_mtime(session: &mut Session, dir: &str) -> (outcome: Result<u64, Stop>)
    ensures
        ran(outcome, final(session)@) == directory_mtime_script(dir@, old(session)@),
{
    proof {
        reveal(directory_mtime_script);
    }
    match session.number(Request::Modified(dir.to_owned()))? {
        Heard::Got(seconds) => Ok(seconds),
        Heard::Trouble(trouble) => Err(Stop::Fail(Error::io(dir, &trouble.message))),
    }
}

/// When a directory that may be pruned came into being; none where it must stay.
/// What must stay is metadata that cannot be read, a rehearsal that was kept,
/// and one that recovery has claimed.
#[verifier::opaque]
pub open spec fn prunable_since_script(root: Text, tape: Tape) -> Run<Option<u64>> {
    read_script(root, tape).either(
        |meta: MetaModel, tape: Tape|
            if meta.status == Status::Kept {
                Run::Gives(None, tape)
            } else {
                is_recovery_reserved_script(meta.repo_path, meta.id, tape).and_then(
                    |reserved: bool, tape: Tape|
                        Run::Gives(
                            if reserved {
                                None
                            } else {
                                Some(meta.created_unix)
                            },
                            tape,
                        ),
                )
            },
        |fault: Fault, tape: Tape|
            present_script(meta_file(root), tape).and_then(|there: bool, tape: Tape|
                if there {
                    Run::Gives(None, tape)
                } else {
                    directory_mtime_script(root, tape).and_then(
                        |seconds: u64, tape: Tape| Run::Gives(Some(seconds), tape),
                    )
                }),
    )
}

fn prunable_since(session: &mut Session, root: &str) -> (outcome: Result<Option<u64>, Stop>)
    ensures
        ran(outcome, final(session)@) == prunable_since_script(root@, old(session)@),
{
    proof {
        reveal(prunable_since_script);
    }
    match caught(Meta::read(session, root))? {
        Ok(meta) => {
            if meta.status == Status::Kept {
                return Ok(None);
            }
            if is_recovery_reserved(session, &meta)? {
                return Ok(None);
            }
            let since = Some(meta.created_unix);
            assert(since.deep_view() == since);
            Ok(since)
        },
        Err(_) => {
            if present(session, &join_path(root, "meta.json"))? {
                return Ok(None);
            }
            let seconds = directory_mtime(session, root)?;
            let since = Some(seconds);
            assert(since.deep_view() == since);
            Ok(since)
        },
    }
}

/// Whether something from `since` has expired by `now`.
pub open spec fn expired(since: u64, now: u64, max_age: u64) -> bool {
    now - since > max_age
}

/// Prunes each of `roots`, and gives the names that were removed after those in
/// `removed`.
pub open spec fn prune_from(
    roots: Seq<Text>,
    now: u64,
    max_age: u64,
    removed: Seq<Text>,
    tape: Tape,
) -> Run<Seq<Text>>
    decreases roots.len(),
{
    if roots.len() == 0 {
        Run::Gives(removed, tape)
    } else {
        prunable_since_script(roots[0], tape).and_then(|since: Option<u64>, tape: Tape|
        if since is Some && expired(since->0, now, max_age) {
            remove_rehearsal_script(roots[0], tape).and_then(|gone: (), tape: Tape|
                prune_from(
                    roots.drop_first(),
                    now,
                    max_age,
                    match file_name_of(roots[0]) {
                        Some(name) => removed.push(displayed(name)),
                        None => removed,
                    },
                    tape,
                ))
        } else {
            prune_from(roots.drop_first(), now, max_age, removed, tape)
        })
    }
}

fn prune_roots(
    session: &mut Session,
    roots: &Vec<String>,
    now: u64,
    max_age: u64,
    earlier: Vec<String>,
) -> (outcome: Result<Vec<String>, Stop>)
    ensures
        ran(outcome, final(session)@) == prune_from(
            roots.deep_view(),
            now,
            max_age,
            earlier.deep_view(),
            old(session)@,
        ),
{
    let ghost all = roots.deep_view();
    let ghost start = earlier.deep_view();
    let mut removed = earlier;
    let mut i: usize = 0;
    assert(all.skip(0) =~= all);
    while i < roots.len()
        invariant
            i <= roots@.len(),
            all == roots.deep_view(),
            start == earlier.deep_view(),
            prune_from(all, now, max_age, start, old(session)@) == prune_from(
                all.skip(i as int),
                now,
                max_age,
                removed.deep_view(),
                session@,
            ),
        decreases roots@.len() - i,
    {
        assert(all.skip(i as int).drop_first() =~= all.skip(i + 1));
        assert(all.skip(i as int)[0] == roots[i as int]@);
        let since = prunable_since(session, &roots[i])?;
        assert(since.deep_view() == since);
        if let Some(since) = since {
            if now > since && now - since > max_age {
                remove_rehearsal(session, &roots[i])?;
                if let Some(name) = file_name(&roots[i]) {
                    put(&mut removed, display(&name));
                }
            }
        }
        i = i + 1;
    }
    Ok(removed)
}

/// Prunes the repositories in `dirs`; one with nothing left in it is removed,
/// and one that is not empty stays.
pub open spec fn prune_repositories_from(
    dirs: Seq<Text>,
    now: u64,
    max_age: u64,
    removed: Seq<Text>,
    tape: Tape,
) -> Run<Seq<Text>>
    decreases dirs.len(),
{
    if dirs.len() == 0 {
        Run::Gives(removed, tape)
    } else {
        subdirectories_script(dirs[0], tape).and_then(|roots: Seq<Text>, tape: Tape|
        prune_from(roots, now, max_age, removed, tape).and_then(
            |removed: Seq<Text>, tape: Tape|
        heard(Ask::RemoveDir(dirs[0]), |answer: Answer| done_in(answer), tape).and_then(
            |emptied: HeardModel<()>, tape: Tape|
                prune_repositories_from(dirs.drop_first(), now, max_age, removed, tape))))
    }
}

/// Deletes the rehearsals that have expired, and gives their ids.
#[verifier::opaque]
pub open spec fn prune_script(
    cache_root: Text,
    now: u64,
    max_age: u64,
    tape: Tape,
) -> Run<Seq<Text>> {
    subdirectories_script(cache_root, tape).and_then(|dirs: Seq<Text>, tape: Tape|
    prune_repositories_from(dirs, now, max_age, Seq::empty(), tape).and_then(
        |removed: Seq<Text>, tape: Tape| Run::Gives(sorted_texts(removed), tape)))
}

fn prune_repositories(session: &mut Session, dirs: &Vec<String>, now: u64, max_age: u64) -> (
    outcome: Result<Vec<String>, Stop>)
    ensures
        ran(outcome, final(session)@) == prune_repositories_from(
            dirs.deep_view(),
            now,
            max_age,
            Seq::empty(),
            old(session)@,
        ),
{
    let ghost all = dirs.deep_view();
    let mut removed: Vec<String> = Vec::new();
    let mut i: usize = 0;
    assert(all.skip(0) =~= all);
    assert(removed.deep_view() =~= Seq::empty());
    while i < dirs.len()
        invariant
            i <= dirs@.len(),
            all == dirs.deep_view(),
            prune_repositories_from(all, now, max_age, Seq::empty(), old(session)@)
                == prune_repositories_from(
                all.skip(i as int),
                now,
                max_age,
                removed.deep_view(),
                session@,
            ),
        decreases dirs@.len() - i,
    {
        assert(all.skip(i as int).drop_first() =~= all.skip(i + 1));
        assert(all.skip(i as int)[0] == dirs[i as int]@);
        let roots = subdirectories(session, &dirs[i])?;
        removed = prune_roots(session, &roots, now, max_age, removed)?;
        session.done(Request::RemoveDir(dirs[i].clone()))?;
        i = i + 1;
    }
    Ok(removed)
}

/// Deletes rehearsals older than `max_age_secs`, returning the ids removed. Age
/// comes from the metadata where there is any and from the directory's
/// modification time where there is none.
pub fn prune(session: &mut Session, cache_root: &str, now_unix: u64, max_age_secs: u64) -> (
    outcome: Result<Vec<String>, Stop>)
    ensures
        ran(outcome, final(session)@) == prune_script(
            cache_root@,
            now_unix,
            max_age_secs,
            old(session)@,
        ),
{
    proof {
        reveal(prune_script);
    }
    let dirs = subdirectories(session, cache_root)?;
    let removed = prune_repositories(session, &dirs, now_unix, max_age_secs)?;
    Ok(sort_texts(&removed))
}

proof fn older_transitive(a: SandboxModel, b: SandboxModel, c: SandboxModel)
    requires
        is_older(a, b),
        is_older(b, c),
    ensures
        is_older(a, c),
{
    if a.meta.created_unix == b.meta.created_unix && b.meta.created_unix == c.meta.created_unix {
        precedes_transitive(a.meta.id, b.meta.id, c.meta.id);
    }
}

proof fn shelving_orders(found: Seq<SandboxModel>, sandbox: SandboxModel)
    requires
        forall|i: int, j: int|
            0 <= i < j < found.len() ==> !is_older(#[trigger] found[j], #[trigger] found[i]),
    ensures
        forall|i: int, j: int|
            0 <= i < j < shelved(found, sandbox).len() ==> !is_older(
                #[trigger] shelved(found, sandbox)[j],
                #[trigger] shelved(found, sandbox)[i],
            ),
        shelved(found, sandbox).to_multiset() == found.to_multiset().insert(sandbox),
    decreases found.len(),
{
    broadcast use vstd::seq_lib::group_to_multiset_ensures;

    let result = shelved(found, sandbox);
    if found.len() > 0 && is_older(sandbox, found.last()) {
        let rest = found.drop_last();
        let below = shelved(rest, sandbox);
        assert forall|i: int, j: int| 0 <= i < j < rest.len() implies !is_older(
            #[trigger] rest[j],
            #[trigger] rest[i],
        ) by {
            assert(rest[i] == found[i] && rest[j] == found[j]);
        }
        shelving_orders(rest, sandbox);
        assert(found =~= rest.push(found.last()));
        assert forall|i: int, j: int| 0 <= i < j < result.len() implies !is_older(
            #[trigger] result[j],
            #[trigger] result[i],
        ) by {
            if j < below.len() {
                assert(result[i] == below[i] && result[j] == below[j]);
            } else {
                assert(result[i] == below[i]);
                assert(below.to_multiset().count(below[i]) > 0);
                if below[i] == sandbox {
                    if is_older(found.last(), sandbox) {
                        older_transitive(sandbox, found.last(), sandbox);
                        precedes_irreflexive(sandbox.meta.id);
                    }
                } else {
                    assert(rest.to_multiset().count(below[i]) > 0);
                    let k = choose|k: int| 0 <= k < rest.len() && rest[k] == below[i];
                    assert(!is_older(found[found.len() - 1], found[k]));
                }
            }
        }
        assert(result.to_multiset() =~= found.to_multiset().insert(sandbox));
    } else {
        assert forall|i: int, j: int| 0 <= i < j < result.len() implies !is_older(
            #[trigger] result[j],
            #[trigger] result[i],
        ) by {
            if j < found.len() {
                assert(result[i] == found[i] && result[j] == found[j]);
            } else {
                assert(result[i] == found[i]);
                if is_older(sandbox, found[i]) {
                    if i < found.len() - 1 {
                        assert(!is_older(found[found.len() - 1], found[i]));
                        precedes_total(found[i].meta.id, found.last().meta.id);
                        if is_older(found[i], found.last()) {
                            older_transitive(sandbox, found[i], found.last());
                        }
                    }
                }
            }
        }
    }
}

/// A listing has the oldest rehearsal first and the newest last, and neither
/// loses nor adds any.
pub proof fn listings_are_by_age(found: Seq<SandboxModel>)
    ensures
        forall|i: int, j: int|
            0 <= i < j < by_age(found).len() ==> !is_older(
                #[trigger] by_age(found)[j],
                #[trigger] by_age(found)[i],
            ),
        by_age(found).to_multiset() == found.to_multiset(),
    decreases found.len(),
{
    broadcast use vstd::seq_lib::group_to_multiset_ensures;

    if found.len() > 0 {
        let rest = found.drop_last();
        listings_are_by_age(rest);
        shelving_orders(by_age(rest), found.last());
        assert(found =~= rest.push(found.last()));
    }
}

proof fn matching_are_candidates(candidates: Seq<SandboxModel>, id: Text)
    ensures
        forall|i: int|
            0 <= i < matching(candidates, id).len() ==> candidates.contains(
                #[trigger] matching(candidates, id)[i],
            ) && id.is_prefix_of(matching(candidates, id)[i].meta.id),
        forall|i: int|
            0 <= i < candidates.len() && id.is_prefix_of((#[trigger] candidates[i]).meta.id)
                ==> matching(candidates, id).contains(candidates[i]),
    decreases candidates.len(),
{
    if candidates.len() > 0 {
        let rest = candidates.drop_last();
        let found = matching(candidates, id);
        let earlier = matching(rest, id);
        matching_are_candidates(rest, id);
        assert forall|i: int| 0 <= i < found.len() implies candidates.contains(#[trigger] found[i])
            && id.is_prefix_of(found[i].meta.id) by {
            if i < earlier.len() {
                assert(found[i] == earlier[i]);
                let k = choose|k: int| 0 <= k < rest.len() && rest[k] == earlier[i];
                assert(candidates[k] == found[i]);
            } else {
                assert(candidates[candidates.len() - 1] == found[i]);
            }
        }
        assert forall|i: int|
            0 <= i < candidates.len() && id.is_prefix_of((#[trigger] candidates[i]).meta.id)
            implies found.contains(candidates[i]) by {
            if i < rest.len() {
                assert(rest[i] == candidates[i]);
                let k = choose|k: int| 0 <= k < earlier.len() && earlier[k] == rest[i];
                assert(found[k] == candidates[i]);
            } else {
                assert(found[found.len() - 1] == candidates[i]);
            }
        }
    }
}

/// An id may be any unambiguous beginning: what is meant by one is a rehearsal
/// whose id begins with it, and no other does.
pub proof fn an_id_means_one_rehearsal(
    candidates: Seq<SandboxModel>,
    id: Text,
    sandbox: SandboxModel,
)
    requires
        meant(candidates, Some(id)) == Ok::<SandboxModel, Fault>(sandbox),
    ensures
        candidates.contains(sandbox),
        id.is_prefix_of(sandbox.meta.id),
        forall|i: int|
            0 <= i < candidates.len() && id.is_prefix_of((#[trigger] candidates[i]).meta.id)
                ==> candidates[i] == sandbox,
{
    matching_are_candidates(candidates, id);
    let found = matching(candidates, id);
    assert(candidates.contains(found[0]));
    assert forall|i: int|
        0 <= i < candidates.len() && id.is_prefix_of((#[trigger] candidates[i]).meta.id)
        implies candidates[i] == sandbox by {
        assert(found.contains(candidates[i]));
    }
}

/// Without an id the newest rehearsal is meant: none of those listed is newer.
pub proof fn no_id_means_the_newest(found: Seq<SandboxModel>, sandbox: SandboxModel)
    requires
        meant(by_age(found), None) == Ok::<SandboxModel, Fault>(sandbox),
    ensures
        found.contains(sandbox),
        forall|i: int| 0 <= i < found.len() ==> !is_older(sandbox, #[trigger] found[i]),
{
    broadcast use vstd::seq_lib::group_to_multiset_ensures;

    listings_are_by_age(found);
    let listed = by_age(found);
    assert(listed.to_multiset().count(listed.last()) > 0);
    assert forall|i: int| 0 <= i < found.len() implies !is_older(
        sandbox,
        #[trigger] found[i],
    ) by {
        assert(found.to_multiset().count(found[i]) > 0);
        let k = choose|k: int| 0 <= k < listed.len() && listed[k] == found[i];
        if k == listed.len() - 1 {
            precedes_irreflexive(sandbox.meta.id);
        } else {
            assert(!is_older(listed[listed.len() - 1], listed[k]));
        }
    }
}

/// A rehearsal that was kept is never pruned, however old it is, and neither is
/// one that recovery still needs.
pub proof fn kept_rehearsals_are_not_pruned(root: Text, tape: Tape, meta: MetaModel, after: Tape)
    requires
        read_script(root, tape) == Run::Gives(meta, after),
    ensures
        meta.status == Status::Kept ==> prunable_since_script(root, tape)
            == Run::<Option<u64>>::Gives(None, after),
        is_recovery_reserved_script(meta.repo_path, meta.id, after) matches Run::Gives(
            reserved,
            later,
        ) ==> reserved ==> (prunable_since_script(root, tape) matches Run::Gives(since, end)
            && since is None),
{
    reveal(prunable_since_script);
}

} // verus!
