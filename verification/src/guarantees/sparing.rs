//! What is made sure of before something is overwritten: no file that nobody tracks is
//! lost, and no other worktree holds a branch that is to move.

use vstd::prelude::*;

use crate::analyze::RefMoveModel;
use crate::collision::walk::{
    empty_directories_script, remove_ignore_files_script, worktree_file_script,
    worktree_files_script, FileStateModel,
};
use crate::collision::{
    attempt_script, build_probe_script, check_operation_script, directory_gone_script,
    file_changed_script, git_path_script, probe_env, probe_script, relative_to, subject_script,
    tracked_paths_script, Operation, SubjectModel,
};
use crate::files::{do_script, leads_to_script, read_text_script};
use crate::git;
use crate::guarantees::continuing::{
    attempting_goes_on, configuring_goes_on, files_go_on, git_goes_on, walking_goes_on,
};
use crate::guarantees::conversation::{
    continues, git_in, going_on_adds_up, is_complete, left_by, requests_are_exchanges, spoken,
    was_asked,
};
use crate::order::{placed, placed_all};
use crate::parts::{lines_of, trimmed};
use crate::paths::{inside, parent_of, path_named};
use crate::session::{further, Answer, Ask, Kind, Run, Tape};
use crate::signatures::commits_from;
use crate::text::Text;
use crate::worktree::{
    capture_script, common_dir_script, occupant_script, occupants_from, ownership_script,
    symbolic_head_script, verify_script, OriginModel,
};

verus! {

// ---------------------------------------------------------------------------
// Files that nobody tracks
// ---------------------------------------------------------------------------
/// Whether a path was looked at with request number `i`, and held this.
pub open spec fn was_seen(
    path: Text,
    state: FileStateModel,
    tape: Tape,
    later: Tape,
    i: int,
) -> bool {
    &&& was_asked(Ask::Kind(path), tape, later, i)
    &&& match state {
        FileStateModel::Symlink(target) => later.log[i] == Answer::Kind(Kind::Symlink) && was_asked(
            Ask::ReadLink(path),
            tape,
            later,
            i + 1,
        ) && later.log[i + 1] == Answer::Text(target),
        FileStateModel::File(bytes) => later.log[i] is Kind && was_asked(
            Ask::ReadBytes(path),
            tape,
            later,
            i + 1,
        ) && later.log[i + 1] == Answer::Bytes(bytes),
    }
}

/// Whether a path was looked at, and held this.
pub open spec fn was_seen_again(path: Text, state: FileStateModel, tape: Tape, later: Tape) -> bool {
    exists|i: int| #[trigger] was_seen(path, state, tape, later, i)
}

/// Whether a directory was looked for, and was there.
pub open spec fn directory_was_seen(path: Text, tape: Tape, later: Tape, i: int) -> bool {
    was_asked(Ask::Target(path), tape, later, i) && later.log[i] == Answer::Kind(Kind::Directory)
}

proof fn sights_stay(
    path: Text,
    state: FileStateModel,
    start: Tape,
    tape: Tape,
    mid: Tape,
    later: Tape,
)
    requires
        continues(tape, start),
        continues(mid, tape),
        continues(later, mid),
        was_seen_again(path, state, tape, mid),
    ensures
        was_seen_again(path, state, start, later),
{
    let i = choose|i: int| #[trigger] was_seen(path, state, tape, mid, i);
    reveal(continues);
    assert(later.asks[i] == mid.asks[i]);
    assert(later.asks[i + 1] == mid.asks[i + 1]);
    assert(was_seen(path, state, start, later, i));
}

proof fn unchanged_files_are_seen(
    files: Seq<(Text, FileStateModel)>,
    known: Seq<Text>,
    probe: Text,
    tape: Tape,
)
    requires
        is_complete(tape),
    ensures
        continues(left_by(file_changed_script(files, known, probe, tape)), tape),
        file_changed_script(files, known, probe, tape) matches Run::Gives(changed, later) ==> (
        !changed ==> forall|k: int|
            0 <= k < files.len() && !known.contains(relative_to(files[k].0, probe))
                ==> was_seen_again((#[trigger] files[k]).0, files[k].1, tape, later)),
    decreases files.len(),
{
    going_on_adds_up();
    walking_goes_on();
    if files.len() > 0 {
        let rest = files.drop_first();
        if known.contains(relative_to(files[0].0, probe)) {
            unchanged_files_are_seen(rest, known, probe, tape);
            assert forall|k: int|
                0 <= k < files.len() && !known.contains(relative_to(files[k].0, probe))
                    && file_changed_script(files, known, probe, tape) matches Run::Gives(
                    false,
                    _,
                ) implies was_seen_again(
                (#[trigger] files[k]).0,
                files[k].1,
                tape,
                left_by(file_changed_script(files, known, probe, tape)),
            ) by {
                assert(rest[k - 1] == files[k]);
            }
        } else if let Run::Gives(found, t1) = worktree_file_script(files[0].0, tape) {
            assert(continues(t1, tape));
            unchanged_files_are_seen(rest, known, probe, t1);
            let run = file_changed_script(files, known, probe, tape);
            let later = left_by(run);
            if run matches Run::Gives(false, _) {
                assert(continues(later, t1));
                reveal(worktree_file_script);
                assert(was_seen(files[0].0, files[0].1, tape, t1, tape.next));
                assert forall|k: int|
                    0 <= k < files.len() && !known.contains(
                        relative_to(files[k].0, probe),
                    ) implies was_seen_again((#[trigger] files[k]).0, files[k].1, tape, later) by {
                    if k == 0 {
                        assert(was_seen_again(files[0].0, files[0].1, tape, t1));
                        assert(continues(tape, tape));
                        sights_stay(files[0].0, files[0].1, tape, tape, t1, later);
                    } else {
                        assert(rest[k - 1] == files[k]);
                        assert(continues(later, later));
                        sights_stay(files[k].0, files[k].1, tape, t1, later, later);
                    }
                }
            }
        }
    }
}

proof fn kept_directories_are_seen(paths: Seq<Text>, tape: Tape)
    requires
        is_complete(tape),
    ensures
        continues(left_by(directory_gone_script(paths, tape)), tape),
        directory_gone_script(paths, tape) matches Run::Gives(gone, later) ==> (!gone ==> forall|
            k: int,
        |
            0 <= k < paths.len() ==> directory_was_seen(
                #[trigger] paths[k],
                tape,
                later,
                tape.next + k,
            )),
    decreases paths.len(),
{
    going_on_adds_up();
    requests_are_exchanges();
    if paths.len() > 0 {
        let rest = paths.drop_first();
        if let Run::Gives(there, t1) = leads_to_script(paths[0], Kind::Directory, tape) {
            reveal(leads_to_script);
            assert(continues(t1, tape));
            kept_directories_are_seen(rest, t1);
            let run = directory_gone_script(paths, tape);
            let later = left_by(run);
            if run matches Run::Gives(false, _) {
                assert(continues(later, t1));
                reveal(continues);
                assert(later.asks[tape.next] == t1.asks[tape.next]);
                assert forall|k: int| 0 <= k < paths.len() implies directory_was_seen(
                    #[trigger] paths[k],
                    tape,
                    later,
                    tape.next + k,
                ) by {
                    if k > 0 {
                        assert(rest[k - 1] == paths[k]);
                    }
                }
            }
        }
    }
}

/// What git is told to do to a worktree: to bring it to a commit, or to put the tree of
/// one into it.
pub open spec fn doing(operation: Operation, target: Text) -> Seq<Text> {
    match operation {
        Operation::Reset => seq!["reset"@, "--hard"@, "--quiet"@, target],
        Operation::Restore => seq!["read-tree"@, "-u"@, "--reset"@, target + "^{tree}"@],
    }
}

/// Whether git did this in the copy with request number `i`.
pub open spec fn was_tried(
    probe: Text,
    operation: Operation,
    target: Text,
    env: Seq<(Text, Text)>,
    tape: Tape,
    later: Tape,
    i: int,
) -> bool {
    &&& was_asked(
        Ask::Git { dir: probe, args: doing(operation, target), env, clean: true, input: None },
        tape,
        later,
        i,
    )
    &&& spoken(later.log[i]) is Some
}

/// Whether an operation was tried in a copy and took nothing away that git does not
/// have: every file that the index does not hold was seen again as it was, and every
/// empty directory is still there.
pub open spec fn nothing_was_lost(
    probe: Text,
    target: Text,
    operation: Operation,
    env: Seq<(Text, Text)>,
    tape: Tape,
    later: Tape,
) -> bool {
    &&& empty_directories_script(probe, tape) matches Run::Gives(empty, t1)
    &&& worktree_files_script(probe, t1) matches Run::Gives(files, t2)
    &&& tracked_paths_script(probe, env, t2) matches Run::Gives(known, t3)
    &&& was_tried(probe, operation, target, env, tape, later, t3.next)
    &&& forall|k: int|
        0 <= k < empty.len() ==> directory_was_seen(
            #[trigger] empty[k],
            tape,
            later,
            t3.next + 1 + k,
        )
    &&& forall|k: int|
        0 <= k < files.len() && !known.contains(relative_to(files[k].0, probe)) ==> was_seen_again(
            (#[trigger] files[k]).0,
            files[k].1,
            t3,
            later,
        )
}

/// An operation goes through in the copy only where nothing is lost.
pub proof fn nothing_untracked_is_lost(
    probe: Text,
    target: Text,
    operation: Operation,
    env: Seq<(Text, Text)>,
    tape: Tape,
)
    requires
        is_complete(tape),
    ensures
        continues(left_by(attempt_script(probe, target, operation, env, tape)), tape),
        attempt_script(probe, target, operation, env, tape) matches Run::Gives(_, later)
            ==> nothing_was_lost(probe, target, operation, env, tape, later),
{
    going_on_adds_up();
    git_goes_on();
    walking_goes_on();
    attempting_goes_on();
    let run = attempt_script(probe, target, operation, env, tape);
    let later = left_by(run);
    if run is Gives {
        reveal(attempt_script);
        if let Run::Gives(empty, t1) = empty_directories_script(probe, tape) {
            assert(continues(t1, tape));
            if let Run::Gives(files, t2) = worktree_files_script(probe, t1) {
                assert(continues(t2, t1));
                if let Run::Gives(known, t3) = tracked_paths_script(probe, env, t2) {
                    tracking_goes_on(probe, env, t2);
                    assert(continues(t3, tape));
                    let args = doing(operation, target);
                    if let Run::Gives(_, t4) = git::run_with_clean_env_script(
                        probe,
                        args,
                        env,
                        t3,
                    ) {
                        assert(continues(t4, t3));
                        kept_directories_are_seen(empty, t4);
                        let t5 = left_by(directory_gone_script(empty, t4));
                        unchanged_files_are_seen(files, known, probe, t5);
                        assert(continues(t5, t4));
                        assert(continues(t5, t3));
                        assert(continues(later, t5));
                        assert(continues(later, t4));
                        reveal(git::run_with_clean_env_script);
                        reveal(git::captured);
                        assert forall|k: int|
                            0 <= k < files.len() && !known.contains(
                                relative_to(files[k].0, probe),
                            ) implies was_seen_again(
                            (#[trigger] files[k]).0,
                            files[k].1,
                            t3,
                            later,
                        ) by {
                            assert(continues(later, later));
                            sights_stay(files[k].0, files[k].1, t3, t5, later, later);
                        }
                        reveal(continues);
                        assert(later.asks[t3.next] == t4.asks[t3.next]);
                        assert(was_tried(probe, operation, target, env, tape, later, t3.next));
                        assert forall|k: int| 0 <= k < empty.len() implies directory_was_seen(
                            #[trigger] empty[k],
                            tape,
                            later,
                            t3.next + 1 + k,
                        ) by {
                            assert(directory_was_seen(empty[k], t4, t5, t4.next + k));
                            assert(later.asks[t4.next + k] == t5.asks[t4.next + k]);
                        }
                    }
                }
            }
        }
    }
}

proof fn tracking_goes_on(probe: Text, env: Seq<(Text, Text)>, tape: Tape)
    requires
        is_complete(tape),
    ensures
        continues(left_by(tracked_paths_script(probe, env, tape)), tape),
{
    going_on_adds_up();
    git_goes_on();
    reveal(tracked_paths_script);
}

/// Whether an operation was tried somewhere in a copy, and nothing was lost.
pub open spec fn was_tried_in(probe: Text, commit: Text, operation: Operation) -> bool {
    exists|env: Seq<(Text, Text)>, seen: Tape, end: Tape| #[trigger]
        nothing_was_lost(probe, commit, operation, env, seen, end)
}

/// An operation passes only after it was tried on a copy beside the repository, with the
/// commit that git says the target is, and nothing was lost there. The copy is removed.
pub proof fn an_operation_is_tried_on_a_copy(
    repo: Text,
    rehearsed: Text,
    target: Text,
    operation: Operation,
    tape: Tape,
)
    requires
        is_complete(tape),
    ensures
        check_operation_script(repo, rehearsed, target, operation, tape) matches Run::Gives(
            _,
            later,
        ) ==> {
            let first = tape.next;
            &&& later.log[first] matches Answer::Text(probe) && {
                &&& was_asked(
                    Ask::TempDir(
                        match parent_of(repo) {
                            Some(parent) => parent,
                            None => repo,
                        },
                        ".git-rehearse-apply-"@,
                    ),
                    tape,
                    later,
                    first,
                )
                &&& was_asked(Ask::DropTemp(probe), tape, later, later.next - 1)
                &&& was_asked(
                    git_in(rehearsed, seq!["rev-parse"@, "--verify"@, target]),
                    tape,
                    later,
                    first + 2,
                )
                &&& spoken(later.log[first + 2]) matches Some(commit) && was_tried_in(
                    probe,
                    commit,
                    operation,
                )
            }
        },
{
    going_on_adds_up();
    requests_are_exchanges();
    git_goes_on();
    files_go_on();
    walking_goes_on();
    configuring_goes_on();
    reveal(check_operation_script);
    let run = check_operation_script(repo, rehearsed, target, operation, tape);
    let later = left_by(run);
    if run is Gives {
        let probe = tape.log[tape.next]->Text_0;
        let parent = match parent_of(repo) {
            Some(parent) => parent,
            None => repo,
        };
        let t1 = further(tape, Ask::TempDir(parent, ".git-rehearse-apply-"@));
        assert(continues(t1, tape));
        reveal(probe_script);
        reveal(subject_script);
        let t2 = further(t1, git_in(repo, seq!["rev-parse"@, "--verify"@, "HEAD"@]));
        let t3 = further(t2, git_in(rehearsed, seq!["rev-parse"@, "--verify"@, target]));
        assert(continues(t2, t1));
        assert(continues(t3, t2));
        if let Run::Gives(subject, t4) = subject_script(repo, rehearsed, target, t1) {
            reveal(git_path_script);
            assert(continues(t4, t3));
            assert(spoken(t2.log[t2.next]) == Some(subject.target));
            let template = inside(probe, "template"@);
            let t5 = further(t4, Ask::CreateDir(template));
            assert(do_script(Ask::CreateDir(template), template, t4) is Gives);
            assert(continues(t5, t4));
            let t6 = further(t5, Ask::JoinPaths(subject.objects, subject.rehearsed_objects));
            assert(continues(t6, t5));
            let env = probe_env(probe, t5.log[t5.next]->Text_0);
            building_goes_on(repo, probe, subject, env, t6);
            let t7 = left_by(build_probe_script(repo, probe, subject, env, t6));
            let t8 = left_by(
                remove_ignore_files_script(probe, repo, rehearsed, subject.target, t7),
            );
            assert(continues(t8, t7));
            nothing_untracked_is_lost(probe, subject.target, operation, env, t8);
            let t9 = left_by(attempt_script(probe, subject.target, operation, env, t8));
            assert(nothing_was_lost(probe, subject.target, operation, env, t8, t9));
            assert(later == further(t9, Ask::DropTemp(probe)));
            assert(continues(t9, t3));
            assert(continues(later, t9));
            reveal(continues);
            assert(later.asks[tape.next] == t3.asks[tape.next]);
            assert(later.asks[tape.next + 2] == t3.asks[tape.next + 2]);
        }
    }
}

proof fn building_goes_on(
    repo: Text,
    probe: Text,
    subject: SubjectModel,
    env: Seq<(Text, Text)>,
    tape: Tape,
)
    requires
        is_complete(tape),
    ensures
        continues(left_by(build_probe_script(repo, probe, subject, env, tape)), tape),
{
    going_on_adds_up();
    git_goes_on();
    files_go_on();
    walking_goes_on();
    configuring_goes_on();
    reveal(build_probe_script);
}

// ---------------------------------------------------------------------------
// Other worktrees
// ---------------------------------------------------------------------------
/// Whether a worktree is the one that was recorded: git names the same directories.
pub proof fn an_origin_is_told(origin: OriginModel, repo: Text, tape: Tape)
    requires
        is_complete(tape),
    ensures
        verify_script(origin, repo, tape) matches Run::Gives(_, later) ==> {
            let first = tape.next;
            &&& was_asked(
                git_in(repo, seq!["rev-parse"@, "--absolute-git-dir"@]),
                tape,
                later,
                first,
            )
            &&& was_asked(
                git_in(
                    repo,
                    seq!["rev-parse"@, "--path-format=absolute"@, "--git-common-dir"@],
                ),
                tape,
                later,
                first + 1,
            )
            &&& spoken(later.log[first]) matches Some(dir) && was_asked(
                Ask::Canonicalize(path_named(dir)),
                tape,
                later,
                first + 3,
            )
            &&& spoken(later.log[first + 1]) matches Some(common) && was_asked(
                Ask::Canonicalize(path_named(common)),
                tape,
                later,
                first + 2,
            )
            &&& later.log[first + 2] == Answer::Text(origin.common_dir)
            &&& later.log[first + 3] == Answer::Text(origin.git_dir)
        },
{
    going_on_adds_up();
    requests_are_exchanges();
    reveal(verify_script);
    reveal(capture_script);
    reveal(common_dir_script);
    reveal(git::canonicalize_script);
}

/// The full name of a branch that a file of an operation in progress names.
pub open spec fn full_name(owner: Text) -> Text {
    if "refs/heads/"@.is_prefix_of(owner) {
        owner
    } else {
        "refs/heads/"@ + owner
    }
}

/// An operation in progress in another worktree that will put a branch back is found:
/// what is written down there does not name an affected branch.
pub proof fn operations_in_progress_are_seen(
    admin: Text,
    state: Text,
    other: bool,
    affected: Seq<Text>,
    tape: Tape,
)
    requires
        is_complete(tape),
    ensures
        continues(left_by(ownership_script(admin, state, other, affected, tape)), tape),
        ownership_script(admin, state, other, affected, tape) matches Run::Gives(_, later) ==> {
            &&& was_asked(Ask::ReadText(inside(admin, state)), tape, later, tape.next)
            &&& later.log[tape.next] matches Answer::Text(owner) ==> trimmed(owner).len() > 0 && (
            other ==> !affected.contains(full_name(trimmed(owner))))
        },
{
    going_on_adds_up();
    requests_are_exchanges();
    files_go_on();
    reveal(ownership_script);
    reveal(read_text_script);
    reveal(continues);
}

/// Whether git was asked in a worktree with request number `i` for its branch, and it is
/// on none of the affected ones.
pub open spec fn is_on_no_affected_branch(
    path: Text,
    affected: Seq<Text>,
    tape: Tape,
    later: Tape,
    i: int,
) -> bool {
    &&& was_asked(git_in(path, seq!["symbolic-ref"@, "--quiet"@, "HEAD"@]), tape, later, i)
    &&& spoken(later.log[i]) matches Some(branch) ==> !affected.contains(branch)
}

/// A worktree other than the origin passes only where it is on no affected branch and is
/// what it was registered as.
pub proof fn another_worktree_holds_no_affected_branch(
    path: Text,
    origin: Text,
    common: Text,
    affected: Seq<Text>,
    tape: Tape,
)
    requires
        is_complete(tape),
        path != origin,
    ensures
        occupant_script(path, origin, common, affected, tape) matches Run::Gives(_, later) ==> {
            let first = tape.next;
            &&& was_asked(git_in(path, seq!["rev-parse"@, "--show-toplevel"@]), tape, later, first)
            &&& later.log[first + 1] == Answer::Text(path)
            &&& later.log[first + 3] == Answer::Text(common)
            &&& is_on_no_affected_branch(path, affected, tape, later, first + 4)
        },
{
    going_on_adds_up();
    requests_are_exchanges();
    files_go_on();
    reveal(occupant_script);
    reveal(common_dir_script);
    reveal(symbolic_head_script);
    reveal(git::canonicalize_script);
    let run = occupant_script(path, origin, common, affected, tape);
    if let Run::Gives(_, later) = run {
        let words = seq!["rev-parse"@, "--show-toplevel"@];
        let common_words = seq!["rev-parse"@, "--path-format=absolute"@, "--git-common-dir"@];
        let t1 = further(tape, git_in(path, words));
        let top = spoken(tape.log[tape.next])->0;
        let t2 = further(t1, Ask::Canonicalize(path_named(top)));
        let t3 = further(t2, git_in(path, common_words));
        let shared = spoken(t2.log[t2.next])->0;
        let t4 = further(t3, Ask::Canonicalize(path_named(shared)));
        let t5 = further(t4, git_in(path, seq!["symbolic-ref"@, "--quiet"@, "HEAD"@]));
        assert(continues(t1, tape));
        assert(continues(t2, t1));
        assert(continues(t3, t2));
        assert(continues(t4, t3));
        assert(continues(t5, t4));
        reveal(capture_script);
        if let Run::Gives(admin, t6) = capture_script(path, t5) {
            assert(continues(t6, t5));
            let dir = admin.git_dir;
            operations_in_progress_are_seen(dir, "rebase-merge/head-name"@, true, affected, t6);
            let t7 = left_by(
                ownership_script(dir, "rebase-merge/head-name"@, true, affected, t6),
            );
            operations_in_progress_are_seen(dir, "rebase-apply/head-name"@, true, affected, t7);
            let t8 = left_by(
                ownership_script(dir, "rebase-apply/head-name"@, true, affected, t7),
            );
            operations_in_progress_are_seen(dir, "BISECT_START"@, true, affected, t8);
            let t9 = left_by(ownership_script(dir, "BISECT_START"@, true, affected, t8));
            assert(continues(later, t9));
            assert(continues(later, t5));
            reveal(continues);
            assert(later.asks[tape.next] == t5.asks[tape.next]);
            assert(later.asks[tape.next + 4] == t5.asks[tape.next + 4]);
        }
    }
}

/// Whether a worktree was checked and passed.
pub open spec fn was_checked(path: Text, origin: Text, common: Text, affected: Seq<Text>) -> bool {
    exists|seen: Tape| #[trigger]
        occupant_script(path, origin, common, affected, seen) is Gives
}

/// How often a text is among others.
pub open spec fn times(texts: Seq<Text>, text: Text) -> nat
    decreases texts.len(),
{
    if texts.len() == 0 {
        0
    } else {
        times(texts.drop_first(), text) + if texts[0] == text {
            1nat
        } else {
            0nat
        }
    }
}

/// Every registered worktree is checked, and the origin is one of them, once.
pub proof fn every_worktree_is_checked(
    paths: Seq<Text>,
    origin: Text,
    common: Text,
    affected: Seq<Text>,
    seen: int,
    tape: Tape,
)
    ensures
        occupants_from(paths, origin, common, affected, seen, tape) is Gives ==> seen + times(
            paths,
            origin,
        ) == 1,
        occupants_from(paths, origin, common, affected, seen, tape) is Gives ==> forall|k: int|
            0 <= k < paths.len() ==> was_checked(#[trigger] paths[k], origin, common, affected),
    decreases paths.len(),
{
    if paths.len() > 0 {
        let rest = paths.drop_first();
        let first = occupant_script(paths[0], origin, common, affected, tape);
        if let Run::Gives(_, t1) = first {
            let now = if paths[0] == origin {
                seen + 1
            } else {
                seen
            };
            every_worktree_is_checked(rest, origin, common, affected, now, t1);
            if occupants_from(paths, origin, common, affected, seen, tape) is Gives {
                assert(was_checked(paths[0], origin, common, affected));
                assert forall|k: int| 0 <= k < paths.len() implies was_checked(
                    #[trigger] paths[k],
                    origin,
                    common,
                    affected,
                ) by {
                    if k > 0 {
                        assert(rest[k - 1] == paths[k]);
                    }
                }
            }
        }
    }
}

// ---------------------------------------------------------------------------
// Commits that a move brings in
// ---------------------------------------------------------------------------
proof fn placing_adds(texts: Seq<Text>, text: Text)
    ensures
        forall|other: Text|
            #[trigger] placed(texts, text).contains(other) <==> texts.contains(other) || other
                == text,
    decreases texts.len(),
{
    if texts.len() == 0 {
        assert(placed(texts, text)[0] == text);
    } else {
        let rest = texts.drop_last();
        let last = texts.last();
        placing_adds(rest, text);
        assert(texts =~= rest.push(last));
        assert forall|other: Text| #[trigger] placed(texts, text).contains(other) <==> (
        texts.contains(other) || other == text) by {
            if texts.contains(other) {
                let k = choose|k: int| 0 <= k < texts.len() && texts[k] == other;
                if k < rest.len() {
                    assert(rest[k] == other);
                    assert(placed(rest, text).contains(other));
                }
            }
            pushing_adds(texts, text, other);
            pushing_adds(placed(rest, text), last, other);
            pushing_adds(rest, last, other);
        }
    }
}

proof fn pushing_adds(texts: Seq<Text>, text: Text, other: Text)
    ensures
        texts.push(text).contains(other) <==> texts.contains(other) || other == text,
{
    let more = texts.push(text);
    assert(more[texts.len() as int] == text);
    if texts.contains(other) {
        let k = choose|k: int| 0 <= k < texts.len() && texts[k] == other;
        assert(more[k] == other);
    }
    if more.contains(other) && other != text {
        let k = choose|k: int| 0 <= k < more.len() && more[k] == other;
        assert(texts[k] == other);
    }
}

proof fn placing_all_adds(texts: Seq<Text>, more: Seq<Text>)
    ensures
        forall|other: Text|
            #[trigger] placed_all(texts, more).contains(other) <==> texts.contains(other)
                || more.contains(other),
    decreases more.len(),
{
    if more.len() > 0 {
        let rest = more.drop_last();
        placing_all_adds(texts, rest);
        placing_adds(placed_all(texts, rest), more.last());
        assert(more =~= rest.push(more.last()));
        assert forall|other: Text| #[trigger] placed_all(texts, more).contains(other) <==> (
        texts.contains(other) || more.contains(other)) by {
            pushing_adds(rest, more.last(), other);
            assert(placed_all(texts, rest).contains(other) <==> (texts.contains(other)
                || rest.contains(other)));
        }
    }
}

/// The arguments that ask git for the commits that a move brings in.
pub open spec fn brought_in_words(moved: RefMoveModel) -> Seq<Text> {
    let after = moved.after->0;
    match moved.before {
        Some(before) => seq!["rev-list"@, after, "^"@ + before, "--"@],
        None => seq!["rev-list"@, after, "--"@],
    }
}

/// Whether git was asked for the commits that a move brings in, and each of them and the
/// new tip are among these.
pub open spec fn are_brought_in(
    worktree: Text,
    moved: RefMoveModel,
    commits: Seq<Text>,
    tape: Tape,
    later: Tape,
    i: int,
) -> bool {
    &&& was_asked(git_in(worktree, brought_in_words(moved)), tape, later, i)
    &&& commits.contains(moved.after->0)
    &&& spoken(later.log[i]) matches Some(listing) && forall|k: int|
        0 <= k < lines_of(listing).len() ==> commits.contains(#[trigger] lines_of(listing)[k])
}

/// Every commit that a move brings in is examined.
pub proof fn every_commit_brought_in_is_examined(
    worktree: Text,
    moves: Seq<RefMoveModel>,
    found: Seq<Text>,
    tape: Tape,
)
    requires
        is_complete(tape),
    ensures
        continues(left_by(commits_from(worktree, moves, found, tape)), tape),
        commits_from(worktree, moves, found, tape) matches Run::Gives(commits, later) ==> {
            &&& forall|k: int| 0 <= k < found.len() ==> commits.contains(#[trigger] found[k])
            &&& forall|m: int|
                0 <= m < moves.len() && moves[m].after is Some ==> exists|i: int|
                    are_brought_in(worktree, #[trigger] moves[m], commits, tape, later, i)
        },
    decreases moves.len(),
{
    going_on_adds_up();
    requests_are_exchanges();
    let run = commits_from(worktree, moves, found, tape);
    if moves.len() == 0 {
        assert(forall|k: int| 0 <= k < found.len() ==> found.contains(#[trigger] found[k]));
    } else {
        let rest = moves.drop_first();
        match moves[0].after {
            None => {
                every_commit_brought_in_is_examined(worktree, rest, found, tape);
                if let Run::Gives(commits, later) = run {
                    assert forall|m: int|
                        0 <= m < moves.len() && moves[m].after is Some implies exists|i: int|
                        are_brought_in(worktree, #[trigger] moves[m], commits, tape, later, i) by {
                        assert(rest[m - 1] == moves[m]);
                    }
                }
            },
            Some(after) => {
                let words = brought_in_words(moves[0]);
                assert(crate::signatures::range_args(moves[0].before, after) =~= words);
                if let Run::Gives(listing, t1) = git::run_script(worktree, words, tape) {
                    let more = placed_all(placed(found, after), lines_of(listing));
                    assert(continues(t1, tape));
                    every_commit_brought_in_is_examined(worktree, rest, more, t1);
                    placing_adds(found, after);
                    placing_all_adds(placed(found, after), lines_of(listing));
                    if let Run::Gives(commits, later) = run {
                        assert(continues(later, t1));
                        assert forall|other: Text| more.contains(other) implies #[trigger]
                            commits.contains(other) by {
                            let k = choose|k: int| 0 <= k < more.len() && more[k] == other;
                            assert(commits.contains(more[k]));
                        }
                        assert forall|k: int| 0 <= k < found.len() implies commits.contains(
                            #[trigger] found[k],
                        ) by {
                            assert(placed(found, after).contains(found[k]));
                            assert(more.contains(found[k]));
                        }
                        assert(placed(found, after).contains(after));
                        assert(more.contains(after));
                        assert forall|k: int|
                            0 <= k < lines_of(listing).len() implies commits.contains(
                            #[trigger] lines_of(listing)[k],
                        ) by {
                            assert(lines_of(listing).contains(lines_of(listing)[k]));
                            assert(more.contains(lines_of(listing)[k]));
                        }
                        reveal(continues);
                        assert(later.asks[tape.next] == t1.asks[tape.next]);
                        assert(are_brought_in(
                            worktree,
                            moves[0],
                            commits,
                            tape,
                            later,
                            tape.next,
                        ));
                        assert forall|m: int|
                            0 <= m < moves.len() && moves[m].after is Some implies exists|i: int|
                            are_brought_in(
                                worktree,
                                #[trigger] moves[m],
                                commits,
                                tape,
                                later,
                                i,
                            ) by {
                            if m > 0 {
                                assert(rest[m - 1] == moves[m]);
                                let moved = rest[m - 1];
                                let i = choose|i: int|
                                    are_brought_in(worktree, moved, commits, t1, later, i);
                                assert(are_brought_in(
                                    worktree,
                                    moves[m],
                                    commits,
                                    tape,
                                    later,
                                    i,
                                ));
                            }
                        }
                    }
                }
            },
        }
    }
}

} // verus!
