//! Which repositories are rehearsed in, and from where.

use vstd::prelude::*;

use crate::carry;
use crate::execute::zero_separated;
use crate::files::read_text_script;
use crate::git;
use crate::guarantees::applying::{head_words, snapshot_words};
use crate::guarantees::carrying::uncommitted_work_is_snapshotted;
use crate::guarantees::conversation::{
    continues, git_in, going_on_adds_up, is_complete, left_by, requests_are_exchanges, spoken,
    was_asked, was_told,
};
use crate::guarantees::undoing::{branch_words, status_words};
use crate::parts::{has, lines_of};
use crate::paths::{inside, path_named};
use crate::preflight::{self, PreflightModel};
use crate::refs::inserted;
use crate::sandbox::meta::CheckoutModel;
use crate::session::{Answer, Ask, Run, Tape};
use crate::text::Text;

verus! {

/// Whether at most one of the lines names a worktree.
pub open spec fn names_one_worktree(lines: Seq<Text>) -> bool {
    forall|i: int, j: int|
        0 <= i < j < lines.len() ==> !("worktree "@.is_prefix_of(#[trigger] lines[i])
            && "worktree "@.is_prefix_of(#[trigger] lines[j]))
}

proof fn worktrees_are_counted(lines: Seq<Text>)
    ensures
        preflight::worktrees_in(lines) == 0 <==> forall|i: int|
            0 <= i < lines.len() ==> !("worktree "@.is_prefix_of(#[trigger] lines[i])),
        preflight::worktrees_in(lines) <= 1 <==> names_one_worktree(lines),
    decreases lines.len(),
{
    if lines.len() > 0 {
        let rest = lines.drop_last();
        worktrees_are_counted(rest);
        let last = lines.len() - 1;
        let w = "worktree "@;
        assert(forall|i: int| 0 <= i < last ==> #[trigger] rest[i] == lines[i]);
        assert forall|i: int| 0 <= i < last && w.is_prefix_of(#[trigger] rest[i]) implies
            w.is_prefix_of(lines[i]) by {}
        if w.is_prefix_of(lines[last]) {
            assert(!(forall|i: int|
                0 <= i < lines.len() ==> !(w.is_prefix_of(#[trigger] lines[i]))));
            if preflight::worktrees_in(rest) == 0 {
                assert forall|i: int, j: int| 0 <= i < j < lines.len() implies !(w.is_prefix_of(
                    #[trigger] lines[i],
                ) && w.is_prefix_of(#[trigger] lines[j])) by {
                    assert(rest[i] == lines[i]);
                }
            } else {
                let i = choose|i: int| 0 <= i < rest.len() && w.is_prefix_of(#[trigger] rest[i]);
                assert(w.is_prefix_of(lines[i]));
                assert(!names_one_worktree(lines));
            }
        } else {
            if names_one_worktree(rest) {
                assert forall|i: int, j: int| 0 <= i < j < lines.len() implies !(w.is_prefix_of(
                    #[trigger] lines[i],
                ) && w.is_prefix_of(#[trigger] lines[j])) by {
                    if j < last {
                        assert(rest[i] == lines[i]);
                        assert(rest[j] == lines[j]);
                    }
                }
            }
            if names_one_worktree(lines) {
                assert forall|i: int, j: int| 0 <= i < j < rest.len() implies !(w.is_prefix_of(
                    #[trigger] rest[i],
                ) && w.is_prefix_of(#[trigger] rest[j])) by {
                    assert(rest[i] == lines[i]);
                    assert(rest[j] == lines[j]);
                }
            }
            if preflight::worktrees_in(lines) == 0 {
                assert forall|i: int| 0 <= i < lines.len() implies !(w.is_prefix_of(
                    #[trigger] lines[i],
                )) by {
                    if i < last {
                        assert(!(w.is_prefix_of(rest[i])));
                    }
                }
            } else {
                let i = choose|i: int| 0 <= i < rest.len() && w.is_prefix_of(#[trigger] rest[i]);
                assert(w.is_prefix_of(lines[i]));
            }
        }
    }
}

/// Whether attributes were read, with request number `i`, and do not hand files to LFS.
pub open spec fn is_free_of_lfs(repo: Text, name: Text, tape: Tape, later: Tape, i: int) -> bool {
    &&& was_asked(Ask::ReadText(inside(repo, path_named(name))), tape, later, i)
    &&& later.log[i] matches Answer::Text(attributes) ==> !(has(attributes, "filter=lfs"@))
}

proof fn attributes_are_read(repo: Text, names: Seq<Text>, tape: Tape)
    requires
        is_complete(tape),
    ensures
        continues(left_by(preflight::lfs_from(repo, names, tape)), tape),
        preflight::lfs_from(repo, names, tape) matches Run::Gives(_, later) ==> {
            &&& later.next == tape.next + names.len()
            &&& forall|k: int|
                0 <= k < names.len() ==> is_free_of_lfs(
                    repo,
                    #[trigger] names[k],
                    tape,
                    later,
                    tape.next + k,
                )
        },
    decreases names.len(),
{
    going_on_adds_up();
    requests_are_exchanges();
    if names.len() > 0 {
        let file = inside(repo, path_named(names[0]));
        if let Run::Gives(found, mid) = read_text_script(file, tape) {
            let rest = names.drop_first();
            attributes_are_read(repo, rest, mid);
            if let Run::Gives(_, later) = preflight::lfs_from(repo, names, tape) {
                reveal(continues);
                reveal(read_text_script);
                assert forall|k: int| 0 <= k < names.len() implies is_free_of_lfs(
                    repo,
                    #[trigger] names[k],
                    tape,
                    later,
                    tape.next + k,
                ) by {
                    if k > 0 {
                        assert(is_free_of_lfs(repo, rest[k - 1], mid, later, mid.next + (k - 1)));
                    }
                }
            }
        }
    }
}

/// Whether git was asked, from request number `i` on, whether a repository can be
/// rehearsed in, and it can: its history is whole, it has one worktree, no submodules,
/// and no attributes that hand files to LFS.
pub open spec fn is_admissible(repo: Text, tape: Tape, later: Tape, i: int) -> bool {
    &&& was_asked(
        git_in(repo, seq!["rev-parse"@, "--is-shallow-repository"@]),
        tape,
        later,
        i,
    )
    &&& spoken(later.log[i]) matches Some(shallow) && shallow != "true"@
    &&& was_asked(git_in(repo, seq!["worktree"@, "list"@, "--porcelain"@]), tape, later, i + 1)
    &&& spoken(later.log[i + 1]) matches Some(listing) && names_one_worktree(lines_of(listing))
    &&& was_told(repo, seq!["submodule"@, "status"@], Seq::empty(), tape, later, i + 2)
    &&& was_asked(
        git_in(
            repo,
            seq!["ls-files"@, "-z"@, "--"@, ".gitattributes"@, "*/.gitattributes"@],
        ),
        tape,
        later,
        i + 3,
    )
    &&& spoken(later.log[i + 3]) matches Some(names) && forall|k: int|
        0 <= k < zero_separated(names).len() ==> is_free_of_lfs(
            repo,
            #[trigger] zero_separated(names)[k],
            tape,
            later,
            i + 4 + k,
        )
}

proof fn admission_is_asked_for(repo: Text, tape: Tape)
    requires
        is_complete(tape),
    ensures
        continues(left_by(preflight::refuse_unsupported_script(repo, tape)), tape),
        preflight::refuse_unsupported_script(repo, tape) matches Run::Gives(_, later) ==> {
            &&& is_admissible(repo, tape, later, tape.next)
            &&& later.next == tape.next + 4 + zero_separated(
                spoken(later.log[tape.next + 3])->0,
            ).len()
        },
{
    going_on_adds_up();
    requests_are_exchanges();
    reveal(preflight::refuse_unsupported_script);
    reveal(preflight::refuse_if_shallow_script);
    reveal(preflight::refuse_if_multiple_worktrees_script);
    reveal(preflight::refuse_if_submodules_script);
    reveal(preflight::refuse_if_lfs_script);
    let shallow_words = seq!["rev-parse"@, "--is-shallow-repository"@];
    let worktree_words = seq!["worktree"@, "list"@, "--porcelain"@];
    let module_words = seq!["submodule"@, "status"@];
    let attribute_words = seq![
        "ls-files"@,
        "-z"@,
        "--"@,
        ".gitattributes"@,
        "*/.gitattributes"@,
    ];
    if let Run::Gives(_, t1) = git::run_script(repo, shallow_words, tape) {
        assert(continues(t1, tape));
        if let Run::Gives(listing, t2) = git::run_script(repo, worktree_words, t1) {
            assert(continues(t2, t1));
            worktrees_are_counted(lines_of(listing));
            if let Run::Gives(status, t3) = git::run_script(repo, module_words, t2) {
                assert(continues(t3, t2));
                if let Run::Gives(names, t4) = git::run_script(repo, attribute_words, t3) {
                    assert(continues(t4, t3));
                    attributes_are_read(repo, zero_separated(names), t4);
                    if let Run::Gives(_, later) = preflight::refuse_unsupported_script(repo, tape) {
                        assert(status =~= Seq::<char>::empty());
                        assert(continues(later, t4));
                        reveal(continues);
                        assert forall|k: int|
                            0 <= k < zero_separated(names).len() implies is_free_of_lfs(
                            repo,
                            #[trigger] zero_separated(names)[k],
                            tape,
                            later,
                            tape.next + 4 + k,
                        ) by {
                            assert(is_free_of_lfs(
                                repo,
                                zero_separated(names)[k],
                                t4,
                                later,
                                t4.next + k,
                            ));
                        }
                    }
                }
            }
        }
    }
}

/// What a preflight found: where the repository is, what is checked out, where the
/// branches are, and what is uncommitted, all of it as git said it.
pub open spec fn was_found(found: PreflightModel, cwd: Text, tape: Tape, later: Tape) -> bool {
    let first = tape.next;
    let repo = found.repo;
    &&& was_asked(
        git_in(cwd, seq!["rev-parse"@, "--is-bare-repository"@, "--is-inside-work-tree"@]),
        tape,
        later,
        first,
    )
    &&& spoken(later.log[first]) matches Some(facts) && lines_of(facts).len() > 1 && lines_of(
        facts,
    )[0] != "true"@ && lines_of(facts)[1] == "true"@
    &&& was_asked(git_in(cwd, seq!["rev-parse"@, "--show-toplevel"@]), tape, later, first + 1)
    &&& spoken(later.log[first + 1]) matches Some(top) && was_asked(
        Ask::Canonicalize(path_named(top)),
        tape,
        later,
        first + 2,
    )
    &&& later.log[first + 2] == Answer::Text(repo)
    &&& is_admissible(repo, tape, later, first + 3)
    &&& {
        let i = first + 7 + zero_separated(spoken(later.log[first + 6])->0).len();
        &&& was_asked(git_in(repo, head_words()), tape, later, i)
        &&& spoken(later.log[i]) matches Some(commit) && {
            &&& was_asked(git_in(repo, branch_words()), tape, later, i + 1)
            &&& found.checkout == match spoken(later.log[i + 1]) {
                Some(branch) => CheckoutModel::Branch(branch),
                None => CheckoutModel::Detached(commit),
            }
            &&& was_asked(git_in(repo, status_words()), tape, later, i + 2)
            &&& spoken(later.log[i + 2]) matches Some(status) && {
                let paths = carry::paths_in_lines(lines_of(status));
                let last = if paths.len() > 0 {
                    i + 4
                } else {
                    i + 3
                };
                &&& match found.carry {
                    Some(carried) => {
                        &&& paths.len() > 0
                        &&& carried.paths == paths
                        &&& carried.replay is None
                        &&& was_told(repo, snapshot_words(), carried.snapshot, tape, later, i + 3)
                    },
                    None => paths.len() == 0,
                }
                &&& was_asked(
                    git_in(repo, git::refs_args("refs/heads/"@, 0)),
                    tape,
                    later,
                    last,
                )
                &&& spoken(later.log[last]) matches Some(listing) && found.pre_state == inserted(
                    git::refs_in(lines_of(listing)),
                    "HEAD"@,
                    commit,
                )
                &&& later.next == last + 1
            }
        }
    }
}

/// A rehearsal starts only in a repository that it can stand for, and from what git says
/// is there.
pub proof fn what_a_preflight_found(cwd: Text, tape: Tape, found: PreflightModel, later: Tape)
    requires
        is_complete(tape),
        preflight::run_script(cwd, tape) == Run::Gives(found, later),
    ensures
        was_found(found, cwd, tape, later),
{
    going_on_adds_up();
    requests_are_exchanges();
    reveal(preflight::run_script);
    reveal(preflight::locate_script);
    reveal(preflight::head_script);
    reveal(git::refs_script);
    reveal(git::canonicalize_script);
    reveal(carry::snapshot_script);
    if let Run::Gives(repo, t1) = preflight::locate_script(cwd, tape) {
        assert(t1.next == tape.next + 3);
        assert(continues(t1, tape));
        admission_is_asked_for(repo, t1);
        if let Run::Gives(_, t2) = preflight::refuse_unsupported_script(repo, t1) {
            assert(continues(t2, t1));
            if let Run::Gives(head, t3) = preflight::head_script(repo, t2) {
                assert(continues(t3, t2));
                if let Run::Gives(carried, t4) = carry::snapshot_script(repo, t3) {
                    assert(continues(t4, t3));
                    uncommitted_work_is_snapshotted(repo, t3, carried, t4);
                    assert(continues(later, t4));
                    admissions_widen(repo, tape, t1, t2, later);
                    reveal(continues);
                }
            }
        }
    }
}

proof fn admissions_widen(repo: Text, earlier: Tape, tape: Tape, after: Tape, later: Tape)
    requires
        continues(tape, earlier),
        continues(after, tape),
        continues(later, after),
        is_admissible(repo, tape, after, tape.next),
    ensures
        is_admissible(repo, earlier, later, tape.next),
{
    reveal(continues);
    let names = zero_separated(spoken(later.log[tape.next + 3])->0);
    assert forall|k: int| 0 <= k < names.len() implies is_free_of_lfs(
        repo,
        #[trigger] names[k],
        earlier,
        later,
        tape.next + 4 + k,
    ) by {
        assert(is_free_of_lfs(repo, names[k], tape, after, tape.next + 4 + k));
    }
}

} // verus!
