//! What procedures ask for: which requests leave the user's repository as it
//! is, which of them nobody at the terminal notices, and that the procedures of
//! a rehearsal make no others.

use vstd::prelude::*;

use crate::analyze::{self, RefMoveModel};
use crate::carry;
use crate::execute;
use crate::files::{
    do_script, kind_script, leads_to_script, list_script, present_script, read_bytes_script,
    read_text_script,
};
use crate::git;
use crate::guarantees::places::{
    are_names, below_is_transitive, fixed_names_stay, inside_is_within, is_below,
    nothing_is_below_both, within, Reach,
};
use crate::now_script;
use crate::paths::{inside, path_named};
use crate::preflight;
use crate::refs::Entries;
use crate::report::{graphs_from, graphs_script, log_graph_script, Detail, GraphModel};
use crate::sandbox::meta;
use crate::sandbox::{worktree_of, SandboxModel};
use crate::session::{Answer, Ask, Run, Tape};
use crate::text::Text;
use crate::worktree;

verus! {

// ---------------------------------------------------------------------------
// Requests
// ---------------------------------------------------------------------------
/// Whether a git command only looks. Objects that nothing refers to, as `stash
/// create` writes them, are nothing that the user sees.
pub open spec fn is_reading(args: Seq<Text>) -> bool {
    ||| args.len() > 0 && (args[0] == "rev-parse"@ || args[0] == "for-each-ref"@ || args[0]
        == "status"@ || args[0] == "ls-files"@ || args[0] == "ls-tree"@)
    ||| args == seq!["symbolic-ref"@, "--quiet"@, "--short"@, "HEAD"@]
    ||| args == seq!["stash"@, "create"@]
    ||| args == seq!["hash-object"@, "--stdin"@]
}

/// Whether a git command only looks at the repository it runs in, or takes
/// commits out of it into one within reach.
pub open spec fn is_looking(args: Seq<Text>, reach: Reach) -> bool {
    ||| is_reading(args)
    ||| args == seq!["worktree"@, "list"@, "--porcelain"@]
    ||| args == seq!["submodule"@, "status"@]
    ||| args.len() == 3 && args[0] == "config"@ && args[1] == "--get"@
    ||| args == seq![
        "config"@,
        "--local"@,
        "--show-origin"@,
        "-z"@,
        "--get-regexp"@,
        "^merge\\."@,
    ]
    ||| args.len() == 6 && args[0] == "push"@ && args[1] == "--quiet"@ && args[2] == "--no-verify"@
        && args[3] == "--no-follow-tags"@ && within(args[4], reach)
}

/// Whether a git command works on nothing but the repository it runs in, or makes
/// one within reach. A push is none of them, whatever it runs in.
pub open spec fn is_local(dir: Text, args: Seq<Text>, reach: Reach) -> bool {
    ||| args.len() > 0 && (args[0] == "checkout"@ || args[0] == "update-ref"@ || args[0]
        == "remote"@ || args[0] == "diff"@ || args[0] == "log"@ || args[0] == "rev-list"@ || args[0]
        == "range-diff"@)
    ||| args.len() > 1 && args[0] == "stash"@ && args[1] == "apply"@
    ||| args.len() == 3 && args[0] == "config"@ && !"-"@.is_prefix_of(args[1])
    ||| args.len() == 7 && args[0] == "clone"@ && args[4] == "--"@ && within(
        inside(dir, args[6]),
        reach,
    )
}

/// Whether git may run these arguments there.
pub open spec fn may_run(dir: Text, args: Seq<Text>, reach: Reach) -> bool {
    is_looking(args, reach) || (within(dir, reach) && is_local(dir, args, reach))
}

/// Whether a request leaves everything as it is that is not within reach. What
/// the command does that the user rehearses is up to them; it runs within reach.
pub open spec fn spares(ask: Ask, reach: Reach) -> bool {
    match ask {
        Ask::Git { dir, args, env, .. } => env.len() == 0 && may_run(dir, args, reach),
        Ask::Spawn { dir, .. } => within(dir, reach),
        Ask::Prepare { .. } => false,
        Ask::Commit => false,
        Ask::Abort => false,
        Ask::Write(path, _) => within(path, reach),
        Ask::WriteSynced(path, _) => within(path, reach),
        Ask::SyncDir(path) => within(path, reach),
        Ask::Rename(from, to) => within(from, reach) && within(to, reach),
        Ask::HardLink(from, to) => within(from, reach) && within(to, reach),
        Ask::Copy(from, to) => within(to, reach),
        Ask::Symlink(target, path, _) => within(path, reach),
        Ask::CreateDir(path) => within(path, reach),
        Ask::CreateDirs(path) => within(path, reach),
        Ask::RemoveFile(path) => within(path, reach),
        Ask::RemoveDir(path) => within(path, reach),
        Ask::RemoveTree(path) => within(path, reach),
        Ask::TempDir(parent, _) => within(parent, reach),
        Ask::TempFile(parent, _) => within(parent, reach),
        Ask::DropTemp(path) => within(path, reach),
        Ask::Lock(path) => within(path, reach),
        Ask::Unlock(path) => within(path, reach),
        _ => true,
    }
}

/// Whether a request changes something in a directory: git is told there to do
/// more than to look, or from elsewhere to push there, or a file below it is
/// written, moved or removed.
pub open spec fn disturbs(ask: Ask, place: Text) -> bool {
    match ask {
        Ask::Git { dir, args, .. } => {
            ||| is_below(dir, place) && !is_looking(args, Reach::Anywhere)
            ||| args.len() > 4 && args[0] == "push"@ && is_below(args[4], place)
        },
        Ask::Spawn { dir, .. } => is_below(dir, place),
        Ask::Prepare { dir, .. } => is_below(dir, place),
        Ask::Write(path, _) => is_below(path, place),
        Ask::WriteSynced(path, _) => is_below(path, place),
        Ask::SyncDir(path) => is_below(path, place),
        Ask::Rename(from, to) => is_below(from, place) || is_below(to, place),
        Ask::HardLink(from, to) => is_below(from, place) || is_below(to, place),
        Ask::Copy(from, to) => is_below(to, place),
        Ask::Symlink(target, path, _) => is_below(path, place),
        Ask::CreateDir(path) => is_below(path, place),
        Ask::CreateDirs(path) => is_below(path, place),
        Ask::RemoveFile(path) => is_below(path, place),
        Ask::RemoveDir(path) => is_below(path, place),
        Ask::RemoveTree(path) => is_below(path, place) || is_below(place, path),
        Ask::TempDir(parent, _) => is_below(parent, place),
        Ask::TempFile(parent, _) => is_below(parent, place),
        Ask::DropTemp(path) => is_below(path, place) || is_below(place, path),
        Ask::Lock(path) => is_below(path, place),
        Ask::Unlock(path) => is_below(path, place),
        _ => false,
    }
}

/// Whether a directory stands apart from everything within reach.
pub open spec fn is_apart(place: Text, reach: Reach) -> bool {
    match reach {
        Reach::Nowhere => true,
        Reach::Below(root) => root.len() > 0 && !is_below(place, root) && !is_below(root, place),
        Reach::Anywhere => false,
    }
}

/// A request that spares what is not within reach disturbs no directory that
/// stands apart.
pub proof fn what_is_spared_is_not_disturbed(ask: Ask, reach: Reach, place: Text)
    requires
        spares(ask, reach),
        is_apart(place, reach),
        place.len() > 0,
    ensures
        !disturbs(ask, place),
{
    if let Reach::Below(root) = reach {
        assert forall|path: Text| #[trigger] is_below(path, root) implies !is_below(path, place) by {
            if is_below(path, place) {
                nothing_is_below_both(path, root, place);
            }
        }
        assert forall|path: Text| #[trigger] is_below(path, root) implies !is_below(place, path) by {
            if is_below(place, path) {
                below_is_transitive(place, path, root);
            }
        }
    }
    no_push_is_local();
}

proof fn no_push_is_local()
    ensures
        forall|args: Seq<Text>, reach: Reach|
            args.len() > 4 && args[0] == "push"@ && !within(args[4], reach) ==> !#[trigger] is_looking(
                args,
                reach,
            ),
        forall|dir: Text, args: Seq<Text>, reach: Reach|
            args.len() > 0 && args[0] == "push"@ ==> !#[trigger] is_local(dir, args, reach),
{
    reveal_strlit("push");
    reveal_strlit("rev-parse");
    reveal_strlit("for-each-ref");
    reveal_strlit("status");
    reveal_strlit("ls-files");
    reveal_strlit("ls-tree");
    reveal_strlit("symbolic-ref");
    reveal_strlit("stash");
    reveal_strlit("worktree");
    reveal_strlit("submodule");
    reveal_strlit("config");
    reveal_strlit("checkout");
    reveal_strlit("update-ref");
    reveal_strlit("remote");
    reveal_strlit("diff");
    reveal_strlit("log");
    reveal_strlit("rev-list");
    reveal_strlit("range-diff");
    reveal_strlit("clone");
    reveal_strlit("hash-object");
    assert("hash-object"@.len() == 11);
    assert("push"@.len() == 4 && "push"@[0] == 'p');
    assert("diff"@[0] == 'd');
    assert("rev-parse"@.len() == 9);
    assert("for-each-ref"@.len() == 12);
    assert("status"@.len() == 6);
    assert("ls-files"@.len() == 8);
    assert("ls-tree"@.len() == 7);
    assert("symbolic-ref"@.len() == 12);
    assert("stash"@.len() == 5);
    assert("worktree"@.len() == 8);
    assert("submodule"@.len() == 9);
    assert("config"@.len() == 6);
    assert("checkout"@.len() == 8);
    assert("update-ref"@.len() == 10);
    assert("remote"@.len() == 6);
    assert("log"@.len() == 3);
    assert("rev-list"@.len() == 8);
    assert("range-diff"@.len() == 10);
    assert("clone"@.len() == 5);
}

/// Whether a request neither writes to standard output nor reads from standard
/// input, nor asks who is there.
pub open spec fn is_silent(ask: Ask) -> bool {
    !(ask is Print || ask is ReadLine || ask is Terminal || ask is Emit)
}

/// Whether every directory listing among the replies holds names, unless
/// everything is within reach.
pub open spec fn lists_names(log: Seq<Answer>, reach: Reach) -> bool {
    forall|i: int|
        0 <= i < log.len() && (#[trigger] log[i]) is Names ==> are_names(log[i]->Names_0, reach)
}

/// Whether a run made no request on its way that is either noticed or changes
/// anything that is not within reach.
pub open spec fn tame<T>(run: Run<T>, reach: Reach, tape: Tape) -> bool {
    match run {
        Run::Gives(_, after) => after.log == tape.log,
        Run::Fails(_, after) => after.log == tape.log,
        Run::Asks(ask, _) => spares(ask, reach) && is_silent(ask),
    }
}

// ---------------------------------------------------------------------------
// Git and files
// ---------------------------------------------------------------------------
pub proof fn git_is_tame(reach: Reach)
    ensures
        forall|dir: Text, args: Seq<Text>, tape: Tape|
            may_run(dir, args, reach) ==> tame(
                #[trigger] git::run_script(dir, args, tape),
                reach,
                tape,
            ),
        forall|dir: Text, args: Seq<Text>, input: Text, tape: Tape|
            may_run(dir, args, reach) ==> tame(
                #[trigger] git::run_with_stdin_script(dir, args, input, tape),
                reach,
                tape,
            ),
        forall|dir: Text, args: Seq<Text>, tape: Tape|
            may_run(dir, args, reach) ==> tame(
                #[trigger] git::run_bytes_script(dir, args, tape),
                reach,
                tape,
            ),
        forall|dir: Text, args: Seq<Text>, env: Seq<(Text, Text)>, tape: Tape|
            within(dir, reach) ==> tame(
                #[trigger] git::spawn_script(dir, args, env, tape),
                reach,
                tape,
            ),
        forall|dir: Text, pattern: Text, strip: u8, tape: Tape|
            tame(#[trigger] git::refs_script(dir, pattern, strip, tape), reach, tape),
        forall|path: Text, tape: Tape|
            tame(#[trigger] git::canonicalize_script(path, tape), reach, tape),
{
    reveal(git::run_script);
    reveal(git::run_with_stdin_script);
    reveal(git::run_bytes_script);
    reveal(git::captured);
    reveal(git::spawn_script);
    reveal(git::refs_script);
    reveal(git::canonicalize_script);
}

pub proof fn files_are_tame(reach: Reach)
    ensures
        forall|path: Text, tape: Tape|
            tame(#[trigger] present_script(path, tape), reach, tape),
        forall|path: Text, kind: crate::session::Kind, tape: Tape|
            tame(#[trigger] leads_to_script(path, kind, tape), reach, tape),
        forall|path: Text, tape: Tape| tame(#[trigger] kind_script(path, tape), reach, tape),
        forall|path: Text, tape: Tape| tame(#[trigger] read_text_script(path, tape), reach, tape),
        forall|path: Text, tape: Tape| tame(#[trigger] read_bytes_script(path, tape), reach, tape),
        forall|dir: Text, path: Text, tape: Tape|
            tame(#[trigger] list_script(dir, path, tape), reach, tape),
        forall|ask: Ask, path: Text, tape: Tape|
            spares(ask, reach) && is_silent(ask) ==> tame(
                #[trigger] do_script(ask, path, tape),
                reach,
                tape,
            ),
        forall|tape: Tape| tame(#[trigger] now_script(tape), reach, tape),
{
    reveal(present_script);
    reveal(leads_to_script);
    reveal(kind_script);
    reveal(read_text_script);
    reveal(read_bytes_script);
    reveal(list_script);
    reveal(do_script);
    reveal(now_script);
}

/// A listing gives names where the replies hold names.
pub proof fn listings_give_names(dir: Text, path: Text, reach: Reach, tape: Tape)
    requires
        lists_names(tape.log, reach),
    ensures
        list_script(dir, path, tape) matches Run::Gives(names, after) ==> are_names(names, reach),
{
    reveal(list_script);
}

// ---------------------------------------------------------------------------
// Looking at the repository
// ---------------------------------------------------------------------------
proof fn searching_for_lfs_is_tame(repo: Text, names: Seq<Text>, reach: Reach, tape: Tape)
    ensures
        tame(preflight::lfs_from(repo, names, tape), reach, tape),
    decreases names.len(),
{
    files_are_tame(reach);
    if names.len() > 0 {
        if let Run::Gives(found, after) = read_text_script(inside(repo, path_named(names[0])), tape) {
            searching_for_lfs_is_tame(repo, names.drop_first(), reach, after);
        }
    }
}

pub proof fn origins_are_tame(reach: Reach)
    ensures
        forall|repo: Text, tape: Tape|
            tame(#[trigger] worktree::common_dir_script(repo, tape), reach, tape),
        forall|repo: Text, tape: Tape|
            tame(#[trigger] worktree::capture_script(repo, tape), reach, tape),
{
    git_is_tame(reach);
    reveal(worktree::common_dir_script);
    reveal(worktree::capture_script);
}

proof fn refusing_is_tame(reach: Reach)
    ensures
        forall|repo: Text, tape: Tape|
            tame(#[trigger] preflight::refuse_unsupported_script(repo, tape), reach, tape),
{
    git_is_tame(reach);
    reveal(preflight::refuse_unsupported_script);
    reveal(preflight::refuse_if_shallow_script);
    reveal(preflight::refuse_if_multiple_worktrees_script);
    reveal(preflight::refuse_if_submodules_script);
    reveal(preflight::refuse_if_lfs_script);
    assert forall|repo: Text, names: Seq<Text>, tape: Tape| tame(
        #[trigger] preflight::lfs_from(repo, names, tape),
        reach,
        tape,
    ) by {
        searching_for_lfs_is_tame(repo, names, reach, tape);
    }
}

/// Looking whether a repository can be rehearsed leaves it as it is.
pub proof fn preflight_is_tame(reach: Reach)
    ensures
        forall|cwd: Text, tape: Tape|
            tame(#[trigger] preflight::run_script(cwd, tape), reach, tape),
{
    git_is_tame(reach);
    refusing_is_tame(reach);
    reveal(preflight::run_script);
    reveal(preflight::locate_script);
    reveal(preflight::head_script);
    reveal(carry::snapshot_script);
}

// ---------------------------------------------------------------------------
// In the sandbox
// ---------------------------------------------------------------------------
proof fn classifying_is_tame(worktree: Text, reach: Reach)
    requires
        within(worktree, reach),
    ensures
        forall|tape: Tape| tame(#[trigger] execute::in_progress_script(worktree, tape), reach, tape),
        forall|code: Option<i32>, tape: Tape|
            tame(#[trigger] execute::classify_script(worktree, code, tape), reach, tape),
{
    git_is_tame(reach);
    assert forall|tape: Tape| tame(
        #[trigger] execute::in_progress_script(worktree, tape),
        reach,
        tape,
    ) by {
        files_are_tame(reach);
        reveal(execute::in_progress_script);
    }
    reveal(execute::classify_script);
}

proof fn editing_is_tame(reach: Reach)
    ensures
        forall|file: Text, tape: Tape| tame(#[trigger] execute::todo_script(file, tape), reach, tape),
        forall|todo: Option<execute::TodoModel>, command: Seq<Text>, tape: Tape|
            tame(#[trigger] execute::editor_env_script(todo, command, tape), reach, tape),
{
    files_are_tame(reach);
    reveal(execute::sequence_editor_script);
    reveal(execute::editor_env_script);
    reveal(execute::todo_script);
}

/// Running a command in a sandbox within reach stays there.
pub proof fn executing_is_tame(worktree: Text, reach: Reach)
    requires
        within(worktree, reach),
    ensures
        forall|tape: Tape| tame(#[trigger] execute::unmerged_script(worktree, tape), reach, tape),
        forall|command: Seq<Text>, todo: Option<execute::TodoModel>, tape: Tape|
            tame(#[trigger] execute::run_script(worktree, command, todo, tape), reach, tape),
        forall|tape: Tape| tame(#[trigger] execute::resume_script(worktree, tape), reach, tape),
        forall|file: Text, tape: Tape| tame(#[trigger] execute::todo_script(file, tape), reach, tape),
{
    git_is_tame(reach);
    classifying_is_tame(worktree, reach);
    editing_is_tame(reach);
    reveal(execute::unmerged_script);
    reveal(execute::run_script);
    reveal(execute::resume_script);
}

/// Writing the metadata of a rehearsal within reach stays there.
pub proof fn writing_meta_is_tame(root: Text, reach: Reach)
    requires
        within(root, reach),
    ensures
        forall|meta: meta::MetaModel, tape: Tape|
            tame(#[trigger] meta::write_script(meta, root, tape), reach, tape),
{
    files_are_tame(reach);
    reveal(meta::write_script);
    fixed_names_stay(reach);
    inside_is_within(root, "meta.json"@, reach);
    inside_is_within(root, "meta.json.tmp"@, reach);
}

/// Putting carried work back in a sandbox within reach stays there.
pub proof fn carrying_is_tame(root: Text, reach: Reach)
    requires
        within(root, reach),
        within(worktree_of(root), reach),
    ensures
        forall|sandbox: SandboxModel, outcome: execute::Outcome, tape: Tape|
            sandbox.root == root ==> tame(
                #[trigger] carry::after_command_script(sandbox, outcome, tape),
                reach,
                tape,
            ),
        forall|sandbox: SandboxModel, tape: Tape|
            sandbox.root == root ==> tame(
                #[trigger] carry::resume_script(sandbox, tape),
                reach,
                tape,
            ),
{
    git_is_tame(reach);
    executing_is_tame(worktree_of(root), reach);
    writing_meta_is_tame(root, reach);
    reveal(carry::capture_script);
    reveal(carry::replay_failed_script);
    reveal(carry::replay_script);
    reveal(carry::moves_the_worktree_script);
    reveal(carry::replay_if_moved_script);
    reveal(carry::settle_script);
    reveal(carry::after_command_script);
    reveal(carry::finish_replay_script);
    reveal(carry::resume_script);
}

proof fn counting_conflicts_is_tame(
    worktree: Text,
    paths: Seq<Text>,
    done: Seq<analyze::ConflictModel>,
    reach: Reach,
    tape: Tape,
)
    ensures
        tame(analyze::conflicts_from(worktree, paths, done, tape), reach, tape),
    decreases paths.len(),
{
    files_are_tame(reach);
    if paths.len() > 0 {
        if let Run::Gives(content, after) = read_bytes_script(inside(worktree, path_named(paths[0])), tape) {
            if let Ok(hunks) = analyze::hunks_of(content) {
                counting_conflicts_is_tame(
                    worktree,
                    paths.drop_first(),
                    done.push(analyze::ConflictModel { path: paths[0], hunks }),
                    reach,
                    after,
                );
            }
        }
    }
}

proof fn measuring_drift_is_tame(
    worktree: Text,
    moves: Seq<RefMoveModel>,
    done: Seq<analyze::DriftModel>,
    reach: Reach,
    tape: Tape,
)
    requires
        within(worktree, reach),
    ensures
        tame(analyze::drift_from(worktree, moves, done, tape), reach, tape),
    decreases moves.len(),
{
    git_is_tame(reach);
    reveal(analyze::name_status_script);
    reveal(analyze::commit_counts_script);
    reveal(analyze::replay_script);
    reveal(analyze::drift_of_script);
    if moves.len() > 0 {
        let rest = moves.drop_first();
        measuring_drift_is_tame(worktree, rest, done, reach, tape);
        if let (Some(before), Some(after)) = (moves[0].before, moves[0].after) {
            if let Run::Gives(drift, later) = analyze::drift_of_script(
                worktree,
                moves[0].name,
                before,
                after,
                tape,
            ) {
                measuring_drift_is_tame(
                    worktree,
                    rest,
                    match drift {
                        Some(drift) => done.push(drift),
                        None => done,
                    },
                    reach,
                    later,
                );
            }
        }
    }
}

proof fn finding_the_stop_is_tame(worktree: Text, reach: Reach)
    requires
        within(worktree, reach),
    ensures
        forall|outcome: execute::Outcome, tape: Tape|
            tame(#[trigger] analyze::stop_script(worktree, outcome, tape), reach, tape),
{
    git_is_tame(reach);
    files_are_tame(reach);
    reveal(analyze::recorded_stop_script);
    reveal(analyze::pending_head_script);
    reveal(analyze::described_script);
    reveal(analyze::stopped_at_script);
    reveal(analyze::conflicts_script);
    reveal(analyze::stop_script);
    assert forall|paths: Seq<Text>, done: Seq<analyze::ConflictModel>, tape: Tape| tame(
        #[trigger] analyze::conflicts_from(worktree, paths, done, tape),
        reach,
        tape,
    ) by {
        counting_conflicts_is_tame(worktree, paths, done, reach, tape);
    }
}

/// Reading what happened in a sandbox within reach stays there.
pub proof fn analyzing_is_tame(worktree: Text, reach: Reach)
    requires
        within(worktree, reach),
    ensures
        forall|pre_state: Entries, command: Seq<Text>, outcome: execute::Outcome, tape: Tape|
            tame(
                #[trigger] analyze::run_script(worktree, pre_state, command, outcome, tape),
                reach,
                tape,
            ),
{
    git_is_tame(reach);
    finding_the_stop_is_tame(worktree, reach);
    reveal(analyze::current_state_script);
    reveal(analyze::run_script);
    assert forall|moves: Seq<RefMoveModel>, done: Seq<analyze::DriftModel>, tape: Tape| tame(
        #[trigger] analyze::drift_from(worktree, moves, done, tape),
        reach,
        tape,
    ) by {
        measuring_drift_is_tame(worktree, moves, done, reach, tape);
    }
}

proof fn drawing_each_is_tame(
    worktree: Text,
    moves: Seq<RefMoveModel>,
    done: Seq<GraphModel>,
    reach: Reach,
    tape: Tape,
)
    requires
        within(worktree, reach),
    ensures
        tame(graphs_from(worktree, moves, done, tape), reach, tape),
    decreases moves.len(),
{
    git_is_tame(reach);
    reveal(log_graph_script);
    if moves.len() > 0 {
        let rest = moves.drop_first();
        drawing_each_is_tame(worktree, rest, done, reach, tape);
        if let (Some(before), Some(after)) = (moves[0].before, moves[0].after) {
            if let Run::Gives(old_graph, drawn) = log_graph_script(worktree, before, after, tape) {
                if let Run::Gives(new_graph, later) = log_graph_script(
                    worktree,
                    after,
                    before,
                    drawn,
                ) {
                    let graph = GraphModel {
                        reference: moves[0].name,
                        before: old_graph,
                        after: new_graph,
                    };
                    drawing_each_is_tame(worktree, rest, done.push(graph), reach, later);
                }
            }
        }
    }
}

/// Drawing the graphs of a sandbox within reach stays there.
pub proof fn drawing_is_tame(worktree: Text, reach: Reach)
    requires
        within(worktree, reach),
    ensures
        forall|analysis: analyze::AnalysisModel, detail: Detail, tape: Tape|
            tame(#[trigger] graphs_script(worktree, analysis, detail, tape), reach, tape),
{
    reveal(graphs_script);
    assert forall|moves: Seq<RefMoveModel>, done: Seq<GraphModel>, tape: Tape| tame(
        #[trigger] graphs_from(worktree, moves, done, tape),
        reach,
        tape,
    ) by {
        drawing_each_is_tame(worktree, moves, done, reach, tape);
    }
}

} // verus!
