//! That applying and undoing are transplants: they move refs to commits that are
//! there, and never run the rehearsed command again.

use vstd::prelude::*;

use crate::analyze::current_state_script;
use crate::apply;
use crate::carry;
use crate::files::{
    do_script, kind_script, leads_to_script, list_script, present_script, read_bytes_script,
    read_text_script,
};
use crate::git;
use crate::guarantees::asking::is_silent;
use crate::sandbox::SandboxModel;
use crate::session::{Ask, Kind, Run, Tape};
use crate::text::Text;
use crate::undo;

verus! {

/// Whether a run does not stop to run a command on the user's terminal, or to
/// write there, or to read from there.
pub open spec fn is_transplant<T>(run: Run<T>) -> bool {
    run matches Run::Asks(ask, _) ==> is_silent(ask) && !(ask is Spawn)
}

/// Git that is asked something, and a file that is, are not the command again.
pub proof fn git_is_captured()
    ensures
        forall|dir: Text, args: Seq<Text>, tape: Tape|
            is_transplant(#[trigger] git::run_script(dir, args, tape)),
        forall|dir: Text, args: Seq<Text>, input: Text, tape: Tape|
            is_transplant(#[trigger] git::run_with_stdin_script(dir, args, input, tape)),
        forall|dir: Text, args: Seq<Text>, tape: Tape|
            is_transplant(#[trigger] git::run_bytes_script(dir, args, tape)),
        forall|dir: Text, args: Seq<Text>, env: Seq<(Text, Text)>, tape: Tape|
            is_transplant(#[trigger] git::run_with_clean_env_script(dir, args, env, tape)),
        forall|dir: Text, args: Seq<Text>, env: Seq<(Text, Text)>, tape: Tape|
            is_transplant(#[trigger] git::run_bytes_with_clean_env_script(dir, args, env, tape)),
        forall|dir: Text, pattern: Text, strip: u8, tape: Tape|
            is_transplant(#[trigger] git::refs_script(dir, pattern, strip, tape)),
        forall|path: Text, tape: Tape|
            is_transplant(#[trigger] git::canonicalize_script(path, tape)),
{
    reveal(git::run_script);
    reveal(git::run_with_stdin_script);
    reveal(git::run_bytes_script);
    reveal(git::run_with_clean_env_script);
    reveal(git::run_bytes_with_clean_env_script);
    reveal(git::captured);
    reveal(git::refs_script);
    reveal(git::canonicalize_script);
}

/// Nor is a question about files.
pub proof fn files_are_files()
    ensures
        forall|path: Text, tape: Tape| is_transplant(#[trigger] read_text_script(path, tape)),
        forall|path: Text, tape: Tape| is_transplant(#[trigger] read_bytes_script(path, tape)),
        forall|path: Text, tape: Tape| is_transplant(#[trigger] kind_script(path, tape)),
        forall|path: Text, tape: Tape| is_transplant(#[trigger] present_script(path, tape)),
        forall|path: Text, kind: Kind, tape: Tape|
            is_transplant(#[trigger] leads_to_script(path, kind, tape)),
        forall|dir: Text, path: Text, tape: Tape|
            is_transplant(#[trigger] list_script(dir, path, tape)),
        forall|ask: Ask, path: Text, tape: Tape|
            is_silent(ask) && !(ask is Spawn) ==> is_transplant(
                #[trigger] do_script(ask, path, tape),
            ),
{
    reveal(read_text_script);
    reveal(read_bytes_script);
    reveal(kind_script);
    reveal(present_script);
    reveal(leads_to_script);
    reveal(list_script);
    reveal(do_script);
}

pub proof fn moving_refs_is_transplant()
    ensures
        forall|repo: Text, commands: Text, message: Text, tape: Tape|
            is_transplant(#[trigger] undo::move_refs_script(repo, commands, message, tape)),
        forall|repo: Text, wanted: bool, tape: Tape|
            is_transplant(#[trigger] undo::reset_worktree_script(repo, wanted, tape)),
        forall|repo: Text, tape: Tape|
            is_transplant(#[trigger] undo::current_branch_script(repo, tape)),
        forall|repo: Text, tape: Tape|
            is_transplant(#[trigger] undo::has_changes_script(repo, tape)),
        forall|repo: Text, tape: Tape|
            is_transplant(#[trigger] undo::record_path_script(repo, tape)),
        forall|repo: Text, record: undo::RecordModel, tape: Tape|
            is_transplant(#[trigger] undo::write_script(repo, record, tape)),
        forall|worktree: Text, tape: Tape|
            is_transplant(#[trigger] current_state_script(worktree, tape)),
{
    git_is_captured();
    files_are_files();
    reveal(undo::move_refs_script);
    reveal(undo::reset_worktree_script);
    reveal(undo::current_branch_script);
    reveal(undo::has_changes_script);
    reveal(undo::record_path_script);
    reveal(undo::write_script);
    reveal(current_state_script);
}

proof fn checking_is_transplant()
    ensures
        forall|
            repo: Text,
            rehearsed: Text,
            branch: Text,
            carry: Option<carry::CarryModel>,
            id: Text,
            tape: Tape,
        |
            is_transplant(
                #[trigger] apply::check_worktree_script(repo, rehearsed, branch, carry, id, tape),
            ),
{
    git_is_captured();
    moving_refs_is_transplant();
    reveal(apply::check_clean_script);
    reveal(apply::check_untracked_script);
    reveal(apply::check_worktree_script);
    reveal(carry::trees_of_script);
    reveal(carry::check_unchanged_script);
}

pub proof fn applying_is_transplant()
    ensures
        forall|sandbox: SandboxModel, now: u64, tape: Tape|
            is_transplant(#[trigger] apply::run_script(sandbox, now, tape)),
{
    git_is_captured();
    moving_refs_is_transplant();
    checking_is_transplant();
    reveal(apply::transplant_script);
    reveal(apply::put_back_script);
    reveal(carry::restore_script);
    reveal(apply::apply_script);
    reveal(apply::run_script);
}

pub proof fn undoing_is_transplant()
    ensures
        forall|repo: Text, id: Option<Text>, tape: Tape|
            is_transplant(#[trigger] undo::run_script(repo, id, tape)),
{
    git_is_captured();
    files_are_files();
    moving_refs_is_transplant();
    reveal(undo::reset_script);
    reveal(undo::restore_script);
    reveal(undo::undo_script);
    reveal(undo::run_script);
}

/// An apply is a transplant: it never runs the rehearsed command again.
pub proof fn applying_never_runs_the_command(
    sandbox: SandboxModel,
    now_unix: u64,
    tape: Tape,
    ask: Ask,
    stopped: Tape,
)
    requires
        apply::run_script(sandbox, now_unix, tape) == Run::<apply::AppliedModel>::Asks(ask, stopped),
    ensures
        !(ask is Spawn),
{
    applying_is_transplant();
}

/// An undo is one as well.
pub proof fn undoing_never_runs_the_command(
    repo: Text,
    id: Option<Text>,
    tape: Tape,
    ask: Ask,
    stopped: Tape,
)
    requires
        undo::run_script(repo, id, tape) == Run::<undo::UndoneModel>::Asks(ask, stopped),
    ensures
        !(ask is Spawn),
{
    undoing_is_transplant();
}

} // verus!
