//! What the commands make of what they find.

use vstd::prelude::*;

use crate::analyze::{self, CommitModel};
use crate::carry::{self, ReplayModel};
use crate::cli::flow::{
    act_script, apply_script, carry_on_script, discard_from, find_script, finish_script,
    record_script, resume_script, show_script, top_script, undo_script, SettingModel,
};
use crate::cli::Decision;
use crate::execute::{self, TodoModel};
use crate::files::{leads_to_script, read_text_script};
use crate::git;
use crate::guarantees::carrying::{capturing_is_said, unmerged_words};
use crate::guarantees::conversation::{
    continues, git_in, going_on_adds_up, is_complete, left_by, requests_are_exchanges, spoken,
    was_asked,
};
use crate::guarantees::deciding::code_of;
use crate::parts::trimmed;
use crate::paths::{inside, path_named};
use crate::report::Choice;
use crate::sandbox::meta::{self, MetaModel};
use crate::sandbox::store::remove_rehearsal_script;
use crate::sandbox::{worktree_of, SandboxModel};
use crate::session::{further, Answer, Ask, Kind, Run, Tape};
use crate::text::Text;
use crate::undo;

verus! {

/// Whether git said where the top of the worktree is, with the first two replies from
/// `tape` on.
pub open spec fn top_was_told(top: Text, cwd: Text, tape: Tape, later: Tape) -> bool {
    &&& was_asked(git_in(cwd, seq!["rev-parse"@, "--show-toplevel"@]), tape, later, tape.next)
    &&& spoken(later.log[tape.next]) matches Some(said) && was_asked(
        Ask::Canonicalize(path_named(said)),
        tape,
        later,
        tape.next + 1,
    )
    &&& later.log[tape.next + 1] == Answer::Text(top)
    &&& later.next == tape.next + 2
}

/// A command works on the repository that it is called in.
pub proof fn commands_work_where_they_are_called(cwd: Text, tape: Tape)
    requires
        is_complete(tape),
    ensures
        continues(left_by(top_script(cwd, tape)), tape),
        top_script(cwd, tape) matches Run::Gives(top, later) ==> top_was_told(
            top,
            cwd,
            tape,
            later,
        ),
{
    going_on_adds_up();
    requests_are_exchanges();
    reveal(top_script);
    reveal(git::canonicalize_script);
    reveal(continues);
}

/// Undoing takes back the last apply of the repository that it is called in.
pub proof fn undoing_is_of_the_repository(
    id: Option<Text>,
    setting: SettingModel,
    tape: Tape,
    code: u8,
    later: Tape,
)
    requires
        is_complete(tape),
        undo_script(id, setting, tape) == Run::Gives(code, later),
    ensures
        code == 0,
        exists|top: Text, found: Tape|
            #[trigger] top_was_told(top, setting.cwd, tape, found) && undo::run_script(
                top,
                id,
                found,
            ) is Gives,
{
    commands_work_where_they_are_called(setting.cwd, tape);
    reveal(undo_script);
    let top = top_script(setting.cwd, tape)->Gives_0;
    let found = top_script(setting.cwd, tape)->Gives_1;
    assert(top_was_told(top, setting.cwd, tape, found));
}

/// Applying applies the rehearsal that was found, and then removes it.
pub proof fn applying_is_of_what_was_found(
    id: Option<Text>,
    setting: SettingModel,
    tape: Tape,
    code: u8,
    later: Tape,
)
    requires
        apply_script(id, setting, tape) == Run::Gives(code, later),
    ensures
        code == 0,
        find_script(setting, id, tape) matches Run::Gives(sandbox, found) && (act_script(
            Choice::Apply,
            sandbox,
            setting.json,
            found,
        ) matches Run::Gives(applied, _) && applied is Some),
{
    reveal(apply_script);
    reveal(act_script);
}

/// Whether a rehearsal was carried on so: one that stopped on the work that it carries is
/// carried on with that, and every other one with its command and then with that work.
pub open spec fn is_carried_on_so(
    sandbox: SandboxModel,
    decision: Decision,
    setting: SettingModel,
    code: u8,
    tape: Tape,
) -> bool {
    let waits = sandbox.meta.carry matches Some(carried) && (carried.replay matches Some(replay)
        && (replay is Conflicted || replay is Refused));
    let run = if waits {
        carry::resume_script(sandbox, tape)
    } else {
        match execute::resume_script(worktree_of(sandbox.root), tape) {
            Run::Gives(outcome, ran) => carry::after_command_script(sandbox, outcome, ran),
            Run::Fails(fault, ran) => Run::Fails(fault, ran),
            Run::Asks(ask, ran) => Run::Asks(ask, ran),
        }
    };
    run matches Run::Gives(after, settled) && {
        let recorded = SandboxModel {
            meta: MetaModel { result: Some(after.0), ..after.1.meta },
            ..after.1
        };
        &&& code == code_of(after.0)
        &&& meta::write_script(recorded.meta, recorded.root, settled) matches Run::Gives(_, written)
            && finish_script(recorded, after.0, decision, setting, written) is Gives
    }
}

/// Carrying on carries on the rehearsal that was found.
pub proof fn carrying_on_is_of_what_was_found(
    id: Option<Text>,
    decision: Decision,
    setting: SettingModel,
    tape: Tape,
    code: u8,
    later: Tape,
)
    requires
        resume_script(id, decision, setting, tape) == Run::Gives(code, later),
    ensures
        find_script(setting, id, tape) matches Run::Gives(sandbox, found) && is_carried_on_so(
            sandbox,
            decision,
            setting,
            code,
            found,
        ),
{
    reveal(resume_script);
    reveal(carry_on_script);
    reveal(record_script);
    reveal(finish_script);
}

/// Showing tells again what is recorded of the rehearsal, and one that never ran has
/// nothing to tell.
pub proof fn showing_is_of_what_was_found(
    id: Option<Text>,
    setting: SettingModel,
    tape: Tape,
    code: u8,
    later: Tape,
)
    requires
        show_script(id, setting, tape) == Run::Gives(code, later),
    ensures
        code == 0,
        find_script(setting, id, tape) matches Run::Gives(sandbox, found) && (
        sandbox.meta.result matches Some(outcome) && analyze::run_script(
            worktree_of(sandbox.root),
            sandbox.meta.pre_state,
            sandbox.meta.command,
            outcome,
            found,
        ) is Gives),
{
    reveal(show_script);
}

proof fn each_is_removed(found: Seq<SandboxModel>, gone: Seq<Text>, tape: Tape)
    requires
        is_complete(tape),
    ensures
        continues(left_by(discard_from(found, gone, tape)), tape),
        discard_from(found, gone, tape) matches Run::Gives(ids, later) ==> {
            &&& later.next == tape.next + found.len()
            &&& forall|k: int|
                0 <= k < found.len() ==> later.asks[tape.next + k] == Ask::RemoveTree(
                    (#[trigger] found[k]).root,
                )
            &&& ids == gone + found.map_values(|sandbox: SandboxModel| sandbox.meta.id)
        },
    decreases found.len(),
{
    going_on_adds_up();
    reveal(remove_rehearsal_script);
    let named = found.map_values(|sandbox: SandboxModel| sandbox.meta.id);
    if found.len() == 0 {
        assert(gone + named =~= gone);
    } else if tape.next < tape.log.len() {
        let mid = further(tape, Ask::RemoveTree(found[0].root));
        let rest = found.drop_first();
        let more = gone.push(found[0].meta.id);
        each_is_removed(rest, more, mid);
        assert(continues(mid, tape));
        if let Run::Gives(ids, later) = discard_from(found, gone, tape) {
            assert(more + rest.map_values(|sandbox: SandboxModel| sandbox.meta.id) =~= gone + named);
            assert forall|k: int| 0 <= k < found.len() implies later.asks[tape.next + k]
                == Ask::RemoveTree((#[trigger] found[k]).root) by {
                reveal(continues);
                if k > 0 {
                    assert(rest[k - 1] == found[k]);
                    assert(later.asks[mid.next + (k - 1)] == Ask::RemoveTree(rest[k - 1].root));
                }
            }
        }
    }
}

/// Discarding removes the rehearsals that were meant, each with everything in it, and
/// names them.
pub proof fn discarding_removes_what_was_meant(
    found: Seq<SandboxModel>,
    tape: Tape,
    ids: Seq<Text>,
    later: Tape,
)
    requires
        is_complete(tape),
        discard_from(found, Seq::empty(), tape) == Run::Gives(ids, later),
    ensures
        later.next == tape.next + found.len(),
        forall|k: int|
            0 <= k < found.len() ==> later.asks[tape.next + k] == Ask::RemoveTree(
                (#[trigger] found[k]).root,
            ),
        ids.len() == found.len(),
        forall|k: int| 0 <= k < found.len() ==> ids[k] == (#[trigger] found[k]).meta.id,
{
    each_is_removed(found, Seq::empty(), tape);
    let named = found.map_values(|sandbox: SandboxModel| sandbox.meta.id);
    assert(ids =~= named);
}

// ---------------------------------------------------------------------------
// Carried work that waits
// ---------------------------------------------------------------------------
/// A replay that waits on a conflict is finished only once nothing is unmerged, by
/// capturing the worktree as it is; and one that git refused is tried again.
pub proof fn a_waiting_replay_is_finished(
    sandbox: SandboxModel,
    tape: Tape,
    replay: ReplayModel,
    later: Tape,
)
    requires
        is_complete(tape),
        carry::finish_replay_script(sandbox, tape) == Run::Gives(replay, later),
    ensures
        sandbox.meta.carry matches Some(carried) && (carried.replay matches Some(waiting) && {
            let worktree = worktree_of(sandbox.root);
            match waiting {
                ReplayModel::Conflicted { .. } => {
                    &&& was_asked(git_in(worktree, unmerged_words()), tape, later, tape.next)
                    &&& spoken(later.log[tape.next]) matches Some(listing)
                        && execute::zero_separated(listing).len() == 0
                    &&& replay is Restored
                    &&& carry::capture_script(
                        worktree,
                        further(tape, git_in(worktree, unmerged_words())),
                    ) == Run::Gives(replay->result, later)
                },
                ReplayModel::Refused { .. } => carry::replay_script(worktree, tape) == Run::Gives(
                    replay,
                    later,
                ),
                _ => false,
            }
        }),
{
    going_on_adds_up();
    requests_are_exchanges();
    reveal(carry::finish_replay_script);
    reveal(execute::unmerged_script);
    assert(unmerged_words() =~= execute::unmerged_args());
    let worktree = worktree_of(sandbox.root);
    let mid = further(tape, git_in(worktree, unmerged_words()));
    if git::run_script(worktree, unmerged_words(), tape) is Gives {
        capturing_is_said(worktree, mid);
    }
    reveal(continues);
}

// ---------------------------------------------------------------------------
// A prepared todo
// ---------------------------------------------------------------------------
/// A prepared todo is taken only where it is a file and the command is an interactive
/// rebase, which is where git asks for one; and it is installed by this program.
pub proof fn a_todo_is_for_an_interactive_rebase(
    todo: TodoModel,
    command: Seq<Text>,
    tape: Tape,
    editor: Text,
    later: Tape,
)
    requires
        is_complete(tape),
        execute::sequence_editor_script(todo, command, tape) == Run::Gives(editor, later),
    ensures
        was_asked(Ask::Target(todo.file), tape, later, tape.next),
        later.log[tape.next] == Answer::Kind(Kind::File),
        command.len() > 0 && command[0] == "rebase"@,
        command.contains("-i"@) || command.contains("--interactive"@),
        editor == execute::shell_quoted(todo.editor) + " "@ + "__sequence-editor"@ + " "@
            + execute::shell_quoted(todo.file),
{
    requests_are_exchanges();
    reveal(execute::sequence_editor_script);
    reveal(leads_to_script);
}

/// Installing a todo writes what the prepared file holds to where git has its own.
pub proof fn a_todo_is_installed_as_it_is(todo: Text, target: Text, tape: Tape, later: Tape)
    requires
        is_complete(tape),
        execute::write_todo_script(todo, target, tape) == Run::Gives((), later),
    ensures
        was_asked(Ask::ReadBytes(todo), tape, later, tape.next),
        later.log[tape.next] matches Answer::Bytes(content) && was_asked(
            Ask::Write(target, content),
            tape,
            later,
            tape.next + 1,
        ),
        later.next == tape.next + 2,
{
    going_on_adds_up();
    requests_are_exchanges();
    reveal(execute::write_todo_script);
    reveal(crate::files::read_bytes_script);
}

// ---------------------------------------------------------------------------
// Where a command stopped
// ---------------------------------------------------------------------------
/// Whether a commit was described by git: it is what a name stands for, under its full id
/// and with its subject.
pub open spec fn is_described(
    commit: CommitModel,
    name: Text,
    worktree: Text,
    later: Tape,
) -> bool {
    let n = later.asks.len() as int;
    &&& n >= 2
    &&& later.asks[n - 2] == git_in(
        worktree,
        seq!["rev-parse"@, "--verify"@, name + "^{commit}"@],
    )
    &&& spoken(later.log[n - 2]) == Some(commit.sha)
    &&& later.asks[n - 1] == git_in(
        worktree,
        seq!["log"@, "-1"@, "--format=%s"@, commit.sha],
    )
    &&& spoken(later.log[n - 1]) == Some(commit.subject)
}

/// The commit that a command stopped on is the one that git's own files name, those of a
/// rebase before the heads of the other operations.
pub proof fn a_stop_is_at_the_commit_that_git_names(
    worktree: Text,
    tape: Tape,
    commit: CommitModel,
    later: Tape,
)
    requires
        is_complete(tape),
        analyze::stopped_at_script(worktree, tape) == Run::Gives(Some(commit), later),
    ensures
        was_asked(
            git_in(worktree, seq!["rev-parse"@, "--absolute-git-dir"@]),
            tape,
            later,
            tape.next,
        ),
        spoken(later.log[tape.next]) matches Some(said) && {
            let dir = path_named(said);
            let first = tape.next + 1;
            let heads = seq!["CHERRY_PICK_HEAD"@, "REVERT_HEAD"@, "MERGE_HEAD"@];
            &&& was_asked(
                Ask::ReadText(inside(dir, "rebase-merge/stopped-sha"@)),
                tape,
                later,
                first,
            )
            &&& match later.log[first] {
                Answer::Text(sha) => is_described(commit, trimmed(sha), worktree, later),
                _ => {
                    &&& was_asked(
                        Ask::ReadText(inside(dir, "rebase-apply/original-commit"@)),
                        tape,
                        later,
                        first + 1,
                    )
                    &&& match later.log[first + 1] {
                        Answer::Text(sha) => is_described(commit, trimmed(sha), worktree, later),
                        _ => exists|k: int|
                            0 <= k < 3 && was_asked(
                                git_in(
                                    worktree,
                                    seq![
                                        "rev-parse"@,
                                        "--verify"@,
                                        "--quiet"@,
                                        #[trigger] heads[k],
                                    ],
                                ),
                                tape,
                                later,
                                first + 2 + k,
                            ) && (spoken(later.log[first + 2 + k]) matches Some(sha)
                                && is_described(commit, sha, worktree, later)),
                    }
                },
            }
        },
{
    going_on_adds_up();
    requests_are_exchanges();
    reveal(analyze::stopped_at_script);
    reveal(analyze::recorded_stop_script);
    reveal(analyze::pending_head_script);
    reveal(analyze::described_script);
    reveal(read_text_script);
    let heads = seq!["CHERRY_PICK_HEAD"@, "REVERT_HEAD"@, "MERGE_HEAD"@];
    assert(heads[0] == "CHERRY_PICK_HEAD"@ && heads[1] == "REVERT_HEAD"@ && heads[2]
        == "MERGE_HEAD"@);
}

} // verus!
