//! That a procedure can be run again from the start: on the replies that it
//! used, it does what it did before.

pub mod flow;
pub mod store;

use vstd::prelude::*;

use crate::carry;
use crate::execute;
use crate::files::{
    do_script, kind_script, leads_to_script, list_script, present_script, read_bytes_script,
    read_text_script,
};
use crate::git;
use crate::now_script;
use crate::paths::{inside, path_named};
use crate::preflight;
use crate::report::{read_line_script, say_script};
use crate::session::{asked, Answer, Ask, Kind, Run, Tape};
use crate::text::Text;
use crate::worktree;

verus! {

/// A change of the replies: the first ones are kept, and others follow them.
pub struct Splice {
    pub kept: int,
    pub tail: Seq<Answer>,
}

/// A tape with other replies from some point on.
pub open spec fn spliced(tape: Tape, splice: Splice) -> Tape {
    Tape { log: tape.log.take(splice.kept) + splice.tail, ..tape }
}

/// Whether there are as many replies as are used.
pub open spec fn is_sound(tape: Tape) -> bool {
    0 <= tape.next <= tape.log.len()
}

/// Whether one tape is the other, further on.
pub open spec fn is_later(after: Tape, tape: Tape) -> bool {
    after.log == tape.log && tape.next <= after.next <= tape.log.len()
}

/// Nothing changed.
pub open spec fn whole(tape: Tape) -> Splice {
    Splice { kept: tape.log.len() as int, tail: Seq::empty() }
}

/// Whether a run goes on from where the tape is, and stops for a request only
/// where all replies are used.
pub open spec fn is_onward<T>(run: Run<T>, tape: Tape) -> bool {
    is_sound(tape) ==> match run {
        Run::Gives(_, after) => is_later(after, tape),
        Run::Fails(_, after) => is_later(after, tape),
        Run::Asks(_, stopped) => stopped.log == tape.log && stopped.next == tape.log.len(),
    }
}

/// Whether a run that used only replies that are kept comes out the same again.
pub open spec fn repeats<T>(run: Run<T>, again: Run<T>, tape: Tape, splice: Splice) -> bool {
    is_sound(tape) && 0 <= splice.kept <= tape.log.len() ==> match run {
        Run::Gives(value, after) => after.next <= splice.kept ==> again == Run::Gives(
            value,
            spliced(after, splice),
        ),
        Run::Fails(fault, after) => after.next <= splice.kept ==> again == Run::<T>::Fails(
            fault,
            spliced(after, splice),
        ),
        Run::Asks(..) => true,
    }
}

pub proof fn requests_repeat()
    ensures
        forall|ask: Ask, tape: Tape| is_onward(#[trigger] asked(ask, tape), tape),
        forall|ask: Ask, tape: Tape, splice: Splice|
            repeats(asked(ask, tape), #[trigger] asked(ask, spliced(tape, splice)), tape, splice),
{
}

pub proof fn git_repeats()
    ensures
        forall|dir: Text, args: Seq<Text>, tape: Tape|
            is_onward(#[trigger] git::run_script(dir, args, tape), tape),
        forall|dir: Text, args: Seq<Text>, tape: Tape, splice: Splice|
            repeats(
                git::run_script(dir, args, tape),
                #[trigger] git::run_script(dir, args, spliced(tape, splice)),
                tape,
                splice,
            ),
        forall|dir: Text, args: Seq<Text>, input: Text, tape: Tape|
            is_onward(#[trigger] git::run_with_stdin_script(dir, args, input, tape), tape),
        forall|dir: Text, args: Seq<Text>, input: Text, tape: Tape, splice: Splice|
            repeats(
                git::run_with_stdin_script(dir, args, input, tape),
                #[trigger] git::run_with_stdin_script(dir, args, input, spliced(tape, splice)),
                tape,
                splice,
            ),
        forall|dir: Text, args: Seq<Text>, tape: Tape|
            is_onward(#[trigger] git::run_bytes_script(dir, args, tape), tape),
        forall|dir: Text, args: Seq<Text>, tape: Tape, splice: Splice|
            repeats(
                git::run_bytes_script(dir, args, tape),
                #[trigger] git::run_bytes_script(dir, args, spliced(tape, splice)),
                tape,
                splice,
            ),
        forall|dir: Text, args: Seq<Text>, env: Seq<(Text, Text)>, tape: Tape|
            is_onward(#[trigger] git::spawn_script(dir, args, env, tape), tape),
        forall|dir: Text, args: Seq<Text>, env: Seq<(Text, Text)>, tape: Tape, splice: Splice|
            repeats(
                git::spawn_script(dir, args, env, tape),
                #[trigger] git::spawn_script(dir, args, env, spliced(tape, splice)),
                tape,
                splice,
            ),
        forall|dir: Text, pattern: Text, strip: u8, tape: Tape|
            is_onward(#[trigger] git::refs_script(dir, pattern, strip, tape), tape),
        forall|dir: Text, pattern: Text, strip: u8, tape: Tape, splice: Splice|
            repeats(
                git::refs_script(dir, pattern, strip, tape),
                #[trigger] git::refs_script(dir, pattern, strip, spliced(tape, splice)),
                tape,
                splice,
            ),
        forall|path: Text, tape: Tape|
            is_onward(#[trigger] git::canonicalize_script(path, tape), tape),
        forall|path: Text, tape: Tape, splice: Splice|
            repeats(
                git::canonicalize_script(path, tape),
                #[trigger] git::canonicalize_script(path, spliced(tape, splice)),
                tape,
                splice,
            ),
{
    requests_repeat();
    reveal(git::captured);
    reveal(git::run_script);
    reveal(git::run_with_stdin_script);
    reveal(git::run_bytes_script);
    reveal(git::spawn_script);
    reveal(git::refs_script);
    reveal(git::canonicalize_script);
}

pub proof fn files_repeat()
    ensures
        forall|path: Text, tape: Tape| is_onward(#[trigger] present_script(path, tape), tape),
        forall|path: Text, tape: Tape, splice: Splice|
            repeats(
                present_script(path, tape),
                #[trigger] present_script(path, spliced(tape, splice)),
                tape,
                splice,
            ),
        forall|path: Text, kind: Kind, tape: Tape|
            is_onward(#[trigger] leads_to_script(path, kind, tape), tape),
        forall|path: Text, kind: Kind, tape: Tape, splice: Splice|
            repeats(
                leads_to_script(path, kind, tape),
                #[trigger] leads_to_script(path, kind, spliced(tape, splice)),
                tape,
                splice,
            ),
        forall|path: Text, tape: Tape| is_onward(#[trigger] kind_script(path, tape), tape),
        forall|path: Text, tape: Tape, splice: Splice|
            repeats(
                kind_script(path, tape),
                #[trigger] kind_script(path, spliced(tape, splice)),
                tape,
                splice,
            ),
        forall|path: Text, tape: Tape| is_onward(#[trigger] read_text_script(path, tape), tape),
        forall|path: Text, tape: Tape, splice: Splice|
            repeats(
                read_text_script(path, tape),
                #[trigger] read_text_script(path, spliced(tape, splice)),
                tape,
                splice,
            ),
        forall|path: Text, tape: Tape| is_onward(#[trigger] read_bytes_script(path, tape), tape),
        forall|path: Text, tape: Tape, splice: Splice|
            repeats(
                read_bytes_script(path, tape),
                #[trigger] read_bytes_script(path, spliced(tape, splice)),
                tape,
                splice,
            ),
        forall|ask: Ask, path: Text, tape: Tape|
            is_onward(#[trigger] do_script(ask, path, tape), tape),
        forall|ask: Ask, path: Text, tape: Tape, splice: Splice|
            repeats(
                do_script(ask, path, tape),
                #[trigger] do_script(ask, path, spliced(tape, splice)),
                tape,
                splice,
            ),
        forall|dir: Text, path: Text, tape: Tape|
            is_onward(#[trigger] list_script(dir, path, tape), tape),
        forall|dir: Text, path: Text, tape: Tape, splice: Splice|
            repeats(
                list_script(dir, path, tape),
                #[trigger] list_script(dir, path, spliced(tape, splice)),
                tape,
                splice,
            ),
        forall|tape: Tape| is_onward(#[trigger] now_script(tape), tape),
        forall|tape: Tape, splice: Splice|
            repeats(now_script(tape), #[trigger] now_script(spliced(tape, splice)), tape, splice),
        forall|text: Text, tape: Tape| is_onward(#[trigger] say_script(text, tape), tape),
        forall|text: Text, tape: Tape, splice: Splice|
            repeats(
                say_script(text, tape),
                #[trigger] say_script(text, spliced(tape, splice)),
                tape,
                splice,
            ),
        forall|tape: Tape| is_onward(#[trigger] read_line_script(tape), tape),
        forall|tape: Tape, splice: Splice|
            repeats(
                read_line_script(tape),
                #[trigger] read_line_script(spliced(tape, splice)),
                tape,
                splice,
            ),
{
    requests_repeat();
    reveal(present_script);
    reveal(leads_to_script);
    reveal(kind_script);
    reveal(read_text_script);
    reveal(read_bytes_script);
    reveal(do_script);
    reveal(list_script);
    reveal(now_script);
    reveal(say_script);
    reveal(read_line_script);
}

proof fn searching_for_lfs_repeats(repo: Text, names: Seq<Text>, tape: Tape, splice: Splice)
    ensures
        is_onward(preflight::lfs_from(repo, names, tape), tape),
        repeats(
            preflight::lfs_from(repo, names, tape),
            preflight::lfs_from(repo, names, spliced(tape, splice)),
            tape,
            splice,
        ),
    decreases names.len(),
{
    files_repeat();
    if names.len() > 0 {
        if let Run::Gives(found, after) = read_text_script(inside(repo, path_named(names[0])), tape) {
            searching_for_lfs_repeats(repo, names.drop_first(), after, splice);
        }
    }
}

pub proof fn origins_repeat()
    ensures
        forall|repo: Text, tape: Tape|
            is_onward(#[trigger] worktree::common_dir_script(repo, tape), tape),
        forall|repo: Text, tape: Tape, splice: Splice|
            repeats(
                worktree::common_dir_script(repo, tape),
                #[trigger] worktree::common_dir_script(repo, spliced(tape, splice)),
                tape,
                splice,
            ),
        forall|repo: Text, tape: Tape|
            is_onward(#[trigger] worktree::capture_script(repo, tape), tape),
        forall|repo: Text, tape: Tape, splice: Splice|
            repeats(
                worktree::capture_script(repo, tape),
                #[trigger] worktree::capture_script(repo, spliced(tape, splice)),
                tape,
                splice,
            ),
{
    git_repeats();
    reveal(worktree::common_dir_script);
    reveal(worktree::capture_script);
}

proof fn refusing_repeats()
    ensures
        forall|repo: Text, tape: Tape|
            is_onward(#[trigger] preflight::refuse_unsupported_script(repo, tape), tape),
        forall|repo: Text, tape: Tape, splice: Splice|
            repeats(
                preflight::refuse_unsupported_script(repo, tape),
                #[trigger] preflight::refuse_unsupported_script(repo, spliced(tape, splice)),
                tape,
                splice,
            ),
{
    git_repeats();
    reveal(preflight::refuse_if_shallow_script);
    reveal(preflight::refuse_if_multiple_worktrees_script);
    reveal(preflight::refuse_if_submodules_script);
    reveal(preflight::refuse_if_lfs_script);
    reveal(preflight::refuse_unsupported_script);
    assert forall|repo: Text, names: Seq<Text>, tape: Tape| is_onward(
        #[trigger] preflight::lfs_from(repo, names, tape),
        tape,
    ) by {
        searching_for_lfs_repeats(repo, names, tape, whole(tape));
    }
    assert forall|repo: Text, names: Seq<Text>, tape: Tape, splice: Splice| repeats(
        preflight::lfs_from(repo, names, tape),
        #[trigger] preflight::lfs_from(repo, names, spliced(tape, splice)),
        tape,
        splice,
    ) by {
        searching_for_lfs_repeats(repo, names, tape, splice);
    }
}

proof fn locating_repeats()
    ensures
        forall|cwd: Text, tape: Tape|
            is_onward(#[trigger] preflight::locate_script(cwd, tape), tape),
        forall|cwd: Text, tape: Tape, splice: Splice|
            repeats(
                preflight::locate_script(cwd, tape),
                #[trigger] preflight::locate_script(cwd, spliced(tape, splice)),
                tape,
                splice,
            ),
{
    git_repeats();
    reveal(preflight::locate_script);
}

pub proof fn preflight_repeats()
    ensures
        forall|cwd: Text, tape: Tape| is_onward(#[trigger] preflight::run_script(cwd, tape), tape),
        forall|cwd: Text, tape: Tape, splice: Splice|
            repeats(
                preflight::run_script(cwd, tape),
                #[trigger] preflight::run_script(cwd, spliced(tape, splice)),
                tape,
                splice,
            ),
{
    git_repeats();
    origins_repeat();
    refusing_repeats();
    locating_repeats();
    reveal(preflight::head_script);
    reveal(carry::snapshot_script);
    reveal(preflight::run_script);
}

proof fn waiting_repeats()
    ensures
        forall|worktree: Text, tape: Tape|
            is_onward(#[trigger] execute::in_progress_script(worktree, tape), tape),
        forall|worktree: Text, tape: Tape, splice: Splice|
            repeats(
                execute::in_progress_script(worktree, tape),
                #[trigger] execute::in_progress_script(worktree, spliced(tape, splice)),
                tape,
                splice,
            ),
{
    git_repeats();
    files_repeat();
    reveal(execute::in_progress_script);
}

pub proof fn classifying_repeats()
    ensures
        forall|worktree: Text, tape: Tape|
            is_onward(#[trigger] execute::unmerged_script(worktree, tape), tape),
        forall|worktree: Text, tape: Tape, splice: Splice|
            repeats(
                execute::unmerged_script(worktree, tape),
                #[trigger] execute::unmerged_script(worktree, spliced(tape, splice)),
                tape,
                splice,
            ),
        forall|worktree: Text, code: Option<i32>, tape: Tape|
            is_onward(#[trigger] execute::classify_script(worktree, code, tape), tape),
        forall|worktree: Text, code: Option<i32>, tape: Tape, splice: Splice|
            repeats(
                execute::classify_script(worktree, code, tape),
                #[trigger] execute::classify_script(worktree, code, spliced(tape, splice)),
                tape,
                splice,
            ),
{
    git_repeats();
    waiting_repeats();
    reveal(execute::unmerged_script);
    reveal(execute::classify_script);
}

pub proof fn editing_repeats()
    ensures
        forall|todo: Text, target: Text, tape: Tape|
            is_onward(#[trigger] execute::write_todo_script(todo, target, tape), tape),
        forall|todo: Text, target: Text, tape: Tape, splice: Splice|
            repeats(
                execute::write_todo_script(todo, target, tape),
                #[trigger] execute::write_todo_script(todo, target, spliced(tape, splice)),
                tape,
                splice,
            ),
        forall|file: Text, tape: Tape| is_onward(#[trigger] execute::todo_script(file, tape), tape),
        forall|file: Text, tape: Tape, splice: Splice|
            repeats(
                execute::todo_script(file, tape),
                #[trigger] execute::todo_script(file, spliced(tape, splice)),
                tape,
                splice,
            ),
        forall|todo: Option<execute::TodoModel>, command: Seq<Text>, tape: Tape|
            is_onward(#[trigger] execute::editor_env_script(todo, command, tape), tape),
        forall|todo: Option<execute::TodoModel>, command: Seq<Text>, tape: Tape, splice: Splice|
            repeats(
                execute::editor_env_script(todo, command, tape),
                #[trigger] execute::editor_env_script(todo, command, spliced(tape, splice)),
                tape,
                splice,
            ),
{
    requests_repeat();
    files_repeat();
    reveal(execute::sequence_editor_script);
    reveal(execute::write_todo_script);
    reveal(execute::todo_script);
    reveal(execute::editor_env_script);
}

pub proof fn executing_repeats()
    ensures
        forall|worktree: Text, command: Seq<Text>, todo: Option<execute::TodoModel>, tape: Tape|
            is_onward(#[trigger] execute::run_script(worktree, command, todo, tape), tape),
        forall|
            worktree: Text,
            command: Seq<Text>,
            todo: Option<execute::TodoModel>,
            tape: Tape,
            splice: Splice,
        |
            repeats(
                execute::run_script(worktree, command, todo, tape),
                #[trigger] execute::run_script(worktree, command, todo, spliced(tape, splice)),
                tape,
                splice,
            ),
        forall|worktree: Text, tape: Tape|
            is_onward(#[trigger] execute::resume_script(worktree, tape), tape),
        forall|worktree: Text, tape: Tape, splice: Splice|
            repeats(
                execute::resume_script(worktree, tape),
                #[trigger] execute::resume_script(worktree, spliced(tape, splice)),
                tape,
                splice,
            ),
{
    git_repeats();
    waiting_repeats();
    classifying_repeats();
    editing_repeats();
    reveal(execute::run_script);
    reveal(execute::resume_script);
}

} // verus!
