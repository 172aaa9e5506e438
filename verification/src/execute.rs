//! Running the rehearsed command.
//!
//! The user's `git` binary runs the user's command, in the sandbox, with the
//! user's environment and terminal. What this module adds is only what happens
//! either side of that: an optional injected rebase todo, and turning git's
//! exit status into the three outcomes the exit codes are built on.

use vstd::prelude::*;

use crate::compose::{args2, args4, cat2, cat3, cat4, cat5};
use crate::error::{Error, Fault};
use crate::files::{
    do_script, leads_to, leads_to_script, or_fail, or_io, perform, present, present_script,
    read_bytes, read_bytes_script,
};
use crate::git;
use crate::git::no_env;
use crate::number::{decimal, show};
use crate::parts::{
    join, joined, keep_nonempty, nonempty, pieces, replace_char, replaced_char, split,
};
use crate::paths::{
    display, displayed, inside, join_path, texts_are_shown_as_they_are, MARK,
};
use crate::session::{
    heard, ran, text_in, Answer, Ask, Heard, HeardModel, Kind, Request, Run, Session, Stop, Tape,
};
use crate::text::{holds, put, same, Text};

verus! {

/// The argument that makes this program act as git's sequence editor. Git runs
/// it, users do not.
pub const SEQUENCE_EDITOR_ARG: &'static str = "__sequence-editor";

/// How the rehearsed command ended.
#[derive(Debug, Clone, Copy, PartialEq, Eq, Structural)]
pub enum Outcome {
    /// The command finished and left no operation in progress.
    Clean,
    /// The command stopped part-way and git is waiting: a conflict, or an
    /// `edit` or `break` in an interactive todo.
    Stopped {
        /// Whether the stop involves unmerged paths. A `break` stops without
        /// any, and a report that called that a conflict would be lying.
        conflicts: bool,
    },
    /// Git refused the command outright and left nothing in progress.
    Failed {
        /// Git's exit code, or `None` if a signal killed it.
        code: Option<i32>,
    },
}

impl DeepView for Outcome {
    type V = Outcome;

    open spec fn deep_view(&self) -> Outcome {
        *self
    }
}

/// A rebase todo to inject instead of the one git would generate.
#[derive(Debug, PartialEq, Eq)]
pub struct Todo {
    /// The todo to install, in git's own `pick <sha> <subject>` format.
    pub file: String,
    /// The program git should run as its sequence editor: this one.
    pub editor: String,
}

/// The model of a [`Todo`].
pub struct TodoModel {
    pub file: Text,
    pub editor: Text,
}

impl DeepView for Todo {
    type V = TodoModel;

    open spec fn deep_view(&self) -> TodoModel {
        TodoModel { file: self.file@, editor: self.editor@ }
    }
}

// ---------------------------------------------------------------------------
// What git left half-finished
// ---------------------------------------------------------------------------
/// An operation git has left half-finished in a sandbox.
#[derive(Debug, Clone, Copy, PartialEq, Eq, Structural)]
pub enum Operation {
    Rebase,
    CherryPick,
    Revert,
    Merge,
    /// A bisect in progress, which cannot be continued: it advances on an
    /// answer that only the user has.
    Bisect,
}

impl DeepView for Operation {
    type V = Operation;

    open spec fn deep_view(&self) -> Operation {
        *self
    }
}

/// The git subcommand that carries an operation on.
pub open spec fn subcommand_of(operation: Operation) -> Option<Text> {
    match operation {
        Operation::Rebase => Some("rebase"@),
        Operation::CherryPick => Some("cherry-pick"@),
        Operation::Revert => Some("revert"@),
        Operation::Merge => Some("merge"@),
        Operation::Bisect => None,
    }
}

impl Operation {
    /// The git subcommand that carries this operation on.
    pub fn subcommand(self) -> (name: Option<String>)
        ensures
            name.deep_view() == subcommand_of(self),
    {
        match self {
            Operation::Rebase => Some("rebase".to_owned()),
            Operation::CherryPick => Some("cherry-pick".to_owned()),
            Operation::Revert => Some("revert".to_owned()),
            Operation::Merge => Some("merge".to_owned()),
            Operation::Bisect => None,
        }
    }
}

/// The arguments that ask git for its own directory.
pub open spec fn git_dir_args() -> Seq<Text> {
    seq!["rev-parse"@, "--absolute-git-dir"@]
}

/// What git left half-finished, read off the sequencer's own files. A rebase
/// comes first: while it replays commits it may also leave `CHERRY_PICK_HEAD`
/// behind.
#[verifier::opaque]
pub open spec fn in_progress_script(worktree: Text, tape: Tape) -> Run<Option<Operation>> {
    git::path_script(worktree, git_dir_args(), tape).and_then(|dir: Text, tape: Tape|
    present_script(inside(dir, "rebase-merge"@), tape).and_then(|merging: bool, tape: Tape|
    if merging {
        Run::Gives(Some(Operation::Rebase), tape)
    } else {
    present_script(inside(dir, "rebase-apply"@), tape).and_then(|applying: bool, tape: Tape|
    if applying {
        Run::Gives(Some(Operation::Rebase), tape)
    } else {
    present_script(inside(dir, "CHERRY_PICK_HEAD"@), tape).and_then(|picking: bool, tape: Tape|
    if picking {
        Run::Gives(Some(Operation::CherryPick), tape)
    } else {
    present_script(inside(dir, "REVERT_HEAD"@), tape).and_then(|reverting: bool, tape: Tape|
    if reverting {
        Run::Gives(Some(Operation::Revert), tape)
    } else {
    present_script(inside(dir, "MERGE_HEAD"@), tape).and_then(|merging: bool, tape: Tape|
    if merging {
        Run::Gives(Some(Operation::Merge), tape)
    } else {
    present_script(inside(dir, "BISECT_LOG"@), tape).and_then(|bisecting: bool, tape: Tape|
        Run::Gives(if bisecting { Some(Operation::Bisect) } else { None }, tape))
    }) }) }) }) }))
}

/// What git left half-finished in the sandbox, if anything.
pub fn in_progress(session: &mut Session, worktree: &str) -> (outcome: Result<
    Option<Operation>,
    Stop,
>)
    ensures
        ran(outcome, final(session)@) == in_progress_script(worktree@, old(session)@),
{
    proof {
        reveal(in_progress_script);
    }
    let dir = git::run_path(session, worktree, args2("rev-parse", "--absolute-git-dir"))?;
    if present(session, &join_path(&dir, "rebase-merge"))? {
        return Ok(Some(Operation::Rebase));
    }
    if present(session, &join_path(&dir, "rebase-apply"))? {
        return Ok(Some(Operation::Rebase));
    }
    if present(session, &join_path(&dir, "CHERRY_PICK_HEAD"))? {
        return Ok(Some(Operation::CherryPick));
    }
    if present(session, &join_path(&dir, "REVERT_HEAD"))? {
        return Ok(Some(Operation::Revert));
    }
    if present(session, &join_path(&dir, "MERGE_HEAD"))? {
        return Ok(Some(Operation::Merge));
    }
    if present(session, &join_path(&dir, "BISECT_LOG"))? {
        return Ok(Some(Operation::Bisect));
    }
    Ok(None)
}

/// The names in a listing with a NUL behind each.
pub open spec fn zero_separated(listing: Text) -> Seq<Text> {
    nonempty(pieces(listing, '\0'))
}

/// The names in a listing with a NUL behind each.
pub fn split_zero(listing: &str) -> (names: Vec<String>)
    ensures
        names.deep_view() == zero_separated(listing@),
{
    keep_nonempty(&split(listing, '\0'))
}

/// The arguments that list the unmerged paths.
pub open spec fn unmerged_args() -> Seq<Text> {
    seq!["diff"@, "--name-only"@, "--diff-filter=U"@, "-z"@]
}

/// Every path git still considers unmerged.
#[verifier::opaque]
pub open spec fn unmerged_script(worktree: Text, tape: Tape) -> Run<Seq<Text>> {
    git::run_script(worktree, unmerged_args(), tape).and_then(
        |listing: Text, tape: Tape| Run::Gives(zero_separated(listing), tape),
    )
}

/// Every path git still considers unmerged in the sandbox.
pub fn unmerged(session: &mut Session, worktree: &str) -> (outcome: Result<Vec<String>, Stop>)
    ensures
        ran(outcome, final(session)@) == unmerged_script(worktree@, old(session)@),
{
    proof {
        reveal(unmerged_script);
    }
    let listing = git::run(
        session,
        worktree,
        args4("diff", "--name-only", "--diff-filter=U", "-z"),
    )?;
    Ok(split_zero(&listing))
}

/// What an exit and the state it left behind amount to: an operation in
/// progress is a stop whatever the exit, and else zero is clean.
#[verifier::opaque]
pub open spec fn classify_script(worktree: Text, code: Option<i32>, tape: Tape) -> Run<Outcome> {
    in_progress_script(worktree, tape).and_then(|operation: Option<Operation>, tape: Tape|
    if operation is Some {
        git::run_script(worktree, seq!["ls-files"@, "--unmerged"@], tape).and_then(
            |listing: Text, tape: Tape|
                Run::Gives(Outcome::Stopped { conflicts: listing.len() > 0 }, tape),
        )
    } else if code == Some(0i32) {
        Run::Gives(Outcome::Clean, tape)
    } else {
        Run::Gives(Outcome::Failed { code }, tape)
    })
}

/// Turns git's exit status plus the state it left behind into an [`Outcome`].
fn classify(session: &mut Session, worktree: &str, code: Option<i32>) -> (outcome: Result<
    Outcome,
    Stop,
>)
    ensures
        ran(outcome, final(session)@) == classify_script(worktree@, code, old(session)@),
{
    proof {
        reveal(classify_script);
    }
    let operation = in_progress(session, worktree)?;
    assert(operation.deep_view() is Some == operation is Some);
    if operation.is_some() {
        let listing = git::run(session, worktree, args2("ls-files", "--unmerged"))?;
        return Ok(Outcome::Stopped { conflicts: !listing.as_str().is_empty() });
    }
    match code {
        Some(0) => Ok(Outcome::Clean),
        _ => Ok(Outcome::Failed { code }),
    }
}

// ---------------------------------------------------------------------------
// The injected todo
// ---------------------------------------------------------------------------
/// A path quoted for the shell: single quotes around it as it is shown, and each
/// single quote in it closed, escaped and reopened.
pub open spec fn shell_quoted(path: Text) -> Text {
    "'"@ + replaced_char(displayed(path), '\'', "'\\''"@) + "'"@
}

/// Quotes a path for the shell git runs the sequence editor through.
pub fn shell_quote(path: &str) -> (quoted: String)
    ensures
        quoted@ == shell_quoted(path@),
{
    cat3("'", &replace_char(&display(path), '\'', "'\\''"), "'")
}

/// Why a todo cannot apply to a command that git would not consult it for.
pub open spec fn todo_refusal(command: Seq<Text>) -> Option<Text> {
    if command.len() == 0 || command[0] != "rebase"@ {
        Some("--todo only applies to `rebase`.\nRehearse a rebase, or drop --todo."@)
    } else if !command.contains("-i"@) && !command.contains("--interactive"@) {
        Some(
            "--todo needs an interactive rebase.\nAdd -i to the rebase you are rehearsing."@,
        )
    } else {
        None
    }
}

/// What makes git install the todo: this program, its argument, and the file.
pub open spec fn editor_command(todo: TodoModel) -> Text {
    shell_quoted(todo.editor) + " "@ + "__sequence-editor"@ + " "@ + shell_quoted(todo.file)
}

/// The sequence editor that installs a todo, after checking that git will
/// consult it.
#[verifier::opaque]
pub open spec fn sequence_editor_script(
    todo: TodoModel,
    command: Seq<Text>,
    tape: Tape,
) -> Run<Text> {
    leads_to_script(todo.file, Kind::File, tape).and_then(|file: bool, tape: Tape|
    if !file {
        Run::Fails(
            Fault::Refused(
                "no such todo file: "@ + displayed(todo.file)
                    + "\n--todo takes a file containing rebase instructions (`pick <sha>` lines)."@,
            ),
            tape,
        )
    } else {
        match todo_refusal(command) {
            Some(message) => Run::Fails(Fault::Refused(message), tape),
            None => Run::Gives(editor_command(todo), tape),
        }
    })
}

/// The `GIT_SEQUENCE_EDITOR` value that installs `todo`.
pub fn sequence_editor(session: &mut Session, todo: &Todo, command: &Vec<String>) -> (outcome:
    Result<String, Stop>)
    ensures
        ran(outcome, final(session)@) == sequence_editor_script(
            todo.deep_view(),
            command.deep_view(),
            old(session)@,
        ),
{
    proof {
        reveal(sequence_editor_script);
    }
    if !leads_to(session, &todo.file, Kind::File)? {
        return Err(
            Stop::Fail(
                Error::Refused(
                    cat3(
                        "no such todo file: ",
                        &display(&todo.file),
                        "\n--todo takes a file containing rebase instructions (`pick <sha>` lines).",
                    ),
                ),
            ),
        );
    }
    if command.len() == 0 || !same(&command[0], "rebase") {
        assert(command.deep_view().len() == 0 || command.deep_view()[0] != "rebase"@);
        return Err(
            Stop::Fail(
                Error::Refused(
                    "--todo only applies to `rebase`.\nRehearse a rebase, or drop --todo.".to_owned(),
                ),
            ),
        );
    }
    assert(command.deep_view()[0] == "rebase"@);
    if !holds(command, "-i") && !holds(command, "--interactive") {
        return Err(
            Stop::Fail(
                Error::Refused(
                    "--todo needs an interactive rebase.\nAdd -i to the rebase you are rehearsing.".to_owned(),
                ),
            ),
        );
    }
    Ok(
        cat5(
            &shell_quote(&todo.editor),
            " ",
            "__sequence-editor",
            " ",
            &shell_quote(&todo.file),
        ),
    )
}

/// Installs a prepared todo over the one git generated: its content, read and
/// then written.
#[verifier::opaque]
pub open spec fn write_todo_script(todo: Text, target: Text, tape: Tape) -> Run<()> {
    or_io(read_bytes_script(todo, tape), todo).and_then(
        |contents: Seq<u8>, tape: Tape| do_script(Ask::Write(target, contents), target, tape),
    )
}

/// Installs a prepared todo over the one git generated. This is what runs when
/// git invokes us as its sequence editor.
pub fn write_todo(session: &mut Session, todo: &str, target: &str) -> (outcome: Result<(), Stop>)
    ensures
        ran(outcome, final(session)@) == write_todo_script(todo@, target@, old(session)@),
{
    proof {
        reveal(write_todo_script);
    }
    let answer = read_bytes(session, todo)?;
    let contents = or_fail(answer, todo)?;
    assert(contents.deep_view() =~= contents@);
    perform(session, Request::Write(target.to_owned(), contents), target)
}

// ---------------------------------------------------------------------------
// Running and resuming
// ---------------------------------------------------------------------------
/// The variables that the command runs with.
#[verifier::opaque]
pub open spec fn editor_env_script(
    todo: Option<TodoModel>,
    command: Seq<Text>,
    tape: Tape,
) -> Run<Seq<(Text, Text)>> {
    match todo {
        Some(todo) => sequence_editor_script(todo, command, tape).and_then(
            |editor: Text, tape: Tape|
                Run::Gives(seq![("GIT_SEQUENCE_EDITOR"@, editor)], tape),
        ),
        None => Run::Gives(no_env(), tape),
    }
}

/// Runs the command on the user's terminal and classifies how it ended.
#[verifier::opaque]
pub open spec fn run_script(
    worktree: Text,
    command: Seq<Text>,
    todo: Option<TodoModel>,
    tape: Tape,
) -> Run<Outcome> {
    editor_env_script(todo, command, tape).and_then(|env: Seq<(Text, Text)>, tape: Tape|
    git::spawn_script(worktree, command, env, tape).and_then(|code: Option<i32>, tape: Tape|
        classify_script(worktree, code, tape)))
}

fn editor_env(session: &mut Session, todo: &Option<Todo>, command: &Vec<String>) -> (outcome:
    Result<Vec<(String, String)>, Stop>)
    ensures
        ran(outcome, final(session)@) == editor_env_script(
            todo.deep_view(),
            command.deep_view(),
            old(session)@,
        ),
{
    proof {
        reveal(editor_env_script);
    }
    let mut env: Vec<(String, String)> = Vec::new();
    assert(env.deep_view() =~= no_env());
    if let Some(todo) = todo {
        let editor = sequence_editor(session, todo, command)?;
        put(&mut env, ("GIT_SEQUENCE_EDITOR".to_owned(), editor));
        assert(env.deep_view() =~= seq![("GIT_SEQUENCE_EDITOR"@, editor@)]);
    }
    Ok(env)
}

/// Runs `command` in the sandbox worktree.
pub fn run(
    session: &mut Session,
    worktree: &str,
    command: &Vec<String>,
    todo: &Option<Todo>,
) -> (outcome: Result<Outcome, Stop>)
    ensures
        ran(outcome, final(session)@) == run_script(
            worktree@,
            command.deep_view(),
            todo.deep_view(),
            old(session)@,
        ),
{
    proof {
        reveal(run_script);
    }
    let env = editor_env(session, todo, command)?;
    let code = git::spawn(session, worktree, crate::text::copy_texts(command), env)?;
    assert(code.deep_view() == code);
    classify(session, worktree, code)
}

/// Names this program as the one that installs the todo.
#[verifier::opaque]
pub open spec fn todo_script(file: Text, tape: Tape) -> Run<TodoModel> {
    heard(Ask::Program, |answer: Answer| text_in(answer), tape).and_then(
        |found: HeardModel<Text>, tape: Tape|
            match found {
                HeardModel::Got(editor) => Run::Gives(TodoModel { file, editor }, tape),
                HeardModel::Trouble(trouble) => Run::Fails(
                    Fault::Sandbox("cannot locate the git-rehearse binary: "@ + trouble.message),
                    tape,
                ),
            },
    )
}

impl Todo {
    /// A todo installed by the program that is running.
    pub fn new(session: &mut Session, file: String) -> (outcome: Result<Todo, Stop>)
        ensures
            ran(outcome, final(session)@) == todo_script(file@, old(session)@),
    {
        proof {
            reveal(todo_script);
        }
        match session.text(Request::Program)? {
            Heard::Got(editor) => Ok(Todo { file, editor }),
            Heard::Trouble(trouble) => Err(
                Stop::Fail(
                    Error::Sandbox(
                        cat2("cannot locate the git-rehearse binary: ", &trouble.message),
                    ),
                ),
            ),
        }
    }
}

pub open spec fn nothing_to_continue() -> Text {
    "this rehearsal has nothing in progress — there is nothing to continue.\n`git rehearse show` prints the report again; `apply` transplants it."@
}

pub open spec fn bisect_cannot_continue() -> Text {
    "this rehearsal stopped in a bisect, which cannot be continued for you.\nA bisect advances on your answer — mark the commit yourself inside the sandbox with `git bisect good|bad`."@
}

pub open spec fn still_unmerged(paths: Seq<Text>) -> Text {
    decimal(paths.len()) + " path(s) are still unmerged in the sandbox:\n  "@ + joined(
        paths,
        "\n  "@,
    ) + "\nResolve them and `git add` them there, then continue."@
}

/// Carries on the operation the sandbox stopped in the middle of. Refused
/// before git is started where there is nothing to continue, where it is a
/// bisect, and where paths are still unmerged.
#[verifier::opaque]
pub open spec fn resume_script(worktree: Text, tape: Tape) -> Run<Outcome> {
    in_progress_script(worktree, tape).and_then(|operation: Option<Operation>, tape: Tape|
    match operation {
        None => Run::Fails(Fault::Refused(nothing_to_continue()), tape),
        Some(operation) => match subcommand_of(operation) {
            None => Run::Fails(Fault::Refused(bisect_cannot_continue()), tape),
            Some(subcommand) =>
                unmerged_script(worktree, tape).and_then(|paths: Seq<Text>, tape: Tape|
                if paths.len() > 0 {
                    Run::Fails(Fault::Refused(still_unmerged(paths)), tape)
                } else {
                    git::spawn_script(
                        worktree,
                        seq![subcommand, "--continue"@],
                        no_env(),
                        tape,
                    ).and_then(|code: Option<i32>, tape: Tape|
                        classify_script(worktree, code, tape))
                }),
        },
    })
}

/// Carries on the operation the sandbox stopped in the middle of, with
/// `git <operation> --continue` on the user's own terminal.
pub fn resume(session: &mut Session, worktree: &str) -> (outcome: Result<Outcome, Stop>)
    ensures
        ran(outcome, final(session)@) == resume_script(worktree@, old(session)@),
{
    proof {
        reveal(resume_script);
    }
    let operation = match in_progress(session, worktree)? {
        Some(operation) => operation,
        None => {
            return Err(
                Stop::Fail(
                    Error::Refused(
                        "this rehearsal has nothing in progress — there is nothing to continue.\n`git rehearse show` prints the report again; `apply` transplants it.".to_owned(),
                    ),
                ),
            );
        },
    };
    let subcommand = match operation.subcommand() {
        Some(subcommand) => subcommand,
        None => {
            return Err(
                Stop::Fail(
                    Error::Refused(
                        "this rehearsal stopped in a bisect, which cannot be continued for you.\nA bisect advances on your answer — mark the commit yourself inside the sandbox with `git bisect good|bad`.".to_owned(),
                    ),
                ),
            );
        },
    };
    let paths = unmerged(session, worktree)?;
    if paths.len() > 0 {
        return Err(
            Stop::Fail(
                Error::Refused(
                    cat4(
                        &show(paths.len() as u64),
                        " path(s) are still unmerged in the sandbox:\n  ",
                        &join(&paths, "\n  "),
                        "\nResolve them and `git add` them there, then continue.",
                    ),
                ),
            ),
        );
    }
    let env: Vec<(String, String)> = Vec::new();
    assert(env.deep_view() =~= no_env());
    let code = git::spawn(session, worktree, args2(&subcommand, "--continue"), env)?;
    assert(code.deep_view() == code);
    classify(session, worktree, code)
}

// ---------------------------------------------------------------------------
// What holds of the quoting
// ---------------------------------------------------------------------------
/// What a POSIX shell reads as one word out of text that opens and closes
/// single quotes, with a backslash outside of them standing for the character
/// behind it; `None` where the text is not one word.
pub open spec fn shell_word(s: Text, quoted: bool) -> Option<Text>
    decreases s.len(),
{
    if s.len() == 0 {
        if quoted {
            None
        } else {
            Some(Seq::empty())
        }
    } else if s[0] == '\'' {
        shell_word(s.drop_first(), !quoted)
    } else if quoted {
        match shell_word(s.drop_first(), true) {
            Some(rest) => Some(seq![s[0]] + rest),
            None => None,
        }
    } else if s[0] == '\\' && s.len() > 1 {
        match shell_word(s.skip(2), false) {
            Some(rest) => Some(seq![s[1]] + rest),
            None => None,
        }
    } else {
        None
    }
}

proof fn replaced_from_the_front(s: Text, from: char, to: Text)
    requires
        s.len() > 0,
    ensures
        replaced_char(s, from, to) == (if s[0] == from {
            to
        } else {
            seq![s[0]]
        }) + replaced_char(s.drop_first(), from, to),
    decreases s.len(),
{
    let first = if s[0] == from {
        to
    } else {
        seq![s[0]]
    };
    let last = if s.last() == from {
        to
    } else {
        seq![s.last()]
    };
    if s.len() == 1 {
        assert(s.drop_last() =~= Seq::empty());
        assert(s.drop_first() =~= Seq::empty());
        assert(replaced_char(s.drop_last(), from, to) =~= Seq::empty());
        assert(replaced_char(s, from, to) =~= first);
        assert(first + replaced_char(s.drop_first(), from, to) =~= first);
    } else {
        replaced_from_the_front(s.drop_last(), from, to);
        assert(s.drop_last().drop_first() =~= s.drop_first().drop_last());
        assert(replaced_char(s, from, to) =~= first + replaced_char(
            s.drop_last().drop_first(),
            from,
            to,
        ) + last);
        assert(replaced_char(s.drop_first(), from, to) =~= replaced_char(
            s.drop_first().drop_last(),
            from,
            to,
        ) + last);
        assert(replaced_char(s, from, to) =~= first + replaced_char(s.drop_first(), from, to));
    }
}

proof fn quoted_body_reads_back(path: Text)
    ensures
        shell_word(replaced_char(path, '\'', "'\\''"@) + "'"@, true) == Some(path),
    decreases path.len(),
{
    reveal_strlit("'");
    reveal_strlit("'\\''");
    let escape = "'\\''"@;
    let close = "'"@;
    assert(close =~= seq!['\'']);
    assert(escape =~= seq!['\'', '\\', '\'', '\'']);
    if path.len() == 0 {
        let s = replaced_char(path, '\'', escape) + close;
        assert(s =~= close);
        assert(s.drop_first() =~= Seq::empty());
        assert(path =~= Seq::empty());
        reveal_with_fuel(shell_word, 2);
    } else {
        let rest = path.drop_first();
        quoted_body_reads_back(rest);
        replaced_from_the_front(path, '\'', escape);
        let tail = replaced_char(rest, '\'', escape) + close;
        let s = replaced_char(path, '\'', escape) + close;
        assert(path =~= seq![path[0]] + rest);
        if path[0] == '\'' {
            assert(s =~= escape + tail);
            assert(s.drop_first() =~= seq!['\\', '\'', '\''] + tail);
            assert(s.drop_first().skip(2) =~= seq!['\''] + tail);
            assert(s.drop_first().skip(2).drop_first() =~= tail);
            reveal_with_fuel(shell_word, 4);
        } else {
            assert(s =~= seq![path[0]] + tail);
            assert(s.drop_first() =~= tail);
        }
    }
}

/// The shell reads a quoted path back as it is shown, whatever it holds; and so as
/// the path, where that is a text.
pub proof fn quoting_survives_the_shell(path: Text)
    ensures
        shell_word(shell_quoted(path), false) == Some(displayed(path)),
        !path.contains(MARK) ==> shell_word(shell_quoted(path), false) == Some(path),
{
    quoted_body_reads_back(displayed(path));
    if !path.contains(MARK) {
        texts_are_shown_as_they_are(path);
    }
    reveal_strlit("'");
    let s = shell_quoted(path);
    assert(s.drop_first() =~= replaced_char(displayed(path), '\'', "'\\''"@) + "'"@);
    assert(s[0] == '\'');
}

/// Nothing is continued half-resolved: where git is told to go on, it left
/// something in progress that can go on, and no path is unmerged any more.
pub proof fn continuing_needs_everything_resolved(
    worktree: Text,
    tape: Tape,
    ask: Ask,
    stopped: Tape,
)
    requires
        resume_script(worktree, tape) == Run::<Outcome>::Asks(ask, stopped),
        ask is Spawn,
    ensures
        in_progress_script(worktree, tape) matches Run::Gives(Some(operation), found)
            && subcommand_of(operation) is Some && (unmerged_script(worktree, found)
            matches Run::Gives(paths, _) && paths.len() == 0),
{
    reveal(resume_script);
    reveal(in_progress_script);
    reveal(unmerged_script);
    reveal(present_script);
    reveal(git::run_script);
    reveal(git::captured);
}

} // verus!
