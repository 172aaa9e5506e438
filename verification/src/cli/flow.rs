//! What each command does, from the first look at the repository to the last
//! line of output.

use vstd::prelude::*;

use crate::analyze::{self, Analysis, AnalysisModel, RefMove, RefMoveModel};
use crate::apply::{self, Applied, AppliedModel};
use crate::cache::{id_of, repo_id};
use crate::carry;
use crate::cli::exit;
use crate::cli::Decision;
use crate::compose::{args2, cat2, cat3, cat4, cat5, cat7};
use crate::error::{Error, Fault};
use crate::execute::{self, Outcome, Todo, TodoModel};
use crate::git;
use crate::json::{
    applied_document, applied_report, entry_of, report_of, undo_document, ApplyResult,
    DiscardResult, Document, DocumentModel, Entry, EntryModel, Listing, Report, UndoResult, SCHEMA,
};
use crate::number::{decimal, show};
use crate::parts::{join, joined};
use crate::paths::{display, displayed};
use crate::preflight::{self, PreflightModel};
use crate::report::{
    ask, ask_from, can_apply, graphs, graphs_script, is_applicable, non_interactive, render,
    report_text, say, say_script, unattended, Choice, Detail, GraphModel,
};
use crate::sandbox::meta::{self, Status};
use crate::sandbox::store::remove_rehearsal_script;
use crate::sandbox::{
    create, find, list, prune, with_kept, with_result, worktree_of, Sandbox, SandboxModel,
    DEFAULT_TTL_SECS,
};
use crate::session::{
    caught, done_in, flag_in, heard, ran, ran_with, Answer, Ask, Heard, HeardModel, Request, Run,
    Session, Stop, Tape,
};
use crate::text::{put, same, Text};
use crate::undo::{self, Undone, UndoneModel};
use crate::{now_script, now_unix};

verus! {

/// Where a command runs and how it answers.
#[derive(Debug)]
pub struct Setting {
    /// The directory that the user is in.
    pub cwd: String,
    /// Where the rehearsals are, where that could be determined.
    pub cache_root: Option<String>,
    /// Whether the answer is one JSON document.
    pub json: bool,
    /// How much of a report gets drawn.
    pub detail: Detail,
}

/// The model of a [`Setting`].
pub struct SettingModel {
    pub cwd: Text,
    pub cache_root: Option<Text>,
    pub json: bool,
    pub detail: Detail,
}

impl DeepView for Setting {
    type V = SettingModel;

    open spec fn deep_view(&self) -> SettingModel {
        SettingModel {
            cwd: self.cwd@,
            cache_root: self.cache_root.deep_view(),
            json: self.json,
            detail: self.detail,
        }
    }
}

// ---------------------------------------------------------------------------
// Where things are
// ---------------------------------------------------------------------------
pub open spec fn root_script(setting: SettingModel, tape: Tape) -> Run<Text> {
    match setting.cache_root {
        Some(root) => Run::Gives(root, tape),
        None => Run::Fails(Fault::NoCacheDir, tape),
    }
}

fn cache_root(setting: &Setting) -> (outcome: Result<String, Stop>)
    ensures
        match setting.deep_view().cache_root {
            Some(root) => outcome matches Ok(found) && found@ == root,
            None => outcome matches Err(Stop::Fail(error)) && error.deep_view()
                == Fault::NoCacheDir,
        },
{
    match &setting.cache_root {
        Some(root) => Ok(root.clone()),
        None => Err(Stop::Fail(Error::NoCacheDir)),
    }
}

pub open spec fn no_repository(cwd: Text) -> Fault {
    Fault::Refused(
        "not a git repository: "@ + displayed(cwd)
            + "\nRun git-rehearse from inside the repository you rehearsed against."@,
    )
}

/// The canonical root of the repository that a directory is in. This is no full
/// preflight: cleaning up has to work in a repository that could not be
/// rehearsed.
#[verifier::opaque]
pub open spec fn top_script(cwd: Text, tape: Tape) -> Run<Text> {
    git::path_script(cwd, seq!["rev-parse"@, "--show-toplevel"@], tape).either(
        |top: Text, tape: Tape| git::canonicalize_script(top, tape),
        |fault: Fault, tape: Tape| Run::Fails(no_repository(cwd), tape),
    )
}

fn top(session: &mut Session, cwd: &str) -> (outcome: Result<String, Stop>)
    ensures
        ran(outcome, final(session)@) == top_script(cwd@, old(session)@),
{
    proof {
        reveal(top_script);
    }
    match caught(git::run_path(session, cwd, args2("rev-parse", "--show-toplevel")))? {
        Ok(top) => git::canonicalize(session, &top),
        Err(_) => Err(
            Stop::Fail(
                Error::Refused(
                    cat3(
                        "not a git repository: ",
                        &display(cwd),
                        "\nRun git-rehearse from inside the repository you rehearsed against.",
                    ),
                ),
            ),
        ),
    }
}

/// The rehearsal that an id names among those of the user's repository.
#[verifier::opaque]
pub open spec fn find_script(setting: SettingModel, id: Option<Text>, tape: Tape) -> Run<
    SandboxModel,
> {
    root_script(setting, tape).and_then(|root: Text, tape: Tape|
    top_script(setting.cwd, tape).and_then(|top: Text, tape: Tape|
        crate::sandbox::store::find_script(root, id_of(top), id, tape)))
}

fn find_rehearsal(session: &mut Session, setting: &Setting, id: &Option<String>) -> (outcome: Result<
    Sandbox,
    Stop,
>)
    ensures
        ran(outcome, final(session)@) == find_script(
            setting.deep_view(),
            id.deep_view(),
            old(session)@,
        ),
{
    proof {
        reveal(find_script);
    }
    let root = cache_root(setting)?;
    let top = top(session, &setting.cwd)?;
    find(session, &root, &repo_id(&top), id)
}

/// Prints a document.
#[verifier::opaque]
pub open spec fn emit_script(document: DocumentModel, tape: Tape) -> Run<()> {
    heard(Ask::Emit(document), |answer: Answer| done_in(answer), tape).and_then(
        |said: HeardModel<()>, tape: Tape|
            match said {
                HeardModel::Got(_) => Run::Gives((), tape),
                HeardModel::Trouble(trouble) => Run::Fails(Fault::Spawn(trouble.message), tape),
            },
    )
}

/// Prints a document.
pub fn emit(session: &mut Session, document: Document) -> (outcome: Result<(), Stop>)
    ensures
        ran(outcome, final(session)@) == emit_script(document.deep_view(), old(session)@),
{
    proof {
        reveal(emit_script);
    }
    match session.done(Request::Emit(document))? {
        Heard::Got(_) => Ok(()),
        Heard::Trouble(trouble) => Err(Stop::Fail(Error::Spawn(trouble.message))),
    }
}

// ---------------------------------------------------------------------------
// What is said
// ---------------------------------------------------------------------------
/// The lines of the refs that ended up somewhere. `HEAD` followed its branch.
pub open spec fn landed_lines(moves: Seq<RefMoveModel>) -> Text
    decreases moves.len(),
{
    if moves.len() == 0 {
        Seq::empty()
    } else if moves.last().name == "HEAD"@ {
        landed_lines(moves.drop_last())
    } else {
        landed_lines(moves.drop_last()) + ("  "@ + moves.last().name + " "@ + (
        match moves.last().after {
            Some(after) => after,
            None => "deleted"@,
        }) + "\n"@)
    }
}

fn list_landed(moves: &Vec<RefMove>) -> (text: String)
    ensures
        text@ == landed_lines(moves.deep_view()),
{
    let ghost all = moves.deep_view();
    let mut text = String::new();
    let mut i: usize = 0;
    assert(all.take(0) =~= Seq::empty());
    assert(text@ =~= landed_lines(all.take(0)));
    while i < moves.len()
        invariant
            i <= moves@.len(),
            all == moves.deep_view(),
            text@ == landed_lines(all.take(i as int)),
        decreases moves@.len() - i,
    {
        assert(all.take(i + 1).drop_last() =~= all.take(i as int));
        assert(all.take(i + 1).last() == moves[i as int].deep_view());
        let moved = &moves[i];
        if !same(&moved.name, "HEAD") {
            let after = match &moved.after {
                Some(after) => after.as_str(),
                None => "deleted",
            };
            text.append(&cat5("  ", &moved.name, " ", after, "\n"));
        }
        i = i + 1;
    }
    assert(all.take(all.len() as int) =~= all);
    text
}

/// The line that says which worktree followed.
pub open spec fn reset_line(reset: Option<Text>) -> Text {
    match reset {
        Some(branch) => "  worktree reset to "@ + branch + "\n"@,
        None => Seq::empty(),
    }
}

fn render_reset(reset: &Option<String>) -> (text: String)
    ensures
        text@ == reset_line(reset.deep_view()),
{
    match reset {
        Some(branch) => cat3("  worktree reset to ", branch, "\n"),
        None => {
            let nothing = String::new();
            assert(nothing@ =~= Seq::<char>::empty());
            nothing
        },
    }
}

/// The line that says what was put back over the worktree.
pub open spec fn put_back_line(carried: Option<Seq<Text>>) -> Text {
    match carried {
        Some(paths) => "  "@ + decimal(paths.len()) + " uncommitted path(s) put back: "@
            + carry::described(paths) + "\n"@,
        None => Seq::empty(),
    }
}

fn render_put_back(carried: &Option<Vec<String>>) -> (text: String)
    ensures
        text@ == put_back_line(carried.deep_view()),
{
    match carried {
        Some(paths) => cat5(
            "  ",
            &show(paths.len() as u64),
            " uncommitted path(s) put back: ",
            &carry::describe(paths),
            "\n",
        ),
        None => {
            let nothing = String::new();
            assert(nothing@ =~= Seq::<char>::empty());
            nothing
        },
    }
}

/// What an apply did, in words.
pub open spec fn applied_words(applied: AppliedModel) -> Text {
    "applied:\n"@ + landed_lines(applied.moved) + reset_line(applied.reset) + put_back_line(
        applied.carried,
    ) + "where everything was is written down in "@ + displayed(applied.undo)
        + "\ntake it back with `git rehearse undo`\n"@
}

fn render_applied(applied: &Applied) -> (text: String)
    ensures
        text@ == applied_words(applied.deep_view()),
{
    cat7(
        "applied:\n",
        &list_landed(&applied.moved),
        &render_reset(&applied.reset),
        &render_put_back(&applied.carried),
        "where everything was is written down in ",
        &display(&applied.undo),
        "\ntake it back with `git rehearse undo`\n",
    )
}

/// What an undo did, in words.
pub open spec fn undone_words(undone: UndoneModel) -> Text {
    "put back:\n"@ + landed_lines(undone.restored) + reset_line(undone.reset)
        + "from the apply of rehearsal "@ + undone.rehearsal + " at "@ + decimal(
        undone.applied_at_unix as nat,
    )
        + " (unix time).\nThe record is used up — one apply is undoable at a time.\n"@
}

fn render_undone(undone: &Undone) -> (text: String)
    ensures
        text@ == undone_words(undone.deep_view()),
{
    let head = cat5(
        "put back:\n",
        &list_landed(&undone.restored),
        &render_reset(&undone.reset),
        "from the apply of rehearsal ",
        &undone.rehearsal,
    );
    cat4(
        &head,
        " at ",
        &show(undone.applied_at_unix),
        " (unix time).\nThe record is used up — one apply is undoable at a time.\n",
    )
}

/// Where a stopped rehearsal is and how to carry it on. A fresh one is gone at
/// the end of the run unless it is kept, so that is said first where there still
/// is a question to answer.
pub open spec fn next_steps(sandbox: SandboxModel, decision: Decision) -> Text {
    "\nto work on it:\n"@ + (if sandbox.meta.status == Status::Fresh && decision == Decision::Ask {
        "  answer [k]eep below, then\n"@
    } else {
        Seq::empty()
    }) + "  cd "@ + displayed(worktree_of(sandbox.root))
        + "\n  # resolve the conflict, then `git add` the files\n  git rehearse continue "@
        + sandbox.meta.id + "\n"@
}

fn render_next_steps(sandbox: &Sandbox, decision: Decision) -> (text: String)
    ensures
        text@ == next_steps(sandbox.deep_view(), decision),
{
    let keep = if sandbox.meta.status == Status::Fresh && decision == Decision::Ask {
        "  answer [k]eep below, then\n".to_owned()
    } else {
        String::new()
    };
    assert(keep@ =~= (if sandbox.meta.status == Status::Fresh && decision == Decision::Ask {
        "  answer [k]eep below, then\n"@
    } else {
        Seq::empty()
    }));
    cat7(
        "\nto work on it:\n",
        &keep,
        "  cd ",
        &display(&sandbox.worktree()),
        "\n  # resolve the conflict, then `git add` the files\n  git rehearse continue ",
        &sandbox.meta.id,
        "\n",
    )
}

/// Said when the question is skipped because there is nobody to answer it: a
/// decision was made on the user's behalf, and nothing else would reveal it.
pub open spec fn nobody_to_ask(choice: Choice) -> Text {
    if choice == Choice::Keep {
        "\nstdin is not a terminal, so there was nobody to ask: the rehearsal was kept.\nCarry it on with `git rehearse continue`, or throw it away with `git rehearse discard`.\n"@
    } else {
        "\nstdin is not a terminal, so there was nobody to ask: the rehearsal was discarded.\nUse --apply to apply it, or --keep to keep it for `git rehearse apply`.\n"@
    }
}

fn render_nobody(choice: Choice) -> (text: String)
    ensures
        text@ == nobody_to_ask(choice),
{
    if choice == Choice::Keep {
        "\nstdin is not a terminal, so there was nobody to ask: the rehearsal was kept.\nCarry it on with `git rehearse continue`, or throw it away with `git rehearse discard`.\n".to_owned()
    } else {
        "\nstdin is not a terminal, so there was nobody to ask: the rehearsal was discarded.\nUse --apply to apply it, or --keep to keep it for `git rehearse apply`.\n".to_owned()
    }
}

// ---------------------------------------------------------------------------
// Deciding
// ---------------------------------------------------------------------------
/// The exit code that describes an outcome. It describes the rehearsal, not what
/// was done with it.
pub open spec fn outcome_code(outcome: Outcome) -> u8 {
    match outcome {
        Outcome::Clean => exit::CLEAN,
        Outcome::Stopped { .. } => exit::STOPPED,
        Outcome::Failed { .. } => exit::FAILED,
    }
}

/// The exit code that describes an outcome.
pub fn code_for_outcome(outcome: &Outcome) -> (code: u8)
    ensures
        code == outcome_code(*outcome),
{
    match outcome {
        Outcome::Clean => exit::CLEAN,
        Outcome::Stopped { .. } => exit::STOPPED,
        Outcome::Failed { .. } => exit::FAILED,
    }
}

pub open spec fn nothing_to_apply() -> Fault {
    Fault::Refused(
        "--apply was asked for, but this rehearsal has nothing that can be applied.\nA command that stopped part-way or failed leaves no result to transplant."@,
    )
}

fn nothing_to_apply_error() -> (error: Error)
    ensures
        error.deep_view() == nothing_to_apply(),
{
    Error::Refused(
        "--apply was asked for, but this rehearsal has nothing that can be applied.\nA command that stopped part-way or failed leaves no result to transplant.".to_owned(),
    )
}

/// Whether there is anybody to ask.
#[verifier::opaque]
pub open spec fn attended_script(tape: Tape) -> Run<bool> {
    heard(Ask::Terminal, |answer: Answer| flag_in(answer), tape).and_then(
        |answer: HeardModel<bool>, tape: Tape| Run::Gives(answer == HeardModel::Got(true), tape),
    )
}

fn attended(session: &mut Session) -> (outcome: Result<bool, Stop>)
    ensures
        ran(outcome, final(session)@) == attended_script(old(session)@),
{
    proof {
        reveal(attended_script);
    }
    match session.flag(Request::Terminal)? {
        Heard::Got(yes) => Ok(yes),
        Heard::Trouble(_) => Ok(false),
    }
}

/// Asks, or decides without asking. A document leaves nobody to ask.
#[verifier::opaque]
pub open spec fn decide_script(
    decision: Decision,
    can_apply: bool,
    outcome: Outcome,
    json: bool,
    tape: Tape,
) -> Run<Choice> {
    match decision {
        Decision::Apply => if can_apply {
            Run::Gives(Choice::Apply, tape)
        } else {
            Run::Fails(nothing_to_apply(), tape)
        },
        Decision::Keep => Run::Gives(Choice::Keep, tape),
        Decision::Ask => if json {
            Run::Gives(unattended(outcome), tape)
        } else {
            attended_script(tape).and_then(|attended: bool, tape: Tape|
                if attended {
                    say_script("\n"@, tape).and_then(
                        |done: (), tape: Tape| ask_from(can_apply, tape),
                    )
                } else {
                    say_script(nobody_to_ask(unattended(outcome)), tape).and_then(
                        |done: (), tape: Tape| Run::Gives(unattended(outcome), tape),
                    )
                })
        },
    }
}

fn decide(
    session: &mut Session,
    decision: Decision,
    can_apply: bool,
    outcome: &Outcome,
    json: bool,
) -> (result: Result<Choice, Stop>)
    ensures
        ran(result, final(session)@) == decide_script(
            decision,
            can_apply,
            *outcome,
            json,
            old(session)@,
        ),
{
    proof {
        reveal(decide_script);
    }
    match decision {
        Decision::Apply => if can_apply {
            Ok(Choice::Apply)
        } else {
            Err(Stop::Fail(nothing_to_apply_error()))
        },
        Decision::Keep => Ok(Choice::Keep),
        Decision::Ask => {
            let choice = non_interactive(outcome);
            if json {
                return Ok(choice);
            }
            if attended(session)? {
                say(session, "\n".to_owned())?;
                return ask(session, can_apply);
            }
            say(session, render_nobody(choice))?;
            Ok(choice)
        },
    }
}

/// Says something, unless the answer is a document.
pub open spec fn tell_script(json: bool, text: Text, tape: Tape) -> Run<()> {
    if json {
        Run::Gives((), tape)
    } else {
        say_script(text, tape)
    }
}

fn tell(session: &mut Session, json: bool, text: String) -> (outcome: Result<(), Stop>)
    ensures
        ran(outcome, final(session)@) == tell_script(json, text@, old(session)@),
{
    if json {
        Ok(())
    } else {
        say(session, text)
    }
}

pub open spec fn kept_words(id: Text) -> Text {
    "kept as "@ + id + " — `git rehearse show "@ + id + "` to see it again\n"@
}

/// Carries out a choice, and gives what was applied.
#[verifier::opaque]
pub open spec fn act_script(choice: Choice, sandbox: SandboxModel, json: bool, tape: Tape) -> Run<
    Option<AppliedModel>,
> {
    match choice {
        Choice::Apply => now_script(tape).and_then(|now: u64, tape: Tape|
        apply::run_script(sandbox, now, tape).and_then(|applied: AppliedModel, tape: Tape|
        tell_script(json, applied_words(applied), tape).and_then(|done: (), tape: Tape|
        remove_rehearsal_script(sandbox.root, tape).and_then(|done: (), tape: Tape|
            Run::Gives(Some(applied), tape))))),
        Choice::Discard => remove_rehearsal_script(sandbox.root, tape).and_then(
            |done: (), tape: Tape| Run::Gives(None, tape),
        ),
        Choice::Keep => meta::write_script(with_kept(sandbox.meta), sandbox.root, tape).and_then(
            |done: (), tape: Tape|
                tell_script(json, kept_words(sandbox.meta.id), tape).and_then(
                    |done: (), tape: Tape| Run::Gives(None, tape),
                ),
        ),
    }
}

fn act(session: &mut Session, choice: Choice, sandbox: Sandbox, json: bool) -> (outcome: Result<
    Option<Applied>,
    Stop,
>)
    ensures
        ran(outcome, final(session)@) == act_script(
            choice,
            sandbox.deep_view(),
            json,
            old(session)@,
        ),
{
    proof {
        reveal(act_script);
    }
    match choice {
        Choice::Apply => {
            let now = now_unix(session)?;
            let applied = apply::run(session, &sandbox, now)?;
            tell(session, json, render_applied(&applied))?;
            sandbox.discard(session)?;
            Ok(Some(applied))
        },
        Choice::Discard => {
            sandbox.discard(session)?;
            Ok(None)
        },
        Choice::Keep => {
            let mut sandbox = sandbox;
            sandbox.keep(session)?;
            let id = sandbox.id();
            tell(
                session,
                json,
                cat5("kept as ", id, " — `git rehearse show ", id, "` to see it again\n"),
            )?;
            Ok(None)
        },
    }
}

/// What a finished rehearsal says before anything is decided. A blank line comes
/// first, because git has just written to the same terminal.
#[verifier::opaque]
pub open spec fn report_script(
    sandbox: SandboxModel,
    analysis: AnalysisModel,
    outcome: Outcome,
    decision: Decision,
    detail: Detail,
    tape: Tape,
) -> Run<()> {
    graphs_script(worktree_of(sandbox.root), analysis, detail, tape).and_then(
        |graphs: Seq<GraphModel>, tape: Tape|
    say_script(
        "\n"@ + report_text(sandbox.meta, analysis, outcome, graphs),
        tape,
    ).and_then(|done: (), tape: Tape|
        if outcome is Stopped {
            say_script(next_steps(sandbox, decision), tape)
        } else {
            Run::Gives((), tape)
        }))
}

fn report(
    session: &mut Session,
    sandbox: &Sandbox,
    analysis: &Analysis,
    outcome: &Outcome,
    decision: Decision,
    detail: Detail,
) -> (result: Result<(), Stop>)
    ensures
        ran(result, final(session)@) == report_script(
            sandbox.deep_view(),
            analysis.deep_view(),
            *outcome,
            decision,
            detail,
            old(session)@,
        ),
{
    proof {
        reveal(report_script);
    }
    let drawn = graphs(session, &sandbox.worktree(), analysis, detail)?;
    let text = render(&sandbox.meta, analysis, outcome, &drawn);
    say(session, cat2("\n", &text))?;
    match outcome {
        Outcome::Stopped { .. } => say(session, render_next_steps(sandbox, decision)),
        _ => Ok(()),
    }
}

/// Reports on a finished rehearsal, decides what to do with it, and does that.
#[verifier::opaque]
pub open spec fn finish_script(
    sandbox: SandboxModel,
    outcome: Outcome,
    decision: Decision,
    setting: SettingModel,
    tape: Tape,
) -> Run<u8> {
    let code = outcome_code(outcome);
    analyze::run_script(
        worktree_of(sandbox.root),
        sandbox.meta.pre_state,
        sandbox.meta.command,
        outcome,
        tape,
    ).and_then(|analysis: AnalysisModel, tape: Tape|
        {
            let applicable = is_applicable(analysis, outcome);
            (if setting.json {
                Run::Gives((), tape)
            } else {
                report_script(sandbox, analysis, outcome, decision, setting.detail, tape)
            }).and_then(|done: (), tape: Tape|
            decide_script(decision, applicable, outcome, setting.json, tape).and_then(
                |choice: Choice, tape: Tape|
            act_script(choice, sandbox, setting.json, tape).and_then(
                |applied: Option<AppliedModel>, tape: Tape|
            (if setting.json {
                emit_script(
                    DocumentModel::Report(
                        report_of(
                            sandbox,
                            analysis,
                            outcome,
                            code,
                            applicable,
                            choice,
                            applied,
                        ),
                    ),
                    tape,
                )
            } else {
                Run::Gives((), tape)
            }).and_then(|done: (), tape: Tape| Run::Gives(code, tape)))))
        })
}

fn finish(
    session: &mut Session,
    sandbox: Sandbox,
    outcome: &Outcome,
    decision: Decision,
    setting: &Setting,
) -> (result: Result<u8, Stop>)
    ensures
        ran(result, final(session)@) == finish_script(
            sandbox.deep_view(),
            *outcome,
            decision,
            setting.deep_view(),
            old(session)@,
        ),
{
    proof {
        reveal(finish_script);
    }
    let worktree = sandbox.worktree();
    let analysis = analyze::run(
        session,
        &worktree,
        &sandbox.meta.pre_state,
        &sandbox.meta.command,
        outcome,
    )?;
    let code = code_for_outcome(outcome);
    let applicable = can_apply(&analysis, outcome);
    if !setting.json {
        report(session, &sandbox, &analysis, outcome, decision, setting.detail)?;
    }
    let choice = decide(session, decision, applicable, outcome, setting.json)?;
    let mirror = Sandbox { root: sandbox.root.clone(), meta: sandbox.meta.copy() };
    let applied = act(session, choice, sandbox, setting.json)?;
    if setting.json {
        let document = Report::new(
            &mirror,
            &analysis,
            outcome,
            code,
            applicable,
            choice,
            applied.as_ref(),
        );
        emit(session, Document::Report(document))?;
    }
    Ok(code)
}

// ---------------------------------------------------------------------------
// Rehearsing and continuing
// ---------------------------------------------------------------------------
/// Writes down how a rehearsal went, and finishes it.
#[verifier::opaque]
pub open spec fn record_script(
    sandbox: SandboxModel,
    outcome: Outcome,
    decision: Decision,
    setting: SettingModel,
    tape: Tape,
) -> Run<u8> {
    let recorded = SandboxModel { meta: with_result(sandbox.meta, outcome), ..sandbox };
    meta::write_script(recorded.meta, recorded.root, tape).and_then(|done: (), tape: Tape|
        finish_script(recorded, outcome, decision, setting, tape))
}

fn record(
    session: &mut Session,
    sandbox: Sandbox,
    outcome: &Outcome,
    decision: Decision,
    setting: &Setting,
) -> (result: Result<u8, Stop>)
    ensures
        ran(result, final(session)@) == record_script(
            sandbox.deep_view(),
            *outcome,
            decision,
            setting.deep_view(),
            old(session)@,
        ),
{
    proof {
        reveal(record_script);
    }
    let mut sandbox = sandbox;
    sandbox.record(session, outcome)?;
    finish(session, sandbox, outcome, decision, setting)
}

/// The todo that a file holds, where one was given.
pub open spec fn given_todo_script(todo: Option<Text>, tape: Tape) -> Run<Option<TodoModel>> {
    match todo {
        Some(file) => execute::todo_script(file, tape).and_then(|todo: TodoModel, tape: Tape|
            Run::Gives(Some(todo), tape)),
        None => Run::Gives(None, tape),
    }
}

fn given_todo(session: &mut Session, todo: Option<String>) -> (outcome: Result<Option<Todo>, Stop>)
    ensures
        ran(outcome, final(session)@) == given_todo_script(todo.deep_view(), old(session)@),
{
    match todo {
        Some(file) => {
            let todo = Todo::new(session, file)?;
            Ok(Some(todo))
        },
        None => Ok(None),
    }
}

/// The whole rehearsal: preflight, sandbox, run, put carried work back, analyse,
/// report, decide.
#[verifier::opaque]
pub open spec fn rehearse_script(
    command: Seq<Text>,
    todo: Option<Text>,
    decision: Decision,
    setting: SettingModel,
    tape: Tape,
) -> Run<u8> {
    preflight::run_script(setting.cwd, tape).and_then(|found: PreflightModel, tape: Tape|
    root_script(setting, tape).and_then(|root: Text, tape: Tape|
    now_script(tape).and_then(|now: u64, tape: Tape|
    crate::sandbox::lifecycle::create_script(
        root,
        preflight::plan_of(found, command),
        now,
        tape,
    ).and_then(|sandbox: SandboxModel, tape: Tape|
    given_todo_script(todo, tape).and_then(|todo: Option<TodoModel>, tape: Tape|
    execute::run_script(worktree_of(sandbox.root), command, todo, tape).and_then(
        |outcome: Outcome, tape: Tape|
    carry::after_command_script(sandbox, outcome, tape).and_then(
        |after: (Outcome, SandboxModel), tape: Tape|
            record_script(after.1, after.0, decision, setting, tape))))))))
}

/// The whole rehearsal flow.
pub fn rehearse(
    session: &mut Session,
    command: Vec<String>,
    todo: Option<String>,
    decision: Decision,
    setting: &Setting,
) -> (result: Result<u8, Stop>)
    ensures
        ran(result, final(session)@) == rehearse_script(
            command.deep_view(),
            todo.deep_view(),
            decision,
            setting.deep_view(),
            old(session)@,
        ),
{
    proof {
        reveal(rehearse_script);
    }
    let found = preflight::run(session, &setting.cwd)?;
    let plan = found.into_plan(command);
    let root = cache_root(setting)?;
    let now = now_unix(session)?;
    let mut sandbox = create(session, &root, &plan, now)?;
    let todo = given_todo(session, todo)?;
    let outcome = execute::run(session, &sandbox.worktree(), &plan.command, &todo)?;
    let outcome = carry::after_command(session, &mut sandbox, outcome)?;
    record(session, sandbox, &outcome, decision, setting)
}

/// Carries a stopped rehearsal on: what stopped on putting the uncommitted work
/// back is finished there, and what stopped in the command goes on in git.
#[verifier::opaque]
pub open spec fn carry_on_script(sandbox: SandboxModel, tape: Tape) -> Run<
    (Outcome, SandboxModel),
> {
    if carry::waits_on_replay(sandbox.meta) {
        carry::resume_script(sandbox, tape)
    } else {
        execute::resume_script(worktree_of(sandbox.root), tape).and_then(
            |outcome: Outcome, tape: Tape| carry::after_command_script(sandbox, outcome, tape),
        )
    }
}

fn carry_on(session: &mut Session, sandbox: &mut Sandbox) -> (result: Result<Outcome, Stop>)
    ensures
        ran_with(result, final(sandbox).deep_view(), final(session)@) == carry_on_script(
            old(sandbox).deep_view(),
            old(session)@,
        ),
{
    proof {
        reveal(carry_on_script);
    }
    if carry::stopped_on_replay(&sandbox.meta) {
        return carry::resume(session, sandbox);
    }
    let outcome = execute::resume(session, &sandbox.worktree())?;
    carry::after_command(session, sandbox, outcome)
}

/// Carries on a rehearsal that stopped, then reports on where it got to.
#[verifier::opaque]
pub open spec fn resume_script(
    id: Option<Text>,
    decision: Decision,
    setting: SettingModel,
    tape: Tape,
) -> Run<u8> {
    find_script(setting, id, tape).and_then(|sandbox: SandboxModel, tape: Tape|
    carry_on_script(sandbox, tape).and_then(|after: (Outcome, SandboxModel), tape: Tape|
        record_script(after.1, after.0, decision, setting, tape)))
}

/// Carries on a rehearsal that stopped, then reports on where it got to.
pub fn resume(session: &mut Session, id: &Option<String>, decision: Decision, setting: &Setting) -> (
    result: Result<u8, Stop>)
    ensures
        ran(result, final(session)@) == resume_script(
            id.deep_view(),
            decision,
            setting.deep_view(),
            old(session)@,
        ),
{
    proof {
        reveal(resume_script);
    }
    let mut sandbox = find_rehearsal(session, setting, id)?;
    let outcome = carry_on(session, &mut sandbox)?;
    record(session, sandbox, &outcome, decision, setting)
}

// ---------------------------------------------------------------------------
// Managing
// ---------------------------------------------------------------------------
/// How a status is shown.
pub open spec fn status_words(status: Status) -> Text {
    match status {
        Status::Fresh => "Fresh"@,
        Status::Kept => "Kept"@,
    }
}

/// The lines of a listing.
pub open spec fn listing_lines(found: Seq<SandboxModel>) -> Text
    decreases found.len(),
{
    if found.len() == 0 {
        Seq::empty()
    } else {
        let meta = found.last().meta;
        listing_lines(found.drop_last()) + (meta.id + "  "@ + status_words(meta.status)
            + "  git "@ + joined(meta.command, " "@) + "\n"@)
    }
}

/// The listing in words.
pub open spec fn listing_words(found: Seq<SandboxModel>, pruned: nat) -> Text {
    (if found.len() == 0 {
        "no rehearsals for this repository\n"@
    } else {
        listing_lines(found)
    }) + (if pruned == 0 {
        Seq::empty()
    } else {
        "("@ + decimal(pruned) + " rehearsal(s) older than 7 days pruned)\n"@
    })
}

/// The entries of a listing.
pub open spec fn entries_of(found: Seq<SandboxModel>) -> Seq<EntryModel> {
    found.map_values(|sandbox: SandboxModel| entry_of(sandbox))
}

fn render_listing(found: &Vec<Sandbox>, pruned: usize) -> (text: String)
    ensures
        text@ == listing_words(found.deep_view(), pruned as nat),
{
    let ghost all = found.deep_view();
    let mut text = String::new();
    let mut i: usize = 0;
    assert(all.take(0) =~= Seq::empty());
    assert(text@ =~= listing_lines(all.take(0)));
    while i < found.len()
        invariant
            i <= found@.len(),
            all == found.deep_view(),
            text@ == listing_lines(all.take(i as int)),
        decreases found@.len() - i,
    {
        assert(all.take(i + 1).drop_last() =~= all.take(i as int));
        assert(all.take(i + 1).last() == found[i as int].deep_view());
        let meta = &found[i].meta;
        let status = match meta.status {
            Status::Fresh => "Fresh",
            Status::Kept => "Kept",
        };
        let line = cat5(&meta.id, "  ", status, "  git ", &join(&meta.command, " "));
        text.append(&cat2(&line, "\n"));
        i = i + 1;
    }
    assert(all.take(all.len() as int) =~= all);
    if found.len() == 0 {
        text = "no rehearsals for this repository\n".to_owned();
    }
    let swept = if pruned == 0 {
        String::new()
    } else {
        cat3("(", &show(pruned as u64), " rehearsal(s) older than 7 days pruned)\n")
    };
    assert(pruned == 0 ==> swept@ =~= Seq::<char>::empty());
    cat2(&text, &swept)
}

fn list_entries(found: &Vec<Sandbox>) -> (entries: Vec<Entry>)
    ensures
        entries.deep_view() == entries_of(found.deep_view()),
{
    let ghost all = found.deep_view();
    let mut entries: Vec<Entry> = Vec::new();
    let mut i: usize = 0;
    assert(entries.deep_view() =~= entries_of(all).take(0));
    while i < found.len()
        invariant
            i <= found@.len(),
            all == found.deep_view(),
            entries.deep_view() == entries_of(all).take(i as int),
        decreases found@.len() - i,
    {
        put(&mut entries, Entry::of(&found[i]));
        i = i + 1;
        assert(entries_of(all).take(i as int) =~= entries_of(all).take(i - 1).push(
            entries_of(all)[i - 1],
        ));
    }
    assert(entries_of(all).take(all.len() as int) =~= entries_of(all));
    entries
}

/// Lists the rehearsals of the user's repository, pruning expired ones first.
#[verifier::opaque]
pub open spec fn list_script(setting: SettingModel, tape: Tape) -> Run<u8> {
    root_script(setting, tape).and_then(|root: Text, tape: Tape|
    now_script(tape).and_then(|now: u64, tape: Tape|
    crate::sandbox::store::prune_script(root, now, DEFAULT_TTL_SECS, tape).and_then(
        |pruned: Seq<Text>, tape: Tape|
    top_script(setting.cwd, tape).and_then(|top: Text, tape: Tape|
    crate::sandbox::store::list_script(root, Some(id_of(top)), tape).and_then(
        |found: Seq<SandboxModel>, tape: Tape|
    (if setting.json {
        emit_script(
            DocumentModel::Listing { schema: SCHEMA, rehearsals: entries_of(found), pruned },
            tape,
        )
    } else {
        say_script(listing_words(found, pruned.len()), tape)
    }).and_then(|done: (), tape: Tape| Run::Gives(exit::CLEAN, tape)))))))
}

/// Lists the rehearsals of the user's repository, pruning expired ones first.
pub fn list_all(session: &mut Session, setting: &Setting) -> (result: Result<u8, Stop>)
    ensures
        ran(result, final(session)@) == list_script(setting.deep_view(), old(session)@),
{
    proof {
        reveal(list_script);
    }
    let root = cache_root(setting)?;
    let now = now_unix(session)?;
    let pruned = prune(session, &root, now, DEFAULT_TTL_SECS)?;
    let top = top(session, &setting.cwd)?;
    let found = list(session, &root, &Some(repo_id(&top)))?;
    if setting.json {
        let rehearsals = list_entries(&found);
        emit(session, Document::Listing(Listing { schema: SCHEMA, rehearsals, pruned }))?;
    } else {
        say(session, render_listing(&found, pruned.len()))?;
    }
    Ok(exit::CLEAN)
}

pub open spec fn never_ran(id: Text) -> Fault {
    Fault::Refused("rehearsal "@ + id + " never ran a command, so there is no report."@)
}

/// Prints a rehearsal's report again. What the command did is remembered rather
/// than derived anew.
#[verifier::opaque]
pub open spec fn show_script(id: Option<Text>, setting: SettingModel, tape: Tape) -> Run<u8> {
    find_script(setting, id, tape).and_then(|sandbox: SandboxModel, tape: Tape|
        match sandbox.meta.result {
            None => Run::Fails(never_ran(sandbox.meta.id), tape),
            Some(outcome) => analyze::run_script(
                worktree_of(sandbox.root),
                sandbox.meta.pre_state,
                sandbox.meta.command,
                outcome,
                tape,
            ).and_then(|analysis: AnalysisModel, tape: Tape|
            (if setting.json {
                emit_script(
                    DocumentModel::Report(
                        report_of(
                            sandbox,
                            analysis,
                            outcome,
                            exit::CLEAN,
                            is_applicable(analysis, outcome),
                            Choice::Keep,
                            None,
                        ),
                    ),
                    tape,
                )
            } else {
                graphs_script(
                    worktree_of(sandbox.root),
                    analysis,
                    setting.detail,
                    tape,
                ).and_then(|graphs: Seq<GraphModel>, tape: Tape|
                    say_script(report_text(sandbox.meta, analysis, outcome, graphs), tape))
            }).and_then(|done: (), tape: Tape| Run::Gives(exit::CLEAN, tape))),
        })
}

/// Prints a rehearsal's report again.
pub fn show_again(session: &mut Session, id: &Option<String>, setting: &Setting) -> (result: Result<
    u8,
    Stop,
>)
    ensures
        ran(result, final(session)@) == show_script(
            id.deep_view(),
            setting.deep_view(),
            old(session)@,
        ),
{
    proof {
        reveal(show_script);
    }
    let sandbox = find_rehearsal(session, setting, id)?;
    let meta = &sandbox.meta;
    let outcome = match meta.result {
        Some(outcome) => outcome,
        None => {
            return Err(
                Stop::Fail(
                    Error::Refused(
                        cat3(
                            "rehearsal ",
                            &meta.id,
                            " never ran a command, so there is no report.",
                        ),
                    ),
                ),
            );
        },
    };
    let worktree = sandbox.worktree();
    let analysis = analyze::run(session, &worktree, &meta.pre_state, &meta.command, &outcome)?;
    if setting.json {
        let document = Report::new(
            &sandbox,
            &analysis,
            &outcome,
            exit::CLEAN,
            can_apply(&analysis, &outcome),
            Choice::Keep,
            None,
        );
        emit(session, Document::Report(document))?;
    } else {
        let drawn = graphs(session, &worktree, &analysis, setting.detail)?;
        say(session, render(meta, &analysis, &outcome, &drawn))?;
    }
    Ok(exit::CLEAN)
}

/// Applies a rehearsal that was kept.
#[verifier::opaque]
pub open spec fn apply_script(id: Option<Text>, setting: SettingModel, tape: Tape) -> Run<u8> {
    find_script(setting, id, tape).and_then(|sandbox: SandboxModel, tape: Tape|
    act_script(Choice::Apply, sandbox, setting.json, tape).and_then(
        |applied: Option<AppliedModel>, tape: Tape|
    (match applied {
        Some(applied) if setting.json => emit_script(
            DocumentModel::Apply {
                schema: SCHEMA,
                id: sandbox.meta.id,
                repository: displayed(sandbox.meta.repo_path),
                exit_code: exit::CLEAN,
                applied: applied_document(applied),
            },
            tape,
        ),
        _ => Run::Gives((), tape),
    }).and_then(|done: (), tape: Tape| Run::Gives(exit::CLEAN, tape))))
}

/// Applies a rehearsal that was kept.
pub fn apply_kept(session: &mut Session, id: &Option<String>, setting: &Setting) -> (result: Result<
    u8,
    Stop,
>)
    ensures
        ran(result, final(session)@) == apply_script(
            id.deep_view(),
            setting.deep_view(),
            old(session)@,
        ),
{
    proof {
        reveal(apply_script);
    }
    let sandbox = find_rehearsal(session, setting, id)?;
    let name = sandbox.meta.id.clone();
    let repository = display(&sandbox.meta.repo_path);
    let applied = act(session, Choice::Apply, sandbox, setting.json)?;
    if let Some(applied) = applied {
        if setting.json {
            emit(
                session,
                Document::Apply(
                    ApplyResult {
                        schema: SCHEMA,
                        id: name,
                        repository,
                        exit_code: exit::CLEAN,
                        applied: applied_report(&applied),
                    },
                ),
            )?;
        }
    }
    Ok(exit::CLEAN)
}

/// Puts the refs back where the last apply found them.
#[verifier::opaque]
pub open spec fn undo_script(id: Option<Text>, setting: SettingModel, tape: Tape) -> Run<u8> {
    top_script(setting.cwd, tape).and_then(|top: Text, tape: Tape|
    undo::run_script(top, id, tape).and_then(|undone: UndoneModel, tape: Tape|
    (if setting.json {
        emit_script(undo_document(undone, exit::CLEAN), tape)
    } else {
        say_script(undone_words(undone), tape)
    }).and_then(|done: (), tape: Tape| Run::Gives(exit::CLEAN, tape))))
}

/// Puts the refs back where the last apply found them.
pub fn undo_last(session: &mut Session, id: &Option<String>, setting: &Setting) -> (result: Result<
    u8,
    Stop,
>)
    ensures
        ran(result, final(session)@) == undo_script(
            id.deep_view(),
            setting.deep_view(),
            old(session)@,
        ),
{
    proof {
        reveal(undo_script);
    }
    let top = top(session, &setting.cwd)?;
    let wanted = match id {
        Some(id) => Some(id.as_str()),
        None => None,
    };
    let undone = undo::run(session, &top, wanted)?;
    if setting.json {
        emit(session, Document::Undo(UndoResult::new(&undone, exit::CLEAN)))?;
    } else {
        say(session, render_undone(&undone))?;
    }
    Ok(exit::CLEAN)
}

/// Throws rehearsals away one by one, and gives their ids.
pub open spec fn discard_from(found: Seq<SandboxModel>, gone: Seq<Text>, tape: Tape) -> Run<
    Seq<Text>,
>
    decreases found.len(),
{
    if found.len() == 0 {
        Run::Gives(gone, tape)
    } else {
        match remove_rehearsal_script(found[0].root, tape) {
            Run::Gives(_, tape) => discard_from(
                found.drop_first(),
                gone.push(found[0].meta.id),
                tape,
            ),
            Run::Fails(fault, tape) => Run::Fails(fault, tape),
            Run::Asks(ask, tape) => Run::Asks(ask, tape),
        }
    }
}

fn discard_each(session: &mut Session, found: &Vec<Sandbox>) -> (result: Result<Vec<String>, Stop>)
    ensures
        ran(result, final(session)@) == discard_from(
            found.deep_view(),
            Seq::empty(),
            old(session)@,
        ),
{
    let ghost all = found.deep_view();
    let mut gone: Vec<String> = Vec::new();
    let mut i: usize = 0;
    assert(all.skip(0) =~= all);
    assert(gone.deep_view() =~= Seq::empty());
    while i < found.len()
        invariant
            i <= found@.len(),
            all == found.deep_view(),
            discard_from(all, Seq::empty(), old(session)@) == discard_from(
                all.skip(i as int),
                gone.deep_view(),
                session@,
            ),
        decreases found@.len() - i,
    {
        assert(all.skip(i as int).drop_first() =~= all.skip(i + 1));
        assert(all.skip(i as int)[0] == found[i as int].deep_view());
        crate::sandbox::store::remove_rehearsal(session, &found[i].root)?;
        put(&mut gone, found[i].meta.id.clone());
        i = i + 1;
    }
    Ok(gone)
}

/// The rehearsals that are thrown away.
#[verifier::opaque]
pub open spec fn doomed_script(id: Option<Text>, all: bool, setting: SettingModel, tape: Tape) -> Run<
    Seq<SandboxModel>,
> {
    if all {
        root_script(setting, tape).and_then(|root: Text, tape: Tape|
        top_script(setting.cwd, tape).and_then(|top: Text, tape: Tape|
            crate::sandbox::store::list_script(root, Some(id_of(top)), tape)))
    } else {
        find_script(setting, id, tape).and_then(|sandbox: SandboxModel, tape: Tape|
            Run::Gives(seq![sandbox], tape))
    }
}

fn doomed(session: &mut Session, id: &Option<String>, all: bool, setting: &Setting) -> (result: Result<
    Vec<Sandbox>,
    Stop,
>)
    ensures
        ran(result, final(session)@) == doomed_script(
            id.deep_view(),
            all,
            setting.deep_view(),
            old(session)@,
        ),
{
    proof {
        reveal(doomed_script);
    }
    if all {
        let root = cache_root(setting)?;
        let top = top(session, &setting.cwd)?;
        return list(session, &root, &Some(repo_id(&top)));
    }
    let sandbox = find_rehearsal(session, setting, id)?;
    let found = vec![sandbox];
    assert(found.deep_view() =~= seq![sandbox.deep_view()]);
    Ok(found)
}

/// What was thrown away, in words.
pub open spec fn discarded_words(gone: Seq<Text>, all: bool) -> Text {
    if all {
        "discarded "@ + decimal(gone.len()) + " rehearsal(s)\n"@
    } else {
        "discarded "@ + joined(gone, " "@) + "\n"@
    }
}

/// Throws one rehearsal, or all, away.
#[verifier::opaque]
pub open spec fn discard_script(
    id: Option<Text>,
    all: bool,
    setting: SettingModel,
    tape: Tape,
) -> Run<u8> {
    doomed_script(id, all, setting, tape).and_then(|found: Seq<SandboxModel>, tape: Tape|
    discard_from(found, Seq::empty(), tape).and_then(|gone: Seq<Text>, tape: Tape|
    (if setting.json {
        emit_script(
            DocumentModel::Discard { schema: SCHEMA, discarded: gone, exit_code: exit::CLEAN },
            tape,
        )
    } else {
        say_script(discarded_words(gone, all), tape)
    }).and_then(|done: (), tape: Tape| Run::Gives(exit::CLEAN, tape))))
}

/// Throws one rehearsal, or all, away.
pub fn discard(session: &mut Session, id: &Option<String>, all: bool, setting: &Setting) -> (result:
    Result<u8, Stop>)
    ensures
        ran(result, final(session)@) == discard_script(
            id.deep_view(),
            all,
            setting.deep_view(),
            old(session)@,
        ),
{
    proof {
        reveal(discard_script);
    }
    let found = doomed(session, id, all, setting)?;
    let gone = discard_each(session, &found)?;
    if setting.json {
        emit(
            session,
            Document::Discard(
                DiscardResult { schema: SCHEMA, discarded: gone, exit_code: exit::CLEAN },
            ),
        )?;
    } else if all {
        say(session, cat3("discarded ", &show(gone.len() as u64), " rehearsal(s)\n"))?;
    } else {
        say(session, cat3("discarded ", &join(&gone, " "), "\n"))?;
    }
    Ok(exit::CLEAN)
}

} // verus!
