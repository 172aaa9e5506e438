//! What becomes of a rehearsal, and what the exit code says.

use vstd::prelude::*;

use crate::analyze::{self, AnalysisModel};
use crate::apply::{self, AppliedModel};
use crate::carry;
use crate::cli::flow::{
    act_script, attended_script, decide_script, finish_script, given_todo_script, record_script,
    rehearse_script, report_script, tell_script, SettingModel,
};
use crate::cli::{result_code, Decision};
use crate::error::{Error, Fault};
use crate::execute::{self, Outcome};
use crate::guarantees::conversation::{
    going_on_adds_up, is_complete, is_exchange, left_by, requests_are_exchanges, was_asked,
};
use crate::now_script;
use crate::parts::trimmed;
use crate::paths::inside;
use crate::preflight::{self, PreflightModel};
use crate::report::{
    ask_from, choice_in, lowered, options, read_line_script, say_script, Choice,
};
use crate::sandbox::lifecycle::create_script;
use crate::sandbox::meta::{self, MetaModel, Status};
use crate::sandbox::store::{
    by_age, expired, meant, no_id_means_the_newest, remove_rehearsal_script, DEFAULT_TTL_SECS,
};
use crate::sandbox::{worktree_of, PlanModel, SandboxModel};
use crate::session::{further, Answer, Ask, Run, Tape};
use crate::text::Text;

verus! {

/// The exit code of an outcome: zero where it is clean, two where the command stopped
/// part-way and three where it failed.
pub open spec fn code_of(outcome: Outcome) -> int {
    match outcome {
        Outcome::Clean => 0,
        Outcome::Stopped { .. } => 2,
        Outcome::Failed { .. } => 3,
    }
}

/// The exit code tells outcomes, refusals and errors apart, by the numbers that programs
/// rely on.
pub proof fn exit_codes_are_what_programs_rely_on(
    sandbox: SandboxModel,
    outcome: Outcome,
    decision: Decision,
    setting: SettingModel,
    tape: Tape,
    error: Error,
)
    ensures
        finish_script(sandbox, outcome, decision, setting, tape) matches Run::Gives(code, _)
            ==> code == code_of(outcome),
        forall|code: u8| result_code(Ok(code)) == code,
        error is Refused ==> result_code(Err(error)) == 4,
        !(error is Refused) ==> result_code(Err(error)) == 1,
{
    reveal(finish_script);
}

proof fn sayings_are_exchanges()
    ensures
        forall|text: Text, tape: Tape|
            is_complete(tape) ==> is_exchange(
                #[trigger] say_script(text, tape),
                Ask::Print(text),
                tape,
            ),
        forall|tape: Tape|
            is_complete(tape) ==> is_exchange(
                #[trigger] read_line_script(tape),
                Ask::ReadLine,
                tape,
            ),
        forall|tape: Tape|
            is_complete(tape) ==> (#[trigger] read_line_script(tape) matches Run::Gives(line, _)
                ==> tape.log[tape.next] == Answer::Text(line)),
        forall|root: Text, tape: Tape|
            is_complete(tape) ==> is_exchange(
                #[trigger] remove_rehearsal_script(root, tape),
                Ask::RemoveTree(root),
                tape,
            ),
        forall|tape: Tape|
            is_complete(tape) ==> is_exchange(
                #[trigger] now_script(tape),
                Ask::Now,
                tape,
            ),
        forall|tape: Tape|
            is_complete(tape) ==> is_exchange(
                #[trigger] attended_script(tape),
                Ask::Terminal,
                tape,
            ),
        forall|tape: Tape|
            is_complete(tape) ==> (#[trigger] attended_script(tape) matches Run::Gives(attended, _)
                ==> attended == (tape.log[tape.next] == Answer::Flag(true))),
{
    reveal(say_script);
    reveal(read_line_script);
    reveal(remove_rehearsal_script);
    reveal(now_script);
    reveal(attended_script);
}

/// Discarding removes the rehearsal and does nothing else.
pub proof fn discarding_removes_the_rehearsal(
    sandbox: SandboxModel,
    json: bool,
    tape: Tape,
    later: Tape,
    applied: Option<AppliedModel>,
)
    requires
        is_complete(tape),
        act_script(Choice::Discard, sandbox, json, tape) == Run::Gives(applied, later),
    ensures
        applied is None,
        later == further(tape, Ask::RemoveTree(sandbox.root)),
{
    reveal(act_script);
    sayings_are_exchanges();
}

/// Keeping records that the rehearsal is kept, changes nothing else of what is known of
/// it, and removes nothing.
pub proof fn keeping_keeps_the_rehearsal(
    sandbox: SandboxModel,
    json: bool,
    tape: Tape,
    later: Tape,
    applied: Option<AppliedModel>,
)
    requires
        is_complete(tape),
        act_script(Choice::Keep, sandbox, json, tape) == Run::Gives(applied, later),
    ensures
        applied is None,
        later.asks[tape.next] == Ask::EncodeMeta(
            MetaModel { status: Status::Kept, ..sandbox.meta },
        ),
        was_asked(
            Ask::Rename(
                inside(sandbox.root, "meta.json.tmp"@),
                inside(sandbox.root, "meta.json"@),
            ),
            tape,
            later,
            tape.next + 2,
        ),
        forall|i: int| tape.next <= i < later.next ==> !(#[trigger] later.asks[i] is RemoveTree),
{
    reveal(act_script);
    reveal(tell_script);
    reveal(meta::write_script);
    requests_are_exchanges();
    sayings_are_exchanges();
}

/// Applying applies the rehearsal, and removes it only once it is applied.
pub proof fn applying_removes_what_was_applied(
    sandbox: SandboxModel,
    json: bool,
    tape: Tape,
)
    requires
        is_complete(tape),
    ensures
        ({
            let run = act_script(Choice::Apply, sandbox, json, tape);
            let t1 = further(tape, Ask::Now);
            let now = match tape.log[tape.next] {
                Answer::Number(seconds) => seconds,
                _ => 0u64,
            };
            run matches Run::Gives(applied, later) ==> {
                &&& applied matches Some(applied) && (apply::run_script(
                    sandbox,
                    now,
                    t1,
                ) matches Run::Gives(done, mid) && done == applied)
                &&& later.asks.last() == Ask::RemoveTree(sandbox.root)
            }
        }),
        ({
            let run = act_script(Choice::Apply, sandbox, json, tape);
            let t1 = further(tape, Ask::Now);
            let now = match tape.log[tape.next] {
                Answer::Number(seconds) => seconds,
                _ => 0u64,
            };
            tape.next < tape.log.len() && apply::run_script(sandbox, now, t1) is Fails ==> run is Fails
                && left_by(run) == left_by(apply::run_script(sandbox, now, t1))
        }),
{
    reveal(act_script);
    reveal(tell_script);
    reveal(now_script);
    going_on_adds_up();
    sayings_are_exchanges();
    reveal(remove_rehearsal_script);
    reveal(say_script);
}

/// What a rehearsal is decided to be: `--apply` applies it where it finished and moved
/// something and is refused where not, `--keep` keeps it, and where nobody is there to
/// answer it is kept where it stopped and else discarded.
pub proof fn decisions_are_followed(
    decision: Decision,
    can_apply: bool,
    outcome: Outcome,
    json: bool,
    tape: Tape,
)
    requires
        is_complete(tape),
    ensures
        ({
            let run = decide_script(decision, can_apply, outcome, json, tape);
            &&& decision == Decision::Apply && can_apply ==> run == Run::Gives(Choice::Apply, tape)
            &&& decision == Decision::Apply && !can_apply ==> (run matches Run::Fails(
                Fault::Refused(_),
                later,
            ) && later == tape)
            &&& decision == Decision::Keep ==> run == Run::Gives(Choice::Keep, tape)
            &&& decision == Decision::Ask && (json || tape.next < tape.log.len()
                && tape.log[tape.next] != Answer::Flag(true)) ==> (run matches Run::Gives(
                choice,
                _,
            ) ==> choice == if outcome is Stopped {
                Choice::Keep
            } else {
                Choice::Discard
            })
        }),
{
    reveal(decide_script);
    sayings_are_exchanges();
}

/// Whether a line is an answer, by its letter or by its word and whatever its case.
pub open spec fn answers(line: Text, choice: Choice) -> bool {
    let word = lowered(trimmed(line));
    match choice {
        Choice::Apply => word == "a"@ || word == "apply"@,
        Choice::Keep => word == "k"@ || word == "keep"@,
        Choice::Discard => word == "d"@ || word == "discard"@,
    }
}

/// At the terminal the answer is what happens: the choice is the one that the last line
/// names, an apply only where one was possible; and where there is no more input the
/// rehearsal is discarded.
pub proof fn the_answer_is_what_happens(can_apply: bool, tape: Tape, choice: Choice, later: Tape)
    requires
        is_complete(tape),
        ask_from(can_apply, tape) == Run::Gives(choice, later),
    ensures
        choice == Choice::Apply ==> can_apply,
        later.log == tape.log,
        tape.next + 2 <= later.next,
        ({
            ||| later.log[later.next - 1] matches Answer::Text(line) && line.len() > 0 && answers(
                line,
                choice,
            ) && later.asks[later.next - 1] == Ask::ReadLine
            ||| choice == Choice::Discard && later.asks[later.next - 2] == Ask::ReadLine
                && later.log[later.next - 2] == Answer::Text(Seq::empty())
        }),
    decreases tape.log.len() - tape.next,
{
    sayings_are_exchanges();
    let question = options(can_apply) + "? "@;
    if let Run::Gives(_, asked) = say_script(question, tape) {
        if let Run::Gives(line, heard) = read_line_script(asked) {
            if line.len() == 0 {
                assert(line =~= Seq::<char>::empty());
            } else if choice_in(trimmed(line), can_apply) is None {
                let again = "please answer with one of "@ + options(can_apply)
                    + "\n"@;
                if let Run::Gives(_, told) = say_script(again, heard) {
                    the_answer_is_what_happens(can_apply, told, choice, later);
                }
            }
        }
    }
}

/// A rehearsal is applied only where it finished and moved something, and it is judged
/// against the refs that it started from.
pub proof fn a_rehearsal_is_finished_by_its_analysis(
    sandbox: SandboxModel,
    outcome: Outcome,
    decision: Decision,
    setting: SettingModel,
    tape: Tape,
    code: u8,
    later: Tape,
)
    requires
        finish_script(sandbox, outcome, decision, setting, tape) == Run::Gives(code, later),
    ensures
        exists|analysis: AnalysisModel, choice: Choice, t1: Tape, t2: Tape, t3: Tape|
            is_finished_so(sandbox, outcome, decision, setting, analysis, choice, tape, t1, t2, t3),
{
    reveal(finish_script);
    let first = analyze::run_script(
        worktree_of(sandbox.root),
        sandbox.meta.pre_state,
        sandbox.meta.command,
        outcome,
        tape,
    );
    let analysis = first->Gives_0;
    let t1 = first->Gives_1;
    let applicable = outcome == Outcome::Clean && analysis.ref_moves.len() > 0;
    let report = report_script(
        sandbox,
        analysis,
        outcome,
        decision,
        setting.detail,
        t1,
    );
    let t2 = if setting.json {
        t1
    } else {
        report->Gives_1
    };
    let second = decide_script(decision, applicable, outcome, setting.json, t2);
    let choice = second->Gives_0;
    let t3 = second->Gives_1;
    assert(is_finished_so(sandbox, outcome, decision, setting, analysis, choice, tape, t1, t2, t3));
}

/// Whether a rehearsal was finished so.
pub open spec fn is_finished_so(
    sandbox: SandboxModel,
    outcome: Outcome,
    decision: Decision,
    setting: SettingModel,
    analysis: AnalysisModel,
    choice: Choice,
    tape: Tape,
    t1: Tape,
    t2: Tape,
    t3: Tape,
) -> bool {
    let can_apply = outcome == Outcome::Clean && analysis.ref_moves.len() > 0;
    &&& analyze::run_script(
        worktree_of(sandbox.root),
        sandbox.meta.pre_state,
        sandbox.meta.command,
        outcome,
        tape,
    ) == Run::Gives(analysis, t1)
    &&& decide_script(decision, can_apply, outcome, setting.json, t2) == Run::Gives(choice, t3)
    &&& act_script(choice, sandbox, setting.json, t3) is Gives
}

/// A rehearsal is of what was found: the sandbox is made of the repository as the
/// preflight found it, the command runs in the sandbox as it was given, the uncommitted
/// work is put back after it, and what is recorded, judged and told is how both ended.
pub proof fn a_rehearsal_is_of_what_was_found(
    command: Seq<Text>,
    todo: Option<Text>,
    decision: Decision,
    setting: SettingModel,
    tape: Tape,
    code: u8,
    later: Tape,
)
    requires
        rehearse_script(command, todo, decision, setting, tape) == Run::Gives(code, later),
    ensures
        exists|found: PreflightModel, sandbox: SandboxModel, t1: Tape, t2: Tape, t3: Tape|
            is_rehearsed_so(found, sandbox, command, todo, decision, setting, code, tape, t1, t2, t3),
{
    reveal(rehearse_script);
    reveal(record_script);
    reveal(given_todo_script);
    reveal(execute::todo_script);
    let first = preflight::run_script(setting.cwd, tape);
    let found = first->Gives_0;
    let t1 = first->Gives_1;
    let now = now_script(t1);
    let made = create_script(
        setting.cache_root->0,
        preflight::plan_of(found, command),
        now->Gives_0,
        now->Gives_1,
    );
    let sandbox = made->Gives_0;
    let t2 = made->Gives_1;
    let t3 = left_by(given_todo_script(todo, t2));
    let ran = execute::run_script(
        worktree_of(sandbox.root),
        command,
        given_todo_script(todo, t2)->Gives_0,
        t3,
    );
    let after = carry::after_command_script(sandbox, ran->Gives_0, ran->Gives_1);
    exit_codes_are_what_programs_rely_on(
        SandboxModel {
            meta: MetaModel { result: Some(after->Gives_0.0), ..after->Gives_0.1.meta },
            ..after->Gives_0.1
        },
        after->Gives_0.0,
        decision,
        setting,
        left_by(
            meta::write_script(
                MetaModel { result: Some(after->Gives_0.0), ..after->Gives_0.1.meta },
                after->Gives_0.1.root,
                after->Gives_1,
            ),
        ),
        Error::NoCacheDir,
    );
    assert(is_rehearsed_so(
        found,
        sandbox,
        command,
        todo,
        decision,
        setting,
        code,
        tape,
        t1,
        t2,
        t3,
    ));
}

/// Whether a rehearsal went so.
pub open spec fn is_rehearsed_so(
    found: PreflightModel,
    sandbox: SandboxModel,
    command: Seq<Text>,
    todo: Option<Text>,
    decision: Decision,
    setting: SettingModel,
    code: u8,
    tape: Tape,
    t1: Tape,
    t2: Tape,
    t3: Tape,
) -> bool {
    let plan = PlanModel {
        repo: found.repo,
        command,
        checkout: found.checkout,
        pre_state: found.pre_state,
        carry: found.carry,
    };
    &&& preflight::run_script(setting.cwd, tape) == Run::Gives(found, t1)
    &&& setting.cache_root matches Some(root) && (now_script(t1) matches Run::Gives(now, clocked)
        && create_script(root, plan, now, clocked) == Run::Gives(
        sandbox,
        t2,
    ))
    &&& given_todo_script(todo, t2) matches Run::Gives(prepared, ready) && {
        &&& ready == t3
        &&& prepared is Some == todo is Some
        &&& prepared matches Some(prepared) ==> prepared.file == todo->0
        &&& execute::run_script(worktree_of(sandbox.root), command, prepared, t3) matches Run::Gives(
            outcome,
            ran,
        ) && (carry::after_command_script(sandbox, outcome, ran) matches Run::Gives(after, settled)
            && {
            let recorded = SandboxModel {
                meta: MetaModel { result: Some(after.0), ..after.1.meta },
                ..after.1
            };
            &&& code == code_of(after.0)
            &&& meta::write_script(recorded.meta, recorded.root, settled) matches Run::Gives(
                _,
                written,
            ) && finish_script(recorded, after.0, decision, setting, written) is Gives
        })
    }
}

/// Where no id is given the newest rehearsal is meant, by when it was made.
pub proof fn the_newest_was_made_last(found: Seq<SandboxModel>, sandbox: SandboxModel)
    requires
        meant(by_age(found), None) == Ok::<SandboxModel, Fault>(sandbox),
    ensures
        found.contains(sandbox),
        forall|i: int|
            0 <= i < found.len() ==> (#[trigger] found[i]).meta.created_unix
                <= sandbox.meta.created_unix,
{
    no_id_means_the_newest(found, sandbox);
}

/// A rehearsal expires exactly where it is older than the time that it is kept for, and
/// one from the future never does.
pub proof fn only_old_rehearsals_expire(since: u64, now: u64, max_age: u64)
    ensures
        expired(since, now, max_age) <==> since + max_age < now,
        DEFAULT_TTL_SECS == 7 * 24 * 60 * 60,
{
}

} // verus!
