//! What the command surface promises of every rehearsal.

use vstd::prelude::*;

use crate::cli::exit;
use crate::cli::flow::{
    apply_script, attended_script, decide_script, discard_script, doomed_script, find_script,
    finish_script, list_script, outcome_code, record_script, rehearse_script, resume_script,
    show_script, undo_script, SettingModel,
};
use crate::cli::{self, result_code, CommandModel, Decision};
use crate::error::Error;
use crate::execute::Outcome;
use crate::json::{failure_of, FailureKind};
use crate::parts::trimmed;
use crate::report::{
    ask_from, choice_in, options, read_line_advances, read_line_script, say_advances, say_script,
    Choice,
};
use crate::sandbox::SandboxModel;
use crate::session::{Run, Tape};
use crate::text::Text;

verus! {

proof fn asking_offers_only_what_is_possible(can_apply: bool, tape: Tape)
    ensures
        ask_from(can_apply, tape) matches Run::Gives(choice, after) ==> choice == Choice::Apply
            ==> can_apply,
    decreases tape.log.len() - tape.next,
{
    let question = options(can_apply) + "? "@;
    if let Run::Gives(_, asked) = say_script(question, tape) {
        if let Run::Gives(line, heard) = read_line_script(asked) {
            if line.len() != 0 && choice_in(trimmed(line), can_apply) is None {
                let again = "please answer with one of "@ + options(can_apply) + "\n"@;
                if let Run::Gives(_, told) = say_script(again, heard) {
                    say_advances(question, tape, asked);
                    read_line_advances(asked, line, heard);
                    say_advances(again, heard, told);
                    asking_offers_only_what_is_possible(can_apply, told);
                }
            }
        }
    }
}

/// Only a result can be applied: whatever was asked for or answered, a rehearsal
/// is applied only where it finished and moved something.
pub proof fn only_a_result_is_applied(
    decision: Decision,
    can_apply: bool,
    outcome: Outcome,
    json: bool,
    tape: Tape,
    after: Tape,
)
    requires
        decide_script(decision, can_apply, outcome, json, tape) == Run::Gives(
            Choice::Apply,
            after,
        ),
    ensures
        can_apply,
{
    reveal(decide_script);
    if decision == Decision::Ask && !json {
        if let Run::Gives(attended, later) = attended_script(tape) {
            if attended {
                if let Run::Gives(_, told) = say_script("\n"@, later) {
                    asking_offers_only_what_is_possible(can_apply, told);
                }
            }
        }
    }
}

/// Nothing is applied unasked: where nobody said `--apply` and nobody is there
/// to answer, a rehearsal that stopped is kept and every other one is discarded.
pub proof fn nothing_is_applied_unasked(
    can_apply: bool,
    outcome: Outcome,
    json: bool,
    tape: Tape,
    choice: Choice,
    after: Tape,
)
    requires
        decide_script(Decision::Ask, can_apply, outcome, json, tape) == Run::Gives(choice, after),
        json || (attended_script(tape) matches Run::Gives(attended, later) && !attended),
    ensures
        choice != Choice::Apply,
        choice == Choice::Keep <==> outcome is Stopped,
{
    reveal(decide_script);
}

/// The exit code describes the rehearsal and not what became of it: it depends
/// on how the command ended alone, whatever was decided.
pub proof fn the_exit_code_describes_the_rehearsal(
    sandbox: SandboxModel,
    outcome: Outcome,
    decision: Decision,
    setting: SettingModel,
    tape: Tape,
    code: u8,
    after: Tape,
)
    requires
        finish_script(sandbox, outcome, decision, setting, tape) == Run::Gives(code, after),
    ensures
        code == outcome_code(outcome),
        outcome == Outcome::Clean <==> code == exit::CLEAN,
        code != exit::INTERNAL,
        code != exit::REFUSED,
{
    reveal(finish_script);
}

/// A refusal and a broken tool are told apart everywhere: by the exit code, and
/// by the document of the failure.
pub proof fn refusals_are_told_apart(error: Error, message: Text)
    ensures
        ({
            let code = result_code(Err(error));
            &&& code == exit::REFUSED <==> error is Refused
            &&& code == exit::INTERNAL <==> !(error is Refused)
            &&& failure_of(message, code).kind == FailureKind::Refused <==> error is Refused
        }),
{
}

/// Where the answer is a document, which never holds a graph, everything is the
/// same however much is to be drawn.
pub proof fn documents_do_not_depend_on_the_drawing(
    command: CommandModel,
    setting: SettingModel,
    other: SettingModel,
    tape: Tape,
)
    requires
        setting.json,
        other == (SettingModel { detail: other.detail, ..setting }),
    ensures
        cli::run_script(command, setting, tape) == cli::run_script(command, other, tape),
{
    reveal(cli::run_script);
    reveal(finish_script);
    reveal(record_script);
    reveal(rehearse_script);
    reveal(resume_script);
    reveal(find_script);
    reveal(list_script);
    reveal(show_script);
    reveal(apply_script);
    reveal(undo_script);
    reveal(doomed_script);
    reveal(discard_script);
}

} // verus!
