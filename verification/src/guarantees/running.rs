//! What the outcome of a rehearsed command means.

use vstd::prelude::*;

use crate::error::Fault;
use crate::execute::{
    self, classify_script, editor_command, in_progress_script, Operation, Outcome, TodoModel,
};
use crate::files::present_script;
use crate::git;
use crate::guarantees::asking::is_reading;
use crate::guarantees::carrying::unmerged_words;
use crate::guarantees::conversation::{
    continues, git_in, going_on_adds_up, is_complete, is_look, is_looking, left_by, looks_on,
    requests_are_exchanges, spoken, was_asked, what_was_said_stays,
};
use crate::paths::{inside, path_named};
use crate::session::{further, Answer, Ask, Run, Tape};
use crate::text::Text;

verus! {

/// The files in git's own directory that say that an operation is in progress, the
/// first that is there before the others.
pub open spec fn marks() -> Seq<Text> {
    seq![
        "rebase-merge"@,
        "rebase-apply"@,
        "CHERRY_PICK_HEAD"@,
        "REVERT_HEAD"@,
        "MERGE_HEAD"@,
        "BISECT_LOG"@,
    ]
}

/// The git subcommand whose `--continue` goes on with what a mark stands for.
pub open spec fn continued_by(mark: int) -> Option<Text> {
    if mark == 0 || mark == 1 {
        Some("rebase"@)
    } else if mark == 2 {
        Some("cherry-pick"@)
    } else if mark == 3 {
        Some("revert"@)
    } else if mark == 4 {
        Some("merge"@)
    } else {
        None
    }
}

/// Whether a mark was looked for, behind request number `i`, and was not there.
pub open spec fn mark_is_missing(k: int, dir: Text, tape: Tape, later: Tape, i: int) -> bool {
    &&& was_asked(Ask::Target(inside(path_named(dir), marks()[k])), tape, later, i + 1 + k)
    &&& !(later.log[i + 1 + k] is Kind)
}

/// Whether the marks were looked for, from request number `i` on, and none of the first
/// `count` was there.
pub open spec fn no_mark_among(
    count: int,
    worktree: Text,
    tape: Tape,
    later: Tape,
    i: int,
) -> bool {
    &&& was_asked(git_in(worktree, seq!["rev-parse"@, "--absolute-git-dir"@]), tape, later, i)
    &&& spoken(later.log[i]) matches Some(dir) && forall|k: int|
        0 <= k < count ==> #[trigger] mark_is_missing(k, dir, tape, later, i)
}

/// Whether nothing is in progress, as was found from request number `i` on.
pub open spec fn nothing_in_progress(worktree: Text, tape: Tape, later: Tape, i: int) -> bool {
    no_mark_among(6, worktree, tape, later, i)
}

/// Whether the first mark that is there is this one, as was found from request number
/// `i` on.
pub open spec fn first_mark_is(
    mark: int,
    worktree: Text,
    tape: Tape,
    later: Tape,
    i: int,
) -> bool {
    &&& 0 <= mark < 6
    &&& no_mark_among(mark, worktree, tape, later, i)
    &&& was_asked(
        Ask::Target(inside(path_named(spoken(later.log[i])->0), marks()[mark])),
        tape,
        later,
        i + 1 + mark,
    )
    &&& later.log[i + 1 + mark] is Kind
}

/// What an operation's mark is.
pub open spec fn is_marked(operation: Option<Operation>, mark: int) -> bool {
    match operation {
        None => mark == 6,
        Some(Operation::Rebase) => mark == 0 || mark == 1,
        Some(Operation::CherryPick) => mark == 2,
        Some(Operation::Revert) => mark == 3,
        Some(Operation::Merge) => mark == 4,
        Some(Operation::Bisect) => mark == 5,
    }
}

/// Whether an outcome is what an exit and what git left behind amount to, as was found
/// from request number `i` on. With nothing in progress it is clean exactly where git
/// exited with zero, and else a failure with git's own code. With something in progress
/// it is a stop, over conflicts exactly where git lists unmerged paths.
pub open spec fn is_ended_so(
    outcome: Outcome,
    code: Option<i32>,
    worktree: Text,
    tape: Tape,
    later: Tape,
    i: int,
) -> bool {
    match outcome {
        Outcome::Clean => code == Some(0i32) && nothing_in_progress(worktree, tape, later, i),
        Outcome::Failed { code: told } => told == code && code != Some(0i32) && nothing_in_progress(
            worktree,
            tape,
            later,
            i,
        ),
        Outcome::Stopped { conflicts } => exists|mark: int|
            #[trigger] first_mark_is(mark, worktree, tape, later, i) && was_asked(
                git_in(worktree, seq!["ls-files"@, "--unmerged"@]),
                tape,
                later,
                i + 2 + mark,
            ) && (spoken(later.log[i + 2 + mark]) matches Some(listing) && conflicts == (
            listing.len() > 0)),
    }
}

/// Looking for what is in progress.
proof fn progress_is_asked_for(worktree: Text, tape: Tape)
    requires
        is_complete(tape),
    ensures
        is_looking(in_progress_script(worktree, tape), tape),
        in_progress_script(worktree, tape) matches Run::Gives(operation, after) ==> exists|mark: int|
            #[trigger] is_marked(operation, mark) && after.next == tape.next + 1 + if mark < 6 {
                mark + 1
            } else {
                6
            } && if mark < 6 {
                first_mark_is(mark, worktree, tape, after, tape.next)
            } else {
                nothing_in_progress(worktree, tape, after, tape.next)
            },
{
    going_on_adds_up();
    requests_are_exchanges();
    reveal(in_progress_script);
    let words = seq!["rev-parse"@, "--absolute-git-dir"@];
    assert(is_reading(words));
    if let Run::Gives(said, t0) = git::run_script(worktree, words, tape) {
        let dir = path_named(said);
        let t1 = further(t0, Ask::Target(inside(dir, marks()[0])));
        let t2 = further(t1, Ask::Target(inside(dir, marks()[1])));
        let t3 = further(t2, Ask::Target(inside(dir, marks()[2])));
        let t4 = further(t3, Ask::Target(inside(dir, marks()[3])));
        let t5 = further(t4, Ask::Target(inside(dir, marks()[4])));
        if let Run::Gives(operation, after) = in_progress_script(worktree, tape) {
            let mark: int = if present_script(inside(dir, marks()[0]), t0)->Gives_0 {
                0
            } else if present_script(inside(dir, marks()[1]), t1)->Gives_0 {
                1
            } else if present_script(inside(dir, marks()[2]), t2)->Gives_0 {
                2
            } else if present_script(inside(dir, marks()[3]), t3)->Gives_0 {
                3
            } else if present_script(inside(dir, marks()[4]), t4)->Gives_0 {
                4
            } else if present_script(inside(dir, marks()[5]), t5)->Gives_0 {
                5
            } else {
                6
            };
            assert(is_marked(operation, mark));
            assert(after.asks[tape.next] == git_in(worktree, words));
            assert forall|k: int| 0 <= k < mark implies #[trigger] mark_is_missing(
                k,
                said,
                tape,
                after,
                tape.next,
            ) by {}
        }
    }
}

/// Telling an outcome only looks, and the outcome is what was seen.
proof fn outcomes_are_seen(worktree: Text, code: Option<i32>, tape: Tape)
    requires
        is_complete(tape),
    ensures
        is_looking(classify_script(worktree, code, tape), tape),
        classify_script(worktree, code, tape) matches Run::Gives(outcome, later) ==> is_ended_so(
            outcome,
            code,
            worktree,
            tape,
            later,
            tape.next,
        ),
{
    going_on_adds_up();
    requests_are_exchanges();
    reveal(classify_script);
    progress_is_asked_for(worktree, tape);
    let words = seq!["ls-files"@, "--unmerged"@];
    assert(is_reading(words));
    if let Run::Gives(operation, after) = in_progress_script(worktree, tape) {
        let mark = choose|mark: int|
            #[trigger] is_marked(operation, mark) && after.next == tape.next + 1 + if mark < 6 {
                mark + 1
            } else {
                6
            } && if mark < 6 {
                first_mark_is(mark, worktree, tape, after, tape.next)
            } else {
                nothing_in_progress(worktree, tape, after, tape.next)
            };
        if let Run::Gives(outcome, later) = classify_script(worktree, code, tape) {
            assert(continues(later, after));
            marks_stay(mark, worktree, tape, after, later);
        }
    }
}

proof fn marks_stay(mark: int, worktree: Text, tape: Tape, after: Tape, later: Tape)
    requires
        continues(after, tape),
        continues(later, after),
        0 <= mark <= 6,
    ensures
        mark < 6 && first_mark_is(mark, worktree, tape, after, tape.next) ==> first_mark_is(
            mark,
            worktree,
            tape,
            later,
            tape.next,
        ),
        nothing_in_progress(worktree, tape, after, tape.next) ==> nothing_in_progress(
            worktree,
            tape,
            later,
            tape.next,
        ),
{
    reveal(continues);
    let dir = spoken(after.log[tape.next])->0;
    assert forall|k: int|
        0 <= k < 6 && mark_is_missing(k, dir, tape, after, tape.next) implies
        #[trigger] mark_is_missing(k, dir, tape, later, tape.next) by {}
}

proof fn endings_widen(
    outcome: Outcome,
    code: Option<i32>,
    worktree: Text,
    earlier: Tape,
    tape: Tape,
    later: Tape,
    i: int,
)
    requires
        continues(tape, earlier),
        is_ended_so(outcome, code, worktree, tape, later, i),
    ensures
        is_ended_so(outcome, code, worktree, earlier, later, i),
{
    reveal(continues);
    let dir = spoken(later.log[i])->0;
    assert forall|k: int|
        0 <= k < 6 && mark_is_missing(k, dir, tape, later, i) implies #[trigger] mark_is_missing(
        k,
        dir,
        earlier,
        later,
        i,
    ) by {}
    if outcome is Stopped {
        let mark = choose|mark: int|
            #[trigger] first_mark_is(mark, worktree, tape, later, i) && was_asked(
                git_in(worktree, seq!["ls-files"@, "--unmerged"@]),
                tape,
                later,
                i + 2 + mark,
            ) && (spoken(later.log[i + 2 + mark]) matches Some(listing) && outcome
                == (Outcome::Stopped { conflicts: listing.len() > 0 }));
        assert(first_mark_is(mark, worktree, earlier, later, i));
    }
}

/// The variables that the command runs with: none, or the editor that installs a
/// prepared todo.
pub open spec fn variables(todo: Option<TodoModel>) -> Seq<(Text, Text)> {
    match todo {
        Some(todo) => seq![("GIT_SEQUENCE_EDITOR"@, editor_command(todo))],
        None => Seq::empty(),
    }
}

/// A rehearsal runs the user's command in the sandbox, once and as it was given, and
/// tells how it ended by its exit and by what it left behind.
pub proof fn a_run_tells_how_the_command_ended(
    worktree: Text,
    command: Seq<Text>,
    todo: Option<TodoModel>,
    tape: Tape,
    outcome: Outcome,
    later: Tape,
)
    requires
        is_complete(tape),
        execute::run_script(worktree, command, todo, tape) == Run::Gives(outcome, later),
    ensures
        ({
            let start = tape.next + if todo is Some {
                1int
            } else {
                0
            };
            let run = Ask::Spawn { dir: worktree, args: command, env: variables(todo) };
            &&& was_asked(run, tape, later, start)
            &&& later.log[start] matches Answer::Ended(ended) && is_ended_so(
                outcome,
                ended.code,
                worktree,
                tape,
                later,
                start + 1,
            )
            &&& forall|i: int|
                tape.next <= i < later.next && i != start ==> !(#[trigger] later.asks[i] is Spawn)
        }),
{
    going_on_adds_up();
    requests_are_exchanges();
    reveal(execute::run_script);
    reveal(execute::editor_env_script);
    reveal(execute::sequence_editor_script);
    if let Run::Gives(env, t1) = execute::editor_env_script(todo, command, tape) {
        assert(env =~= variables(todo));
        assert(continues(t1, tape));
        if let Run::Gives(code, t2) = git::spawn_script(worktree, command, env, t1) {
            outcomes_are_seen(worktree, code, t2);
            assert(continues(t2, tape));
            endings_widen(outcome, code, worktree, tape, t2, later, t2.next);
            what_was_said_stays(t2, later, t1.next);
            assert forall|i: int| tape.next <= i < later.next && i != t1.next implies !(
            #[trigger] later.asks[i] is Spawn) by {
                reveal(looks_on);
                reveal(continues);
            }
        }
    }
}

/// Carrying on runs what the operation in progress needs, in the sandbox and without
/// anything unmerged, and tells how it ended like the first run.
pub proof fn carrying_on_tells_how_the_command_ended(
    worktree: Text,
    tape: Tape,
    outcome: Outcome,
    later: Tape,
)
    requires
        is_complete(tape),
        execute::resume_script(worktree, tape) == Run::Gives(outcome, later),
    ensures
        exists|mark: int|
            #[trigger] first_mark_is(mark, worktree, tape, later, tape.next) && {
                let start = tape.next + 3 + mark;
                &&& was_asked(git_in(worktree, unmerged_words()), tape, later, start - 1)
                &&& spoken(later.log[start - 1]) matches Some(listing)
                    && execute::zero_separated(listing).len() == 0
                &&& continued_by(mark) matches Some(subcommand) && was_asked(
                    Ask::Spawn {
                        dir: worktree,
                        args: seq![subcommand, "--continue"@],
                        env: Seq::empty(),
                    },
                    tape,
                    later,
                    start,
                )
                &&& later.log[start] matches Answer::Ended(ended) && is_ended_so(
                    outcome,
                    ended.code,
                    worktree,
                    tape,
                    later,
                    start + 1,
                )
            },
{
    going_on_adds_up();
    requests_are_exchanges();
    reveal(execute::resume_script);
    reveal(execute::unmerged_script);
    progress_is_asked_for(worktree, tape);
    if let Run::Gives(operation, t1) = in_progress_script(worktree, tape) {
        let mark = choose|mark: int|
            #[trigger] is_marked(operation, mark) && t1.next == tape.next + 1 + if mark < 6 {
                mark + 1
            } else {
                6
            } && if mark < 6 {
                first_mark_is(mark, worktree, tape, t1, tape.next)
            } else {
                nothing_in_progress(worktree, tape, t1, tape.next)
            };
        let t2 = further(t1, git_in(worktree, unmerged_words()));
        assert(unmerged_words() =~= execute::unmerged_args());
        let subcommand = execute::subcommand_of(operation->0)->0;
        if let Run::Gives(code, t3) = git::spawn_script(
            worktree,
            seq![subcommand, "--continue"@],
            git::no_env(),
            t2,
        ) {
            assert(git::no_env() =~= Seq::<(Text, Text)>::empty());
            outcomes_are_seen(worktree, code, t3);
            assert(continues(t2, t1));
            assert(continues(t3, t2));
            assert(continues(t3, tape));
            assert(continues(later, t3));
            assert(continues(later, t1));
            endings_widen(outcome, code, worktree, tape, t3, later, t3.next);
            what_was_said_stays(t3, later, t1.next);
            what_was_said_stays(t3, later, t2.next);
            marks_stay(mark, worktree, tape, t1, later);
            assert(first_mark_is(mark, worktree, tape, later, tape.next));
        }
    }
}

/// Where nothing is in progress there is nothing to carry on, and carrying on is refused
/// before git is started.
pub proof fn nothing_is_carried_on_that_is_not_in_progress(worktree: Text, tape: Tape)
    requires
        is_complete(tape),
        nothing_in_progress(
            worktree,
            tape,
            left_by(execute::resume_script(worktree, tape)),
            tape.next,
        ),
    ensures
        execute::resume_script(worktree, tape) matches Run::Fails(Fault::Refused(_), later)
            && is_look(tape, later),
{
    going_on_adds_up();
    requests_are_exchanges();
    reveal(execute::resume_script);
    reveal(execute::unmerged_script);
    progress_is_asked_for(worktree, tape);
    let later = left_by(execute::resume_script(worktree, tape));
    let said = spoken(later.log[tape.next])->0;
    if let Run::Gives(operation, t1) = in_progress_script(worktree, tape) {
        let mark = choose|mark: int|
            #[trigger] is_marked(operation, mark) && t1.next == tape.next + 1 + if mark < 6 {
                mark + 1
            } else {
                6
            } && if mark < 6 {
                first_mark_is(mark, worktree, tape, t1, tape.next)
            } else {
                nothing_in_progress(worktree, tape, t1, tape.next)
            };
        if mark < 6 {
            assert(mark_is_missing(mark, said, tape, later, tape.next));
            let subcommand = execute::subcommand_of(operation->0)->0;
            let words = seq![subcommand, "--continue"@];
            assert(unmerged_words() =~= execute::unmerged_args());
            if let Run::Gives(_, t2) = git::run_script(worktree, unmerged_words(), t1) {
                assert(continues(t2, t1));
                if let Run::Gives(code, t3) = git::spawn_script(
                    worktree,
                    words,
                    git::no_env(),
                    t2,
                ) {
                    assert(continues(t3, t2));
                    outcomes_are_seen(worktree, code, t3);
                }
            }
            assert(continues(later, t1));
            reveal(continues);
            assert(later.log == t1.log);
            assert(false);
        }
        reveal(looks_on);
    } else {
        reveal(in_progress_script);
        assert(mark_is_missing(5, said, tape, later, tape.next));
        assert(false);
    }
}

} // verus!
