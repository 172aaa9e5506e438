//! What was said: which request got which reply.
//!
//! A tape holds the requests that its replies were used for. So what a
//! procedure did can be read off the tape that it leaves, whatever its steps are.

use vstd::prelude::*;

use crate::files::{
    do_script, kind_script, leads_to_script, list_script, present_script, read_bytes_script,
    read_text_script,
};
use crate::git;
use crate::guarantees::is_change;
use crate::parts::trimmed_end;
use crate::session::{further, Answer, Ask, HeardModel, Kind, Run, Tape};
use crate::text::{utf8_lossy, Text};

verus! {

/// Whether there is a request for each reply that was used, as there is from the
/// start of every session on.
pub open spec fn is_complete(tape: Tape) -> bool {
    0 <= tape.next <= tape.log.len() && tape.asks.len() == tape.next
}

/// Git run in a directory, with nothing added to its environment and nothing on its
/// input.
pub open spec fn git_in(dir: Text, args: Seq<Text>) -> Ask {
    Ask::Git { dir, args, env: Seq::empty(), clean: false, input: None }
}

/// Git run in a directory with a text on its input.
pub open spec fn git_fed(dir: Text, args: Seq<Text>, input: Text) -> Ask {
    Ask::Git { dir, args, env: Seq::empty(), clean: false, input: Some(input) }
}

/// What git said, where it went through: its output without the white space at
/// its end.
pub open spec fn spoken(answer: Answer) -> Option<Text> {
    match answer {
        Answer::Ended(ended) => if ended.code == Some(0i32) {
            Some(trimmed_end(utf8_lossy(ended.stdout)))
        } else {
            None
        },
        _ => None,
    }
}

/// Whether this was the request number `i`, and was made between the two tapes.
pub open spec fn was_asked(ask: Ask, tape: Tape, later: Tape, i: int) -> bool {
    tape.next <= i < later.next && later.asks[i] == ask
}

/// Whether git said this on request number `i`, which was made between the two
/// tapes.
pub open spec fn was_told(
    dir: Text,
    args: Seq<Text>,
    said: Text,
    tape: Tape,
    later: Tape,
    i: int,
) -> bool {
    was_asked(git_in(dir, args), tape, later, i) && spoken(later.log[i]) == Some(said)
}

/// Whether nothing that changes anything was asked for between the two tapes.
pub open spec fn is_look(tape: Tape, later: Tape) -> bool {
    forall|i: int| tape.next <= i < later.next ==> !is_change(#[trigger] later.asks[i])
}

/// Whether one tape is the other after more was said.
#[verifier::opaque]
pub open spec fn continues(later: Tape, tape: Tape) -> bool {
    &&& is_complete(later)
    &&& is_complete(tape)
    &&& later.log == tape.log
    &&& tape.next <= later.next
    &&& forall|i: int| 0 <= i < tape.next ==> #[trigger] later.asks[i] == tape.asks[i]
}

/// Whether one tape is the other after more was said, none of it a change.
#[verifier::opaque]
pub open spec fn looks_on(later: Tape, tape: Tape) -> bool {
    continues(later, tape) && is_look(tape, later)
}

/// The tape that a run leaves.
pub open spec fn left_by<T>(run: Run<T>) -> Tape {
    match run {
        Run::Gives(_, later) => later,
        Run::Fails(_, later) => later,
        Run::Asks(_, later) => later,
    }
}

/// Whether a run goes on with the conversation, and stops only where all is used.
pub open spec fn is_continued<T>(run: Run<T>, tape: Tape) -> bool {
    continues(left_by(run), tape)
}

/// Whether a run only looks.
pub open spec fn is_looking<T>(run: Run<T>, tape: Tape) -> bool {
    looks_on(left_by(run), tape) && (run matches Run::Asks(ask, _) ==> !is_change(ask))
}

/// Whether a run is one request and what comes of its reply.
pub open spec fn is_exchange<T>(run: Run<T>, ask: Ask, tape: Tape) -> bool {
    match run {
        Run::Asks(asked, stopped) => asked == ask && stopped == tape,
        Run::Gives(_, later) => later == further(tape, ask) && tape.next < tape.log.len(),
        Run::Fails(_, later) => later == further(tape, ask) && tape.next < tape.log.len(),
    }
}

pub proof fn going_on_adds_up()
    ensures
        forall|tape: Tape| #[trigger] is_complete(tape) ==> continues(tape, tape),
        forall|tape: Tape| #[trigger] is_complete(tape) ==> looks_on(tape, tape),
        forall|tape: Tape, ask: Ask|
            is_complete(tape) && tape.next < tape.log.len() ==> continues(
                #[trigger] further(tape, ask),
                tape,
            ),
        forall|tape: Tape, ask: Ask|
            is_complete(tape) && tape.next < tape.log.len() && !is_change(ask) ==> looks_on(
                #[trigger] further(tape, ask),
                tape,
            ),
        forall|a: Tape, b: Tape, c: Tape|
            #[trigger] continues(b, a) && #[trigger] continues(c, b) ==> continues(c, a),
        forall|a: Tape, b: Tape, c: Tape|
            #[trigger] looks_on(b, a) && #[trigger] looks_on(c, b) ==> looks_on(c, a),
        forall|a: Tape, b: Tape| #[trigger] looks_on(b, a) ==> continues(b, a),
        forall|a: Tape, b: Tape| #[trigger] continues(b, a) ==> is_complete(b) && is_complete(a),
{
    reveal(continues);
    reveal(looks_on);
}

/// What was said stays said.
pub proof fn what_was_said_stays(earlier: Tape, later: Tape, i: int)
    requires
        continues(later, earlier),
        0 <= i < earlier.next,
    ensures
        later.log == earlier.log,
        earlier.next <= later.next,
        later.asks[i] == earlier.asks[i],
{
    reveal(continues);
}

pub proof fn requests_are_exchanges()
    ensures
        forall|dir: Text, args: Seq<Text>, tape: Tape|
            is_complete(tape) ==> is_exchange(
                #[trigger] git::run_script(dir, args, tape),
                git_in(dir, args),
                tape,
            ),
        forall|dir: Text, args: Seq<Text>, tape: Tape|
            is_complete(tape) ==> (#[trigger] git::run_script(dir, args, tape) matches Run::Gives(
                said,
                _,
            ) ==> spoken(tape.log[tape.next]) == Some(said)),
        forall|dir: Text, args: Seq<Text>, tape: Tape|
            is_complete(tape) ==> (#[trigger] git::run_script(dir, args, tape) is Fails ==> spoken(
                tape.log[tape.next],
            ) is None),
        forall|dir: Text, args: Seq<Text>, input: Text, tape: Tape|
            is_complete(tape) ==> is_exchange(
                #[trigger] git::run_with_stdin_script(dir, args, input, tape),
                git_fed(dir, args, input),
                tape,
            ),
        forall|dir: Text, args: Seq<Text>, input: Text, tape: Tape|
            is_complete(tape) ==> (#[trigger] git::run_with_stdin_script(
                dir,
                args,
                input,
                tape,
            ) is Gives ==> spoken(tape.log[tape.next]) is Some),
        forall|dir: Text, args: Seq<Text>, env: Seq<(Text, Text)>, tape: Tape|
            is_complete(tape) ==> is_exchange(
                #[trigger] git::spawn_script(dir, args, env, tape),
                Ask::Spawn { dir, args, env },
                tape,
            ),
        forall|dir: Text, args: Seq<Text>, env: Seq<(Text, Text)>, tape: Tape|
            is_complete(tape) ==> (#[trigger] git::spawn_script(
                dir,
                args,
                env,
                tape,
            ) matches Run::Gives(code, _) ==> tape.log[tape.next] is Ended
                && tape.log[tape.next]->Ended_0.code == code),
        forall|path: Text, tape: Tape|
            is_complete(tape) ==> is_exchange(
                #[trigger] present_script(path, tape),
                Ask::Target(path),
                tape,
            ) && !(present_script(path, tape) is Fails),
        forall|path: Text, tape: Tape|
            is_complete(tape) ==> (#[trigger] present_script(path, tape) matches Run::Gives(
                there,
                _,
            ) ==> there == tape.log[tape.next] is Kind),
        forall|path: Text, kind: Kind, tape: Tape|
            is_complete(tape) ==> is_exchange(
                #[trigger] leads_to_script(path, kind, tape),
                Ask::Target(path),
                tape,
            ),
        forall|path: Text, tape: Tape|
            is_complete(tape) ==> is_exchange(
                #[trigger] read_text_script(path, tape),
                Ask::ReadText(path),
                tape,
            ),
        forall|path: Text, tape: Tape|
            is_complete(tape) ==> (#[trigger] read_text_script(path, tape) matches Run::Gives(
                HeardModel::Got(text),
                _,
            ) ==> tape.log[tape.next] == Answer::Text(text)),
        forall|path: Text, tape: Tape|
            is_complete(tape) ==> is_exchange(
                #[trigger] read_bytes_script(path, tape),
                Ask::ReadBytes(path),
                tape,
            ),
        forall|path: Text, tape: Tape|
            is_complete(tape) ==> (#[trigger] read_bytes_script(path, tape) matches Run::Gives(
                HeardModel::Got(bytes),
                _,
            ) ==> tape.log[tape.next] == Answer::Bytes(bytes)),
        forall|path: Text, tape: Tape|
            is_complete(tape) ==> is_exchange(
                #[trigger] kind_script(path, tape),
                Ask::Kind(path),
                tape,
            ),
        forall|dir: Text, path: Text, tape: Tape|
            is_complete(tape) ==> is_exchange(
                #[trigger] list_script(dir, path, tape),
                Ask::List(dir),
                tape,
            ),
        forall|path: Text, tape: Tape|
            is_complete(tape) ==> is_exchange(
                #[trigger] git::canonicalize_script(path, tape),
                Ask::Canonicalize(path),
                tape,
            ),
        forall|dir: Text, args: Seq<Text>, tape: Tape|
            is_complete(tape) ==> is_exchange(
                #[trigger] git::run_bytes_script(dir, args, tape),
                git_in(dir, args),
                tape,
            ),
        forall|dir: Text, args: Seq<Text>, tape: Tape|
            is_complete(tape) ==> (#[trigger] git::run_bytes_script(
                dir,
                args,
                tape,
            ) matches Run::Gives(output, _) ==> spoken(tape.log[tape.next]) is Some
                && tape.log[tape.next]->Ended_0.stdout == output),
        forall|ask: Ask, path: Text, tape: Tape|
            is_complete(tape) ==> is_exchange(#[trigger] do_script(ask, path, tape), ask, tape),
        forall|ask: Ask, path: Text, tape: Tape|
            is_complete(tape) ==> (#[trigger] do_script(ask, path, tape) is Gives
                ==> tape.log[tape.next] is Done),
{
    reveal(git::captured);
    reveal(git::run_script);
    reveal(git::run_with_stdin_script);
    reveal(git::spawn_script);
    reveal(present_script);
    reveal(leads_to_script);
    reveal(read_text_script);
    reveal(read_bytes_script);
    reveal(do_script);
    reveal(kind_script);
    reveal(list_script);
    reveal(git::canonicalize_script);
    reveal(git::run_bytes_script);
    assert(git::no_env() =~= Seq::<(Text, Text)>::empty());
}

} // verus!
