//! The thin layer over the user's real `git`.
//!
//! Real git executes, always, so this module stays small: ask for a command to
//! be run, take what it said, fail loudly with git's own words. What reasons
//! about the output stands elsewhere.

use vstd::prelude::*;

use crate::compose::{args3, args5, cat2, cat3};
use crate::error::{Error, Fault};
use crate::number::{decimal, show};
use crate::parts::{
    cut, join, joined, lines, lines_of, split_once, trim, trim_end, trimmed, trimmed_end,
};
use crate::paths::{display, displayed, from_text, path_named};
use crate::refs::{inserted, Entries, RefMap};
use crate::session::{
    asked, ended_in, heard, ran, text_in, Answer, Ask, EndedModel, Heard, HeardModel, Request, Run,
    Session, Stop, Tape,
};
use crate::text::{lossy, put, utf8_lossy, Text};

pub mod arguments;

verus! {

/// An environment with nothing added.
pub open spec fn no_env() -> Seq<(Text, Text)> {
    Seq::empty()
}

/// An argument list as it is shown.
pub open spec fn described(args: Seq<Text>) -> Text {
    joined(args.map_values(|arg: Text| displayed(arg)), " "@)
}

/// What a finished git gives: its output where it exited with zero, and else
/// the failure in git's own words.
pub open spec fn finished(
    args: Seq<Text>,
    heard: HeardModel<EndedModel>,
    tape: Tape,
) -> Run<Seq<u8>> {
    match heard {
        HeardModel::Got(ended) => if ended.code == Some(0i32) {
            Run::Gives(ended.stdout, tape)
        } else {
            Run::Fails(
                Fault::Git {
                    args: described(args),
                    code: ended.code,
                    stderr: trimmed(utf8_lossy(ended.stderr)),
                },
                tape,
            )
        },
        HeardModel::Trouble(trouble) => Run::Fails(Fault::Spawn(trouble.message), tape),
    }
}

/// Runs git and gives its output as bytes.
#[verifier::opaque]
pub open spec fn captured(
    dir: Text,
    args: Seq<Text>,
    env: Seq<(Text, Text)>,
    clean: bool,
    input: Option<Text>,
    tape: Tape,
) -> Run<Seq<u8>> {
    heard(
        Ask::Git { dir, args, env, clean, input },
        |answer: Answer| ended_in(answer),
        tape,
    ).and_then(
        |heard: HeardModel<EndedModel>, tape: Tape| finished(args, heard, tape),
    )
}

/// The text that git's output is, without the white space at its end.
pub open spec fn said(output: Run<Seq<u8>>) -> Run<Text> {
    output.and_then(
        |output: Seq<u8>, tape: Tape| Run::Gives(trimmed_end(utf8_lossy(output)), tape),
    )
}

/// `git -C <dir> <args...>` with nothing on its input.
#[verifier::opaque]
pub open spec fn run_script(dir: Text, args: Seq<Text>, tape: Tape) -> Run<Text> {
    said(captured(dir, args, no_env(), false, None, tape))
}

/// [`run_script`] with a text on git's input.
#[verifier::opaque]
pub open spec fn run_with_stdin_script(
    dir: Text,
    args: Seq<Text>,
    input: Text,
    tape: Tape,
) -> Run<Text> {
    said(captured(dir, args, no_env(), false, Some(input), tape))
}

/// [`run_script`] with the output as git wrote it.
#[verifier::opaque]
pub open spec fn run_bytes_script(dir: Text, args: Seq<Text>, tape: Tape) -> Run<Seq<u8>> {
    captured(dir, args, no_env(), false, None, tape)
}

/// [`run_script`] without the caller's git variables and with `env` instead.
#[verifier::opaque]
pub open spec fn run_with_clean_env_script(
    dir: Text,
    args: Seq<Text>,
    env: Seq<(Text, Text)>,
    tape: Tape,
) -> Run<Text> {
    said(captured(dir, args, env, true, None, tape))
}

/// [`run_with_clean_env_script`] with the output as git wrote it.
#[verifier::opaque]
pub open spec fn run_bytes_with_clean_env_script(
    dir: Text,
    args: Seq<Text>,
    env: Seq<(Text, Text)>,
    tape: Tape,
) -> Run<Seq<u8>> {
    captured(dir, args, env, true, None, tape)
}

fn capture(
    session: &mut Session,
    dir: &str,
    args: Vec<String>,
    env: Vec<(String, String)>,
    clean: bool,
    input: Option<String>,
) -> (outcome: Result<Vec<u8>, Stop>)
    ensures
        ran(outcome, final(session)@) == captured(
            dir@,
            args.deep_view(),
            env.deep_view(),
            clean,
            input.deep_view(),
            old(session)@,
        ),
{
    proof {
        reveal(captured);
    }
    let shown = describe(&args);
    match session.ended(Request::Git { dir: dir.to_owned(), args, env, clean, input })? {
        Heard::Got(ended) => {
            let succeeded = match ended.code {
                Some(code) => code == 0,
                None => false,
            };
            if succeeded {
                assert(ended.stdout.deep_view() =~= ended.stdout@);
                Ok(ended.stdout)
            } else {
                Err(
                    Stop::Fail(
                        Error::Git {
                            args: shown,
                            code: ended.code,
                            stderr: trim(&lossy(&ended.stderr)),
                        },
                    ),
                )
            }
        },
        Heard::Trouble(trouble) => Err(Stop::Fail(Error::Spawn(trouble.message))),
    }
}

/// No variables at all.
fn nothing() -> (env: Vec<(String, String)>)
    ensures
        env.deep_view() == no_env(),
{
    let env: Vec<(String, String)> = Vec::new();
    assert(env.deep_view() =~= no_env());
    env
}

/// The text of git's output.
fn say(output: Vec<u8>) -> (text: String)
    ensures
        text@ == trimmed_end(utf8_lossy(output.deep_view())),
{
    assert(output.deep_view() =~= output@);
    trim_end(&lossy(&output))
}

/// Runs `git -C <dir> <args...>` and returns its output without the white
/// space at its end.
pub fn run(session: &mut Session, dir: &str, args: Vec<String>) -> (outcome: Result<String, Stop>)
    ensures
        ran(outcome, final(session)@) == run_script(dir@, args.deep_view(), old(session)@),
{
    proof {
        reveal(run_script);
    }
    let output = capture(session, dir, args, nothing(), false, None)?;
    Ok(say(output))
}

/// [`run`], with `input` fed to git.
pub fn run_with_stdin(session: &mut Session, dir: &str, args: Vec<String>, input: &str) -> (outcome:
    Result<String, Stop>)
    ensures
        ran(outcome, final(session)@) == run_with_stdin_script(
            dir@,
            args.deep_view(),
            input@,
            old(session)@,
        ),
{
    proof {
        reveal(run_with_stdin_script);
    }
    let output = capture(session, dir, args, nothing(), false, Some(input.to_owned()))?;
    Ok(say(output))
}

/// [`run`], with the output as git wrote it.
pub fn run_bytes(session: &mut Session, dir: &str, args: Vec<String>) -> (outcome: Result<
    Vec<u8>,
    Stop,
>)
    ensures
        ran(outcome, final(session)@) == run_bytes_script(dir@, args.deep_view(), old(session)@),
{
    proof {
        reveal(run_bytes_script);
    }
    capture(session, dir, args, nothing(), false, None)
}

/// [`run`], without the caller's git variables and with `env` instead.
pub fn run_with_clean_env(
    session: &mut Session,
    dir: &str,
    args: Vec<String>,
    env: Vec<(String, String)>,
) -> (outcome: Result<String, Stop>)
    ensures
        ran(outcome, final(session)@) == run_with_clean_env_script(
            dir@,
            args.deep_view(),
            env.deep_view(),
            old(session)@,
        ),
{
    proof {
        reveal(run_with_clean_env_script);
    }
    let output = capture(session, dir, args, env, true, None)?;
    Ok(say(output))
}

/// [`run_with_clean_env`], with the output as git wrote it.
pub fn run_bytes_with_clean_env(
    session: &mut Session,
    dir: &str,
    args: Vec<String>,
    env: Vec<(String, String)>,
) -> (outcome: Result<Vec<u8>, Stop>)
    ensures
        ran(outcome, final(session)@) == run_bytes_with_clean_env_script(
            dir@,
            args.deep_view(),
            env.deep_view(),
            old(session)@,
        ),
{
    proof {
        reveal(run_bytes_with_clean_env_script);
    }
    capture(session, dir, args, env, true, None)
}

/// Runs git on the user's terminal and gives its exit status.
#[verifier::opaque]
pub open spec fn spawn_script(
    dir: Text,
    args: Seq<Text>,
    env: Seq<(Text, Text)>,
    tape: Tape,
) -> Run<Option<i32>> {
    heard(Ask::Spawn { dir, args, env }, |answer: Answer| ended_in(answer), tape).and_then(
        |heard: HeardModel<EndedModel>, tape: Tape|
            match heard {
                HeardModel::Got(ended) => Run::Gives(ended.code, tape),
                HeardModel::Trouble(trouble) => Run::Fails(Fault::Spawn(trouble.message), tape),
            },
    )
}

/// Runs git in `dir` with the user's own input and output, and returns its
/// exit status. A non-zero exit is a result here, and classifying it is the
/// caller's job. `env` is layered on top of the inherited environment.
pub fn spawn(session: &mut Session, dir: &str, args: Vec<String>, env: Vec<(String, String)>) -> (
    outcome: Result<Option<i32>, Stop>)
    ensures
        ran(outcome, final(session)@) == spawn_script(
            dir@,
            args.deep_view(),
            env.deep_view(),
            old(session)@,
        ),
{
    proof {
        reveal(spawn_script);
    }
    match session.ended(Request::Spawn { dir: dir.to_owned(), args, env })? {
        Heard::Got(ended) => {
            assert(ended.code.deep_view() == ended.code) by {
                if let Some(code) = ended.code {
                    assert(ended.code.deep_view() == Some(code.deep_view()));
                }
            }
            Ok(ended.code)
        },
        Heard::Trouble(trouble) => Err(Stop::Fail(Error::Spawn(trouble.message))),
    }
}

/// The arguments of a ref transaction, as they are shown.
pub open spec fn transaction_args(message: Text) -> Seq<Text> {
    seq!["update-ref"@, "-m"@, message, "--stdin"@, "-z"@]
}

/// One step of a ref transaction: git's own words where it refuses.
#[verifier::opaque]
pub open spec fn transaction_step(ask: Ask, message: Text, tape: Tape) -> Run<()> {
    heard(ask, |answer: Answer| ended_in(answer), tape).and_then(
        |heard: HeardModel<EndedModel>, tape: Tape|
            finished(transaction_args(message), heard, tape).and_then(
                |output: Seq<u8>, tape: Tape| Run::Gives((), tape),
            ),
    )
}

/// Prepares a ref transaction, so that its locks are held; runs `inner` under
/// them; and commits, or abandons the transaction where `inner` fails.
#[verifier::opaque]
pub open spec fn ref_transaction_script(
    dir: Text,
    commands: Text,
    message: Text,
    inner: spec_fn(Tape) -> Run<()>,
    tape: Tape,
) -> Run<()> {
    transaction_step(Ask::Prepare { dir, commands, message }, message, tape).and_then(
        |prepared: (), tape: Tape|
            inner(tape).either(
                |checked: (), tape: Tape| transaction_step(Ask::Commit, message, tape),
                |fault: Fault, tape: Tape|
                    asked(Ask::Abort, tape).and_then(
                        |answer: Answer, tape: Tape| Run::Fails(fault, tape),
                    ),
            ),
    )
}

/// One step of a ref transaction.
pub fn step_transaction(session: &mut Session, request: Request, message: &str) -> (outcome: Result<
    (),
    Stop,
>)
    ensures
        ran(outcome, final(session)@) == transaction_step(
            request.deep_view(),
            message@,
            old(session)@,
        ),
{
    proof {
        reveal(transaction_step);
    }
    match session.ended(request)? {
        Heard::Got(ended) => {
            let succeeded = match ended.code {
                Some(code) => code == 0,
                None => false,
            };
            if succeeded {
                Ok(())
            } else {
                Err(
                    Stop::Fail(
                        Error::Git {
                            args: describe(&args5("update-ref", "-m", message, "--stdin", "-z")),
                            code: ended.code,
                            stderr: trim(&lossy(&ended.stderr)),
                        },
                    ),
                )
            }
        },
        Heard::Trouble(trouble) => Err(Stop::Fail(Error::Spawn(trouble.message))),
    }
}

/// Ends a prepared ref transaction: commits it, or abandons it where what ran
/// under its locks failed.
pub fn end_transaction(session: &mut Session, message: &str, inner: Result<(), Stop>) -> (outcome:
    Result<(), Stop>)
    ensures
        ran(outcome, final(session)@) == ran(inner, old(session)@).either(
            |checked: (), tape: Tape| transaction_step(Ask::Commit, message@, tape),
            |fault: Fault, tape: Tape|
                asked(Ask::Abort, tape).and_then(
                    |answer: Answer, tape: Tape| Run::Fails(fault, tape),
                ),
        ),
{
    match inner {
        Ok(()) => step_transaction(session, Request::Commit, message),
        Err(Stop::Fail(error)) => {
            session.ask(Request::Abort)?;
            Err(Stop::Fail(error))
        },
        Err(Stop::Ask(request)) => Err(Stop::Ask(request)),
    }
}

/// The ref that one line of a listing names, and its object.
pub open spec fn listed(line: Text) -> Option<(Text, Text)> {
    match cut(line, " "@) {
        Some((object, name)) => if name.len() == 0 {
            None
        } else {
            Some((name, object))
        },
        None => None,
    }
}

/// The refs that the lines of a listing name. A later line for a name wins.
pub open spec fn refs_in(lines: Seq<Text>) -> Entries
    decreases lines.len(),
{
    if lines.len() == 0 {
        Seq::empty()
    } else {
        let earlier = refs_in(lines.drop_last());
        match listed(lines.last()) {
            Some((name, object)) => inserted(earlier, name, object),
            None => earlier,
        }
    }
}

/// The arguments that list the refs under a pattern.
pub open spec fn refs_args(pattern: Text, strip: u8) -> Seq<Text> {
    seq![
        "for-each-ref"@,
        "--format=%(objectname) %(refname:lstrip="@ + decimal(strip as nat) + ")"@,
        pattern,
    ]
}

/// The refs under a pattern.
#[verifier::opaque]
pub open spec fn refs_script(dir: Text, pattern: Text, strip: u8, tape: Tape) -> Run<Entries> {
    run_script(dir, refs_args(pattern, strip), tape).and_then(
        |listing: Text, tape: Tape| Run::Gives(refs_in(lines_of(listing)), tape),
    )
}

/// The refs that a listing names.
pub fn parse_refs(listing: &str) -> (map: RefMap)
    ensures
        map.deep_view() == refs_in(lines_of(listing@)),
{
    let found = lines(listing);
    let mut map = RefMap::new();
    let mut i: usize = 0;
    assert(found.deep_view().take(0) =~= Seq::empty());
    while i < found.len()
        invariant
            i <= found@.len(),
            map.deep_view() == refs_in(found.deep_view().take(i as int)),
        decreases found@.len() - i,
    {
        let ghost now = found.deep_view().take(i + 1);
        assert(now.drop_last() =~= found.deep_view().take(i as int));
        assert(now.last() == found[i as int]@);
        if let Some((object, name)) = split_once(&found[i], " ") {
            if !name.as_str().is_empty() {
                map.insert(name, object);
            }
        }
        i = i + 1;
    }
    assert(found.deep_view().take(found@.len() as int) =~= found.deep_view());
    map
}

/// The refs under `pattern`, with `strip` leading components removed from each
/// name: none gives full ref names, two gives bare branch names.
pub fn refs(session: &mut Session, dir: &str, pattern: &str, strip: u8) -> (outcome: Result<
    RefMap,
    Stop,
>)
    ensures
        ran(outcome, final(session)@) == refs_script(dir@, pattern@, strip, old(session)@),
{
    proof {
        reveal(refs_script);
    }
    let format = cat3(
        "--format=%(objectname) %(refname:lstrip=",
        &show(strip as u64),
        ")",
    );
    let listing = run(session, dir, args3("for-each-ref", &format, pattern))?;
    Ok(parse_refs(&listing))
}

/// Renders an argument list for an error message.
pub fn describe(args: &Vec<String>) -> (text: String)
    ensures
        text@ == described(args.deep_view()),
{
    let ghost all = args.deep_view().map_values(|arg: Text| displayed(arg));
    let mut shown: Vec<String> = Vec::new();
    let mut i: usize = 0;
    assert(shown.deep_view() =~= all.take(0));
    while i < args.len()
        invariant
            i <= args@.len(),
            all == args.deep_view().map_values(|arg: Text| displayed(arg)),
            shown.deep_view() == all.take(i as int),
        decreases args@.len() - i,
    {
        put(&mut shown, display(&args[i]));
        i = i + 1;
        assert(all.take(i as int) =~= all.take(i - 1).push(all[i - 1]));
    }
    assert(all.take(all.len() as int) =~= all);
    join(&shown, " ")
}

/// Runs git for the path that it prints.
pub open spec fn path_script(dir: Text, args: Seq<Text>, tape: Tape) -> Run<Text> {
    run_script(dir, args, tape).and_then(|output: Text, tape: Tape|
        Run::Gives(path_named(output), tape))
}

/// Runs git for the path that it prints.
pub fn run_path(session: &mut Session, dir: &str, args: Vec<String>) -> (outcome: Result<
    String,
    Stop,
>)
    ensures
        ran(outcome, final(session)@) == path_script(dir@, args.deep_view(), old(session)@),
{
    let output = run(session, dir, args)?;
    Ok(from_text(&output))
}

/// The canonical form of a path.
#[verifier::opaque]
pub open spec fn canonicalize_script(path: Text, tape: Tape) -> Run<Text> {
    heard(Ask::Canonicalize(path), |answer: Answer| text_in(answer), tape).and_then(
        |heard: HeardModel<Text>, tape: Tape|
            match heard {
                HeardModel::Got(resolved) => Run::Gives(resolved, tape),
                HeardModel::Trouble(trouble) => Run::Fails(Fault::Io(path, trouble.message), tape),
            },
    )
}

/// Resolves a path to its canonical form, in a spelling git accepts.
pub fn canonicalize(session: &mut Session, path: &str) -> (outcome: Result<String, Stop>)
    ensures
        ran(outcome, final(session)@) == canonicalize_script(path@, old(session)@),
{
    proof {
        reveal(canonicalize_script);
    }
    match session.text(Request::Canonicalize(path.to_owned()))? {
        Heard::Got(resolved) => Ok(resolved),
        Heard::Trouble(trouble) => Err(Stop::Fail(Error::io(path, &trouble.message))),
    }
}

/// A path behind a `--flag=` prefix.
pub fn flag_with_path(prefix: &str, path: &str) -> (arg: String)
    ensures
        arg@ == prefix@ + path@,
{
    cat2(prefix, path)
}

/// A ref transaction is committed only once what runs under its locks went
/// through: where it asks for the commit, it was prepared and checked before.
pub proof fn commits_follow_the_check(
    dir: Text,
    commands: Text,
    message: Text,
    inner: spec_fn(Tape) -> Run<()>,
    tape: Tape,
    stopped: Tape,
)
    requires
        ref_transaction_script(dir, commands, message, inner, tape) == Run::<()>::Asks(
            Ask::Commit,
            stopped,
        ),
        forall|tape: Tape| #[trigger] inner(tape) matches Run::Asks(ask, _) ==> !(ask is Commit),
    ensures
        transaction_step(Ask::Prepare { dir, commands, message }, message, tape) matches Run::Gives(
            _,
            prepared,
        ) && inner(prepared) is Gives,
{
    reveal(ref_transaction_script);
    reveal(transaction_step);
}

} // verus!
