# git-rehearse

Rehearse a dangerous git command in a shadow clone of a real repository. See
exactly what would happen, then apply it or throw it away.

```console
$ git rehearse rebase main
```

The command runs in a disposable clone. The report shows how the refs moved, the
conflicts, and a warning where replaying commits changed what they do. Applying
moves the branches onto the very commits that were inspected; it never runs the
command again. `git rehearse undo` takes the last apply back.

This is a library in Verus with a small program around it. The library holds
every rule, parser, message and decision, each with a contract that is proved.

## How it is put together

The library touches no file, starts no process and reads no clock. A procedure
that needs something of that kind asks for it, with a `Request`, and stops. The
program performs the request, puts the reply on a list, and runs the procedure
again on all replies so far. So every procedure is a function of the replies,
and its contract says which request comes next after any replies, and what comes
out in the end.

- `src/session.rs`: requests, replies and runs.
- `src/cli.rs`, `src/cli/`: the command line and what each command does.
- `src/preflight.rs`, `src/sandbox.rs`, `src/sandbox/`, `src/execute.rs`,
  `src/carry.rs`: a rehearsal, from the first look to the command's end.
- `src/analyze.rs`, `src/report.rs`, `src/json.rs`: what happened, for people and
  for programs.
- `src/apply.rs`, `src/undo.rs`, `src/refcommands.rs`: moving refs, and moving
  them back.
- `src/recovery.rs`, `src/recovery/`, `src/collision.rs`, `src/worktree.rs`:
  finishing or taking back what was interrupted, without overwriting anything.
- `src/guarantees.rs`, `src/guarantees/`: what holds of whole commands. The
  repository is left alone until the user says otherwise; a refused apply or undo
  changes nothing; an undo restores the refs; nothing runs the command twice; a
  document stands alone on standard output.
- `app/`: the program. It performs the requests, and turns metadata, journals and
  documents into JSON and back.
- `tests/`: the library on concrete values, with an imagined repository where a
  whole command is run.

## What is believed and not proved

What a few functions of the standard library and of `serde_json` return is stated
beside their wrappers, in `src/text.rs` and `src/sandbox/`. What
git does with the arguments it is given is git's own affair: the contracts say
which arguments those are.
