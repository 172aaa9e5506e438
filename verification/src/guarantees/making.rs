//! What a sandbox is made of.

use vstd::prelude::*;

use crate::analyze::RefMoveModel;
use crate::cache::id_of;
use crate::carry;
use crate::git;
use crate::guarantees::carrying::writing_meta_goes_on;
use crate::guarantees::conversation::{
    continues, git_fed, git_in, going_on_adds_up, is_complete, left_by, requests_are_exchanges,
    spoken, was_asked, was_told, what_was_said_stays,
};
use crate::parts::lines_of;
use crate::paths::inside;
use crate::refcommands::{
    all_start, are_distinct, at, command_of, commands_of, commands_text, is_moved, transacted,
    transactions_move, RefCommand,
};
use crate::refs::{ascending, lookup, Entries};
use crate::sandbox::lifecycle::{
    build_script, carried_config, carry_config_from, carry_merge_config_script, checkout_args,
    claim_from, clone_script, create_script, furnish_script, park_carry_script,
    promote_branches_script, promotions, rehearsal_id, strip_from, strip_remotes_script,
    write_merge_config_script,
};
use crate::sandbox::meta::{CheckoutModel, Status};
use crate::sandbox::rerere;
use crate::sandbox::{worktree_of, PlanModel, SandboxModel};
use crate::session::{further, Ask, Run, Tape};
use crate::text::{precedes, precedes_irreflexive, Text};
use crate::worktree::{capture_script, common_dir_script};

verus! {

/// Whether this was asked of git and went through.
pub open spec fn was_done(ask: Ask, tape: Tape, later: Tape) -> bool {
    exists|i: int| #[trigger] was_asked(ask, tape, later, i) && spoken(later.log[i]) is Some
}

proof fn what_was_done_stays(ask: Ask, earlier: Tape, tape: Tape, after: Tape, later: Tape)
    requires
        continues(tape, earlier),
        continues(after, tape),
        continues(later, after),
        was_done(ask, tape, after),
    ensures
        was_done(ask, earlier, later),
{
    reveal(continues);
    let i = choose|i: int|
        #[trigger] was_asked(ask, tape, after, i) && spoken(after.log[i]) is Some;
    assert(was_asked(ask, earlier, later, i));
}

// ---------------------------------------------------------------------------
// Remotes
// ---------------------------------------------------------------------------
proof fn remotes_are_removed(worktree: Text, remotes: Seq<Text>, tape: Tape)
    requires
        is_complete(tape),
    ensures
        continues(left_by(strip_from(worktree, remotes, tape)), tape),
        strip_from(worktree, remotes, tape) matches Run::Gives(_, later) ==> forall|k: int|
            0 <= k < remotes.len() ==> was_done(
                git_in(worktree, seq!["remote"@, "remove"@, #[trigger] remotes[k]]),
                tape,
                later,
            ),
    decreases remotes.len(),
{
    going_on_adds_up();
    requests_are_exchanges();
    if remotes.len() > 0 {
        let words = seq!["remote"@, "remove"@, remotes[0]];
        if let Run::Gives(_, mid) = git::run_script(worktree, words, tape) {
            let rest = remotes.drop_first();
            remotes_are_removed(worktree, rest, mid);
            if let Run::Gives(_, later) = strip_from(worktree, remotes, tape) {
                assert forall|k: int| 0 <= k < remotes.len() implies was_done(
                    git_in(worktree, seq!["remote"@, "remove"@, #[trigger] remotes[k]]),
                    tape,
                    later,
                ) by {
                    let ask = git_in(worktree, seq!["remote"@, "remove"@, remotes[k]]);
                    if k == 0 {
                        assert(was_asked(ask, tape, mid, tape.next));
                        what_was_done_stays(ask, tape, tape, mid, later);
                    } else {
                        assert(rest[k - 1] == remotes[k]);
                        what_was_done_stays(ask, tape, mid, later, later);
                    }
                }
            }
        }
    }
}

/// Whether every remote that git named was removed, and git named none in the end.
pub open spec fn has_no_remotes(worktree: Text, tape: Tape, later: Tape) -> bool {
    &&& was_asked(git_in(worktree, seq!["remote"@]), tape, later, tape.next)
    &&& spoken(later.log[tape.next]) matches Some(named) && forall|k: int|
        0 <= k < lines_of(named).len() ==> was_done(
            git_in(worktree, seq!["remote"@, "remove"@, #[trigger] lines_of(named)[k]]),
            tape,
            later,
        )
    &&& was_told(worktree, seq!["remote"@], Seq::empty(), tape, later, later.next - 1)
}

/// No remote is left in a sandbox: whatever git names is removed, and making it goes on
/// only once git names none.
pub proof fn every_remote_is_removed(worktree: Text, tape: Tape)
    requires
        is_complete(tape),
    ensures
        continues(left_by(strip_remotes_script(worktree, tape)), tape),
        strip_remotes_script(worktree, tape) matches Run::Gives(_, later) ==> has_no_remotes(
            worktree,
            tape,
            later,
        ),
{
    going_on_adds_up();
    requests_are_exchanges();
    reveal(strip_remotes_script);
    let words = seq!["remote"@];
    if let Run::Gives(named, t1) = git::run_script(worktree, words, tape) {
        remotes_are_removed(worktree, lines_of(named), t1);
        if let Run::Gives(_, t2) = strip_from(worktree, lines_of(named), t1) {
            assert(continues(t2, t1));
            if let Run::Gives(_, later) = strip_remotes_script(worktree, tape) {
                assert(later == further(t2, git_in(worktree, words)));
                assert(spoken(t2.log[t2.next])->0 =~= Seq::<char>::empty());
                assert forall|k: int| 0 <= k < lines_of(named).len() implies was_done(
                    git_in(worktree, seq!["remote"@, "remove"@, #[trigger] lines_of(named)[k]]),
                    tape,
                    later,
                ) by {
                    what_was_done_stays(
                        git_in(worktree, seq!["remote"@, "remove"@, lines_of(named)[k]]),
                        tape,
                        t1,
                        t2,
                        later,
                    );
                }
                reveal(continues);
            }
        }
    }
}

// ---------------------------------------------------------------------------
// Settings
// ---------------------------------------------------------------------------
/// The settings that a sandbox takes over: who commits, how lines end, and how commits
/// are signed.
pub open spec fn settings() -> Seq<Text> {
    seq![
        "user.name"@,
        "user.email"@,
        "core.autocrlf"@,
        "core.eol"@,
        "commit.gpgsign"@,
        "tag.gpgsign"@,
        "user.signingkey"@,
        "gpg.format"@,
        "gpg.program"@,
        "gpg.openpgp.program"@,
        "gpg.ssh.program"@,
        "gpg.x509.program"@,
    ]
}

/// The arguments that ask git for a setting.
pub open spec fn setting_words(key: Text) -> Seq<Text> {
    seq!["config"@, "--get"@, key]
}

/// Whether git was asked for a setting of the repository, and what it named was set in
/// the sandbox.
pub open spec fn is_taken_over(
    key: Text,
    repo: Text,
    worktree: Text,
    tape: Tape,
    later: Tape,
) -> bool {
    exists|i: int|
        #[trigger] was_asked(git_in(repo, setting_words(key)), tape, later, i) && (
        spoken(later.log[i]) matches Some(value) ==> (value.len() > 0 ==> was_done(
            git_in(worktree, seq!["config"@, key, value]),
            tape,
            later,
        )))
}

proof fn what_is_taken_over_stays(
    key: Text,
    repo: Text,
    worktree: Text,
    earlier: Tape,
    tape: Tape,
    after: Tape,
    later: Tape,
)
    requires
        continues(tape, earlier),
        continues(after, tape),
        continues(later, after),
        is_taken_over(key, repo, worktree, tape, after),
    ensures
        is_taken_over(key, repo, worktree, earlier, later),
{
    let ask = git_in(repo, setting_words(key));
    let i = choose|i: int|
        #[trigger] was_asked(ask, tape, after, i) && (spoken(after.log[i]) matches Some(value)
            ==> (value.len() > 0 ==> was_done(
            git_in(worktree, seq!["config"@, key, value]),
            tape,
            after,
        )));
    assert(was_asked(ask, earlier, later, i) && later.log == after.log) by {
        reveal(continues);
    }
    if let Some(value) = spoken(after.log[i]) {
        if value.len() > 0 {
            what_was_done_stays(
                git_in(worktree, seq!["config"@, key, value]),
                earlier,
                tape,
                after,
                later,
            );
        }
    }
}

proof fn settings_are_taken_over(repo: Text, worktree: Text, keys: Seq<Text>, tape: Tape)
    requires
        is_complete(tape),
    ensures
        continues(left_by(carry_config_from(repo, worktree, keys, tape)), tape),
        carry_config_from(repo, worktree, keys, tape) matches Run::Gives(_, later) ==> forall|k: int|
            0 <= k < keys.len() ==> is_taken_over(
                #[trigger] keys[k],
                repo,
                worktree,
                tape,
                later,
            ),
    decreases keys.len(),
{
    going_on_adds_up();
    requests_are_exchanges();
    if keys.len() > 0 {
        let rest = keys.drop_first();
        let asking = git_in(repo, setting_words(keys[0]));
        let t1 = further(tape, asking);
        let first = git::run_script(repo, setting_words(keys[0]), tape);
        if !(first is Asks) {
            let value = first->Gives_0;
            let sets = first is Gives && value.len() > 0;
            let setting = git_in(worktree, seq!["config"@, keys[0], value]);
            let second = git::run_script(worktree, seq!["config"@, keys[0], value], t1);
            if !sets || second is Gives {
                let mid = if sets {
                    further(t1, setting)
                } else {
                    t1
                };
                settings_are_taken_over(repo, worktree, rest, mid);
                assert(continues(mid, tape));
                if let Run::Gives(_, later) = carry_config_from(repo, worktree, keys, tape) {
                    assert(was_asked(asking, tape, mid, tape.next) && mid.log == tape.log) by {
                        reveal(continues);
                    }
                    if sets {
                        assert(was_asked(setting, tape, mid, t1.next));
                    }
                    assert(is_taken_over(keys[0], repo, worktree, tape, mid));
                    assert forall|k: int| 0 <= k < keys.len() implies is_taken_over(
                        #[trigger] keys[k],
                        repo,
                        worktree,
                        tape,
                        later,
                    ) by {
                        if k == 0 {
                            what_is_taken_over_stays(keys[0], repo, worktree, tape, tape, mid, later);
                        } else {
                            assert(rest[k - 1] == keys[k]);
                            what_is_taken_over_stays(
                                keys[k],
                                repo,
                                worktree,
                                tape,
                                mid,
                                later,
                                later,
                            );
                        }
                    }
                }
            }
        }
    }
}

// ---------------------------------------------------------------------------
// The rest
// ---------------------------------------------------------------------------
pub proof fn origins_go_on(repo: Text, tape: Tape)
    requires
        is_complete(tape),
    ensures
        continues(left_by(capture_script(repo, tape)), tape),
{
    going_on_adds_up();
    requests_are_exchanges();
    reveal(capture_script);
    reveal(common_dir_script);
}

proof fn merge_settings_go_on(repo: Text, worktree: Text, tape: Tape)
    requires
        is_complete(tape),
    ensures
        continues(left_by(carry_merge_config_script(repo, worktree, tape)), tape),
{
    going_on_adds_up();
    requests_are_exchanges();
    reveal(carry_merge_config_script);
    reveal(write_merge_config_script);
}

proof fn copying_goes_on(stack: Seq<(Text, Text)>, tape: Tape)
    requires
        is_complete(tape),
    ensures
        continues(left_by(rerere::copy_from(stack, tape)), tape),
    decreases tape.log.len() - tape.next,
{
    going_on_adds_up();
    requests_are_exchanges();
    if stack.len() > 0 {
        reveal(rerere::entry_script);
        let one = rerere::entry_script(stack.last().0, stack.last().1, tape);
        assert(continues(left_by(one), tape));
        if let Run::Gives(below, mid) = one {
            rerere::entry_advances(stack.last().0, stack.last().1, tape);
            copying_goes_on(stack.drop_last() + below, mid);
        }
    }
}

proof fn resolutions_go_on(repo: Text, worktree: Text, tape: Tape)
    requires
        is_complete(tape),
    ensures
        continues(left_by(rerere::copy_script(repo, worktree, tape)), tape),
{
    going_on_adds_up();
    requests_are_exchanges();
    reveal(rerere::copy_script);
    origins_go_on(repo, tape);
    if let Run::Gives(origin, t1) = capture_script(repo, tape) {
        let source = inside(origin.common_dir, "rr-cache"@);
        if let Run::Gives(_, t2) = crate::files::kind_script(source, t1) {
            assert(continues(t2, t1));
            copying_goes_on(seq![(source, inside(worktree, ".git/rr-cache"@))], t2);
        }
    }
}

/// The arguments that check out in the sandbox what is checked out in the repository.
pub open spec fn checkout_words(checkout: CheckoutModel) -> Seq<Text> {
    match checkout {
        CheckoutModel::Branch(name) => seq!["checkout"@, "--quiet"@, name, "--"@],
        CheckoutModel::Detached(commit) => seq![
            "checkout"@,
            "--quiet"@,
            "--detach"@,
            commit,
            "--"@,
        ],
    }
}

/// The arguments that clone a repository into the sandbox, without anything of the user's
/// that git would run.
pub open spec fn cloning_words(repo: Text, hooks: Text) -> Seq<Text> {
    seq![
        "clone"@,
        "--local"@,
        "--no-checkout"@,
        "--template="@ + hooks,
        "--"@,
        repo,
        "sandbox"@,
    ]
}

/// Whether a sandbox was furnished so: it is a clone of the repository in which every
/// branch of it is a branch, without remotes and with an empty directory of hooks, with
/// the repository's own settings, and on what is checked out there; and the work that is
/// carried is parked in it.
pub open spec fn is_furnished_so(root: Text, plan: PlanModel, tape: Tape, later: Tape) -> bool {
    let worktree = worktree_of(root);
    let hooks = inside(root, "no-hooks"@);
    &&& was_asked(Ask::CreateDir(hooks), tape, later, tape.next)
    &&& later.log[tape.next] is Done
    &&& was_done(git_in(root, cloning_words(plan.repo, hooks)), tape, later)
    &&& exists|before: Tape, after: Tape|
        {
            &&& #[trigger] continues(before, tape)
            &&& #[trigger] continues(later, after)
            &&& branches_are_promoted(worktree, before, after)
        }
    &&& exists|before: Tape, after: Tape|
        {
            &&& #[trigger] continues(before, tape)
            &&& #[trigger] continues(later, after)
            &&& has_no_remotes(worktree, before, after)
        }
    &&& was_done(git_in(worktree, seq!["config"@, "core.hooksPath"@, hooks]), tape, later)
    &&& forall|k: int|
        0 <= k < settings().len() ==> is_taken_over(
            #[trigger] settings()[k],
            plan.repo,
            worktree,
            tape,
            later,
        )
    &&& was_done(git_in(worktree, checkout_words(plan.checkout)), tape, later)
    &&& plan.carry matches Some(carried) ==> was_done(
        git_in(
            plan.repo,
            seq![
                "push"@,
                "--quiet"@,
                "--no-verify"@,
                "--no-follow-tags"@,
                worktree,
                carried.snapshot + ":refs/rehearse/carried"@,
            ],
        ),
        tape,
        later,
    )
}

/// Whether git was asked for the branches of the sandbox and for those that it has of the
/// repository, and was told to make every one of the latter one of the former.
pub open spec fn branches_are_promoted(worktree: Text, tape: Tape, later: Tape) -> bool {
    &&& was_asked(git_in(worktree, git::refs_args("refs/heads/"@, 2)), tape, later, tape.next)
    &&& was_asked(
        git_in(worktree, git::refs_args("refs/remotes/origin/"@, 3)),
        tape,
        later,
        tape.next + 1,
    )
    &&& spoken(later.log[tape.next]) matches Some(heads) && (spoken(
        later.log[tape.next + 1],
    ) matches Some(remotes) && {
        let commands = promotions(
            git::refs_in(lines_of(remotes)),
            git::refs_in(lines_of(heads)),
        );
        commands.len() > 0 ==> was_done(
            git_fed(worktree, seq!["update-ref"@, "--stdin"@, "-z"@], commands),
            tape,
            later,
        )
    })
}

/// The moves that make every branch of a remote, whatever is checked out there, a branch
/// of the same name at the same commit.
pub open spec fn promoted(remote: Entries, existing: Entries) -> Seq<RefMoveModel>
    decreases remote.len(),
{
    if remote.len() == 0 {
        Seq::empty()
    } else {
        let earlier = promoted(remote.drop_last(), existing);
        let (name, commit) = remote.last();
        if name == "HEAD"@ {
            earlier
        } else {
            earlier.push(
                RefMoveModel {
                    name: "refs/heads/"@ + name,
                    before: lookup(existing, name),
                    after: Some(commit),
                },
            )
        }
    }
}

proof fn promotions_are_commands(remote: Entries, existing: Entries)
    ensures
        promotions(remote, existing) == commands_text(commands_of(promoted(remote, existing))),
        forall|i: int|
            0 <= i < promoted(remote, existing).len() ==> (#[trigger] promoted(
                remote,
                existing,
            )[i]).name != "HEAD"@,
        forall|i: int|
            0 <= i < promoted(remote, existing).len() ==> exists|k: int|
                0 <= k < remote.len() && #[trigger] remote[k].0 != "HEAD"@ && (#[trigger] promoted(
                    remote,
                    existing,
                )[i]).name == "refs/heads/"@ + remote[k].0,
    decreases remote.len(),
{
    let all = promoted(remote, existing);
    if remote.len() > 0 {
        let rest = remote.drop_last();
        promotions_are_commands(rest, existing);
        let (name, commit) = remote.last();
        let earlier = promoted(rest, existing);
        reveal_strlit("update refs/heads/");
        reveal_strlit("create refs/heads/");
        reveal_strlit("update ");
        reveal_strlit("create ");
        reveal_strlit("refs/heads/");
        reveal_strlit("HEAD");
        assert("update refs/heads/"@ =~= "update "@ + "refs/heads/"@);
        assert("create refs/heads/"@ =~= "create "@ + "refs/heads/"@);
        if name != "HEAD"@ {
            let moved = all.last();
            assert(all.drop_last() =~= earlier);
            let full = "refs/heads/"@ + name;
            assert(full[0] == 'r');
            assert("HEAD"@[0] == 'H');
            match lookup(existing, name) {
                Some(old) => {
                    assert("update refs/heads/"@ + name + "\0"@ + commit + "\0"@ + old + "\0"@
                        =~= "update "@ + full + "\0"@ + commit + "\0"@ + old + "\0"@);
                },
                None => {
                    assert("create refs/heads/"@ + name + "\0"@ + commit + "\0"@ =~= "create "@
                        + full + "\0"@ + commit + "\0"@);
                },
            }
            let commands = commands_of(all);
            assert(commands.drop_last() =~= commands_of(earlier));
        }
        assert forall|i: int| 0 <= i < all.len() implies exists|k: int|
            0 <= k < remote.len() && #[trigger] remote[k].0 != "HEAD"@ && (#[trigger] all[i]).name
                == "refs/heads/"@ + remote[k].0 by {
            if i < earlier.len() {
                assert(all[i] == earlier[i]);
                let k = choose|k: int|
                    0 <= k < rest.len() && #[trigger] rest[k].0 != "HEAD"@ && earlier[i].name
                        == "refs/heads/"@ + rest[k].0;
                assert(remote[k].0 != "HEAD"@);
            } else {
                assert(remote[remote.len() - 1].0 != "HEAD"@);
            }
        }
    }
}

proof fn promoted_are_distinct(remote: Entries, existing: Entries)
    requires
        ascending(remote),
    ensures
        are_distinct(promoted(remote, existing)),
        forall|k: int|
            0 <= k < remote.len() && (#[trigger] remote[k]).0 != "HEAD"@ ==> promoted(
                remote,
                existing,
            ).contains(
                RefMoveModel {
                    name: "refs/heads/"@ + remote[k].0,
                    before: lookup(existing, remote[k].0),
                    after: Some(remote[k].1),
                },
            ),
    decreases remote.len(),
{
    if remote.len() > 0 {
        let rest = remote.drop_last();
        let all = promoted(remote, existing);
        let earlier = promoted(rest, existing);
        let (name, commit) = remote.last();
        let last = remote.len() - 1;
        promoted_are_distinct(rest, existing);
        promotions_are_commands(remote, existing);
        promotions_are_commands(rest, existing);
        assert forall|i: int, j: int| 0 <= i < j < all.len() implies (#[trigger] all[i]).name != (
        #[trigger] all[j]).name by {
            if j < earlier.len() {
                assert(earlier[i].name != earlier[j].name);
            } else {
                assert(all[i] == earlier[i]);
                let k = choose|k: int|
                    0 <= k < rest.len() && #[trigger] rest[k].0 != "HEAD"@ && earlier[i].name
                        == "refs/heads/"@ + rest[k].0;
                if earlier[i].name == "refs/heads/"@ + name {
                    let head = "refs/heads/"@.len() as int;
                    assert((("refs/heads/"@) + name).skip(head) =~= name);
                    assert((("refs/heads/"@) + rest[k].0).skip(head) =~= rest[k].0);
                    assert(precedes(remote[k].0, remote[last].0));
                    precedes_irreflexive(name);
                }
            }
        }
        assert forall|k: int| 0 <= k < remote.len() && (#[trigger] remote[k]).0 != "HEAD"@ implies
            all.contains(
            RefMoveModel {
                name: "refs/heads/"@ + remote[k].0,
                before: lookup(existing, remote[k].0),
                after: Some(remote[k].1),
            },
        ) by {
            let moved = RefMoveModel {
                name: "refs/heads/"@ + remote[k].0,
                before: lookup(existing, remote[k].0),
                after: Some(remote[k].1),
            };
            if k < last {
                assert(rest[k] == remote[k]);
                let i = choose|i: int| 0 <= i < earlier.len() && earlier[i] == moved;
                assert(all[i] == moved);
            } else {
                assert(all[all.len() - 1] == moved);
            }
        }
    }
}

/// Every branch of the repository is a branch of the sandbox, at the same commit: git
/// obeys what it is told on promoting them, whatever branches there are already.
pub proof fn every_branch_is_one_of_the_sandbox(
    remote: Entries,
    existing: Entries,
    store: Map<Text, Text>,
)
    requires
        ascending(remote),
        forall|name: Text| #[trigger] at(store, "refs/heads/"@ + name) == lookup(existing, name),
    ensures
        exists|commands: Seq<RefCommand>|
            #[trigger] commands_text(commands) == promotions(remote, existing) && (transacted(
                store,
                commands,
            ) matches Some(after) && forall|k: int|
                0 <= k < remote.len() && (#[trigger] remote[k]).0 != "HEAD"@ ==> at(
                    after,
                    "refs/heads/"@ + remote[k].0,
                ) == Some(remote[k].1)),
{
    let moves = promoted(remote, existing);
    let commands = commands_of(moves);
    promotions_are_commands(remote, existing);
    promoted_are_distinct(remote, existing);
    transactions_move(store, moves);
    promoted_start_where_they_are(remote, existing, store);
    let after = transacted(store, commands)->0;
    assert forall|k: int| 0 <= k < remote.len() && (#[trigger] remote[k]).0 != "HEAD"@ implies at(
        after,
        "refs/heads/"@ + remote[k].0,
    ) == Some(remote[k].1) by {
        let moved = RefMoveModel {
            name: "refs/heads/"@ + remote[k].0,
            before: lookup(existing, remote[k].0),
            after: Some(remote[k].1),
        };
        assert(moves.contains(moved));
        let i = choose|i: int| 0 <= i < moves.len() && moves[i] == moved;
        assert(command_of(moves[i]) is Some);
        assert(is_moved(store, after, moves));
    }
}

proof fn promoted_start_where_they_are(
    remote: Entries,
    existing: Entries,
    store: Map<Text, Text>,
)
    requires
        forall|name: Text| #[trigger] at(store, "refs/heads/"@ + name) == lookup(existing, name),
    ensures
        all_start(store, promoted(remote, existing)),
    decreases remote.len(),
{
    if remote.len() > 0 {
        let rest = remote.drop_last();
        promoted_start_where_they_are(rest, existing, store);
        let all = promoted(remote, existing);
        let earlier = promoted(rest, existing);
        let (name, commit) = remote.last();
        if name != "HEAD"@ {
            assert(at(store, "refs/heads/"@ + name) == lookup(existing, name));
            assert forall|i: int| 0 <= i < earlier.len() implies all[i] == #[trigger] earlier[i] by {}
            assert(all[all.len() - 1].before == lookup(existing, name));
        }
    }
}

proof fn promoting_goes_on(worktree: Text, tape: Tape)
    requires
        is_complete(tape),
    ensures
        continues(left_by(promote_branches_script(worktree, tape)), tape),
        promote_branches_script(worktree, tape) matches Run::Gives(_, later)
            ==> branches_are_promoted(worktree, tape, later),
{
    going_on_adds_up();
    requests_are_exchanges();
    reveal(promote_branches_script);
    reveal(git::refs_script);
    if let Run::Gives(_, later) = promote_branches_script(worktree, tape) {
        reveal(continues);
        let existing = git::refs_in(lines_of(spoken(tape.log[tape.next])->0));
        let remote = git::refs_in(lines_of(spoken(tape.log[tape.next + 1])->0));
        let commands = promotions(remote, existing);
        if commands.len() > 0 {
            assert(was_asked(
                git_fed(worktree, seq!["update-ref"@, "--stdin"@, "-z"@], commands),
                tape,
                later,
                tape.next + 2,
            ));
        }
    }
}

/// A sandbox is furnished with all that it needs and nothing that reaches out of it.
pub proof fn a_sandbox_is_furnished(root: Text, plan: PlanModel, tape: Tape)
    requires
        is_complete(tape),
    ensures
        continues(left_by(furnish_script(root, plan, tape)), tape),
        furnish_script(root, plan, tape) matches Run::Gives(_, later) ==> is_furnished_so(
            root,
            plan,
            tape,
            later,
        ),
{
    going_on_adds_up();
    requests_are_exchanges();
    reveal(furnish_script);
    reveal(clone_script);
    reveal(park_carry_script);
    reveal(carry::park_script);
    let hooks = inside(root, "no-hooks"@);
    let worktree = worktree_of(root);
    let repo = plan.repo;
    let later = left_by(furnish_script(root, plan, tape));
    if let Run::Gives(_, t1) = crate::files::do_script(Ask::CreateDir(hooks), hooks, tape) {
        assert(continues(t1, tape));
        if let Run::Gives(_, t2) = clone_script(root, repo, hooks, t1) {
            let cloning = git_in(root, cloning_words(repo, hooks));
            assert(t2 == further(t1, cloning));
            assert(continues(t2, t1));
            promoting_goes_on(worktree, t2);
            if let Run::Gives(_, t3) = promote_branches_script(worktree, t2) {
                every_remote_is_removed(worktree, t3);
                if let Run::Gives(_, t4) = strip_remotes_script(worktree, t3) {
                    let hooking = git_in(worktree, seq!["config"@, "core.hooksPath"@, hooks]);
                    if let Run::Gives(_, t5) = git::run_script(
                        worktree,
                        seq!["config"@, "core.hooksPath"@, hooks],
                        t4,
                    ) {
                        assert(continues(t5, t4));
                        settings_are_taken_over(repo, worktree, carried_config(), t5);
                        if let Run::Gives(_, t6) = carry_config_from(
                            repo,
                            worktree,
                            carried_config(),
                            t5,
                        ) {
                            merge_settings_go_on(repo, worktree, t6);
                            if let Run::Gives(_, t7) = carry_merge_config_script(
                                repo,
                                worktree,
                                t6,
                            ) {
                                resolutions_go_on(repo, worktree, t7);
                                if let Run::Gives(_, t8) = rerere::copy_script(repo, worktree, t7) {
                                    checking_out_is_last(root, plan, t8);
                                    if furnish_script(root, plan, tape) is Gives {
                                        assert(continues(later, t8));
                                        assert(was_asked(cloning, t1, t2, t1.next));
                                        assert(continues(later, t2));
                                        what_was_done_stays(cloning, tape, t1, t2, later);
                                        assert(was_asked(hooking, t4, t5, t4.next));
                                        assert(continues(t4, tape));
                                        assert(continues(later, t5));
                                        what_was_done_stays(hooking, tape, t4, t5, later);
                                        assert(continues(t3, tape));
                                        assert(continues(later, t4));
                                        assert(continues(t5, tape));
                                        assert(continues(later, t6));
                                        assert(carried_config() =~= settings());
                                        assert forall|k: int|
                                            0 <= k < settings().len() implies is_taken_over(
                                            #[trigger] settings()[k],
                                            repo,
                                            worktree,
                                            tape,
                                            later,
                                        ) by {
                                            assert(carried_config()[k] == settings()[k]);
                                            what_is_taken_over_stays(
                                                settings()[k],
                                                repo,
                                                worktree,
                                                tape,
                                                t5,
                                                t6,
                                                later,
                                            );
                                        }
                                        assert(continues(t8, tape));
                                        what_was_done_stays(
                                            git_in(worktree, checkout_words(plan.checkout)),
                                            tape,
                                            t8,
                                            later,
                                            later,
                                        );
                                        if let Some(carried) = plan.carry {
                                            what_was_done_stays(
                                                git_in(
                                                    repo,
                                                    seq![
                                                        "push"@,
                                                        "--quiet"@,
                                                        "--no-verify"@,
                                                        "--no-follow-tags"@,
                                                        worktree,
                                                        carried.snapshot
                                                            + ":refs/rehearse/carried"@,
                                                    ],
                                                ),
                                                tape,
                                                t8,
                                                later,
                                                later,
                                            );
                                        }
                                        what_was_said_stays(t1, later, tape.next);
                                    }
                                }
                            }
                        }
                    }
                }
            }
        }
    }
}

proof fn checking_out_is_last(root: Text, plan: PlanModel, tape: Tape)
    requires
        is_complete(tape),
    ensures
        ({
            let worktree = worktree_of(root);
            let run = git::run_script(worktree, checkout_args(plan.checkout), tape).and_then(
                |made: Text, tape: Tape|
                    park_carry_script(plan.repo, worktree, plan.carry, tape),
            );
            let later = left_by(run);
            &&& continues(later, tape)
            &&& run is Gives ==> was_done(
                git_in(worktree, checkout_words(plan.checkout)),
                tape,
                later,
            )
            &&& run is Gives ==> (plan.carry matches Some(carried) ==> was_done(
                git_in(
                    plan.repo,
                    seq![
                        "push"@,
                        "--quiet"@,
                        "--no-verify"@,
                        "--no-follow-tags"@,
                        worktree,
                        carried.snapshot + ":refs/rehearse/carried"@,
                    ],
                ),
                tape,
                later,
            ))
        }),
{
    going_on_adds_up();
    requests_are_exchanges();
    reveal(park_carry_script);
    reveal(carry::park_script);
    let worktree = worktree_of(root);
    assert(checkout_words(plan.checkout) =~= checkout_args(plan.checkout));
    let ask = git_in(worktree, checkout_words(plan.checkout));
    if let Run::Gives(_, mid) = git::run_script(worktree, checkout_args(plan.checkout), tape) {
        assert(was_asked(ask, tape, mid, tape.next));
        let run = park_carry_script(plan.repo, worktree, plan.carry, mid);
        if let Run::Gives(_, later) = run {
            assert(continues(later, mid));
            what_was_done_stays(ask, tape, tape, mid, later);
            if let Some(carried) = plan.carry {
                let pushing = git_in(
                    plan.repo,
                    seq![
                        "push"@,
                        "--quiet"@,
                        "--no-verify"@,
                        "--no-follow-tags"@,
                        worktree,
                        carried.snapshot + ":refs/rehearse/carried"@,
                    ],
                );
                assert(was_asked(pushing, tape, later, mid.next));
            }
        }
    }
}

// ---------------------------------------------------------------------------
// A new rehearsal
// ---------------------------------------------------------------------------
proof fn claiming_goes_on(repo_dir: Text, now: u64, attempt: int, tape: Tape)
    requires
        is_complete(tape),
        0 <= attempt,
    ensures
        continues(left_by(claim_from(repo_dir, now, attempt, tape)), tape),
        claim_from(repo_dir, now, attempt, tape) matches Run::Gives(id, later) ==> {
            &&& later.next > tape.next
            &&& later.asks.last() == Ask::CreateDir(inside(repo_dir, id))
            &&& later.log[later.next - 1] is Done
            &&& exists|k: nat| attempt <= k < 100 && id == #[trigger] rehearsal_id(now, k)
        },
    decreases 100 - attempt,
{
    going_on_adds_up();
    if attempt < 100 && tape.next < tape.log.len() {
        let id = rehearsal_id(now, attempt as nat);
        let mid = further(tape, Ask::CreateDir(inside(repo_dir, id)));
        claiming_goes_on(repo_dir, now, attempt + 1, mid);
        assert(continues(mid, tape));
        reveal(continues);
    }
}

/// Whether a new rehearsal is this: it stands in the cache under the repository's own name
/// and an id that nothing had before, what is known of it is what was planned, and its
/// sandbox was furnished.
pub open spec fn is_made_so(
    sandbox: SandboxModel,
    cache_root: Text,
    plan: PlanModel,
    now: u64,
    tape: Tape,
    later: Tape,
) -> bool {
    let meta = sandbox.meta;
    &&& exists|k: nat| k < 100 && meta.id == #[trigger] rehearsal_id(now, k)
    &&& sandbox.root == inside(inside(cache_root, id_of(plan.repo)), meta.id)
    &&& meta.repo_id == id_of(plan.repo)
    &&& meta.repo_path == plan.repo
    &&& meta.command == plan.command
    &&& meta.checkout == plan.checkout
    &&& meta.pre_state == plan.pre_state
    &&& meta.carry == plan.carry
    &&& meta.created_unix == now
    &&& meta.status == Status::Fresh
    &&& meta.result is None
    &&& exists|before: Tape, after: Tape|
        {
            &&& #[trigger] continues(before, tape)
            &&& #[trigger] continues(later, after)
            &&& before.asks.last() == Ask::CreateDir(sandbox.root)
            &&& before.log[before.next - 1] is Done
            &&& is_furnished_so(sandbox.root, plan, before, after)
        }
}

/// A rehearsal is made as it was planned, in a directory of its own; and where that fails
/// the directory is removed again.
pub proof fn a_rehearsal_is_made_as_planned(cache_root: Text, plan: PlanModel, now: u64, tape: Tape)
    requires
        is_complete(tape),
    ensures
        create_script(cache_root, plan, now, tape) matches Run::Gives(sandbox, later)
            ==> is_made_so(sandbox, cache_root, plan, now, tape, later),
        ({
            let repo_dir = inside(cache_root, id_of(plan.repo));
            let made = further(tape, Ask::CreateDirs(repo_dir));
            claim_from(repo_dir, now, 0, made) matches Run::Gives(id, claimed) ==> (
            create_script(cache_root, plan, now, tape) matches Run::Fails(_, later)
                ==> tape.log[tape.next] is Done ==> later.asks.last() == Ask::RemoveTree(
                inside(repo_dir, id),
            ))
        }),
{
    going_on_adds_up();
    requests_are_exchanges();
    reveal(create_script);
    reveal(build_script);
    reveal(crate::files::do_script);
    let repo_dir = inside(cache_root, id_of(plan.repo));
    if let Run::Gives(_, t1) = crate::files::do_script(Ask::CreateDirs(repo_dir), repo_dir, tape) {
        assert(continues(t1, tape));
        claiming_goes_on(repo_dir, now, 0, t1);
        if let Run::Gives(id, t2) = claim_from(repo_dir, now, 0, t1) {
            let root = inside(repo_dir, id);
            assert(continues(t2, tape));
            a_sandbox_is_furnished(root, plan, t2);
            if let Run::Gives(_, t3) = furnish_script(root, plan, t2) {
                origins_go_on(plan.repo, t3);
                if let Run::Gives(origin, t4) = capture_script(plan.repo, t3) {
                    writing_meta_goes_on(
                        crate::sandbox::lifecycle::fresh_meta(plan, id, origin, now),
                        root,
                        t4,
                    );
                    if let Run::Gives(sandbox, later) = create_script(cache_root, plan, now, tape) {
                        assert(continues(later, t4));
                        assert(continues(later, t3));
                    }
                }
            }
        }
    }
}

} // verus!
