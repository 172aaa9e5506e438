//! That the user's repository is left alone until they say otherwise.

use vstd::prelude::*;

use crate::cache::{id_of, is_safe, repo_ids_are_safe};
use crate::carry;
use crate::collision::walk::copies_of;
use crate::files::{do_script, kind_script, list_script};
use crate::git;
use crate::guarantees::asking::{
    files_are_tame, git_is_tame, listings_give_names, lists_names, origins_are_tame, tame,
    writing_meta_is_tame,
};
use crate::guarantees::places::{
    are_names, fixed_names_stay, inside_is_within, is_name, names_come_last, names_stay, stays,
    within, Reach,
};
use crate::number::{decimal, decimal_value, two_digits};
use crate::order::{sorted_paths, sorting_orders_the_paths};
use crate::paths::{displayed, file_name_of, inside};
use crate::sandbox::lifecycle::{
    build_script, carried_config, carry_config_from, carry_merge_config_script, claim_from,
    clone_script, create_script, furnish_script, park_carry_script, promote_branches_script, rehearsal_id,
    strip_from, strip_remotes_script, write_merge_config_script,
};
use crate::sandbox::meta;
use crate::sandbox::rerere;
use crate::sandbox::store::{
    self, an_id_means_one_rehearsal, by_age, directories_from, directory_mtime_script,
    is_recovery_reserved_script, is_wanted, listings_are_by_age, meant, prunable_since_script, prune_from,
    prune_repositories_from, prune_script, rehearsal_script, rehearsals_from,
    remove_rehearsal_script, repositories_from, subdirectories_script,
};
use crate::sandbox::{worktree_of, PlanModel, SandboxModel};
use crate::session::{further, Answer, Ask, HeardModel, Kind, Run, Tape};
use crate::text::Text;

verus! {

// ---------------------------------------------------------------------------
// Making a sandbox
// ---------------------------------------------------------------------------
proof fn stripping_each_is_tame(worktree: Text, remotes: Seq<Text>, reach: Reach, tape: Tape)
    requires
        within(worktree, reach),
    ensures
        tame(strip_from(worktree, remotes, tape), reach, tape),
    decreases remotes.len(),
{
    git_is_tame(reach);
    if remotes.len() > 0 {
        if let Run::Gives(output, after) = git::run_script(
            worktree,
            seq!["remote"@, "remove"@, remotes[0]],
            tape,
        ) {
            stripping_each_is_tame(worktree, remotes.drop_first(), reach, after);
        }
    }
}

/// Whether a word is no option of git.
spec fn is_key(word: Text) -> bool {
    !"-"@.is_prefix_of(word)
}

spec fn are_keys(words: Seq<Text>) -> bool {
    forall|i: int| 0 <= i < words.len() ==> is_key(#[trigger] words[i])
}

proof fn starts_otherwise(word: Text)
    requires
        word.len() > 0,
        word[0] != '-',
    ensures
        is_key(word),
{
    reveal_strlit("-");
    if "-"@.is_prefix_of(word) {
        assert("-"@[0] == word[0]);
    }
}

proof fn settings_are_keys()
    ensures
        are_keys(carried_config()),
        is_key("core.hooksPath"@),
{
    reveal_strlit("user.name");
    reveal_strlit("user.email");
    reveal_strlit("core.autocrlf");
    reveal_strlit("core.eol");
    reveal_strlit("commit.gpgsign");
    reveal_strlit("tag.gpgsign");
    reveal_strlit("user.signingkey");
    reveal_strlit("gpg.format");
    reveal_strlit("gpg.program");
    reveal_strlit("gpg.openpgp.program");
    reveal_strlit("gpg.ssh.program");
    reveal_strlit("gpg.x509.program");
    reveal_strlit("core.hooksPath");
    starts_otherwise("user.name"@);
    starts_otherwise("user.email"@);
    starts_otherwise("core.autocrlf"@);
    starts_otherwise("core.eol"@);
    starts_otherwise("commit.gpgsign"@);
    starts_otherwise("tag.gpgsign"@);
    starts_otherwise("user.signingkey"@);
    starts_otherwise("gpg.format"@);
    starts_otherwise("gpg.program"@);
    starts_otherwise("gpg.openpgp.program"@);
    starts_otherwise("gpg.ssh.program"@);
    starts_otherwise("gpg.x509.program"@);
    starts_otherwise("core.hooksPath"@);
}

proof fn carrying_config_is_tame(
    repo: Text,
    worktree: Text,
    keys: Seq<Text>,
    reach: Reach,
    tape: Tape,
)
    requires
        within(worktree, reach),
        are_keys(keys),
    ensures
        tame(carry_config_from(repo, worktree, keys, tape), reach, tape),
    decreases keys.len(),
{
    git_is_tame(reach);
    if keys.len() > 0 {
        let rest = keys.drop_first();
        assert(is_key(keys[0]));
        assert forall|i: int| 0 <= i < rest.len() implies is_key(#[trigger] rest[i]) by {
            assert(rest[i] == keys[i + 1]);
        }
        match git::run_script(repo, seq!["config"@, "--get"@, keys[0]], tape) {
            Run::Gives(value, after) => {
                carrying_config_is_tame(repo, worktree, rest, reach, after);
                if let Run::Gives(output, later) = git::run_script(
                    worktree,
                    seq!["config"@, keys[0], value],
                    after,
                ) {
                    carrying_config_is_tame(repo, worktree, rest, reach, later);
                }
            },
            Run::Fails(fault, after) => {
                carrying_config_is_tame(repo, worktree, rest, reach, after);
            },
            Run::Asks(ask, after) => {},
        }
    }
}

/// The first of some names stays where they are, and the others are names too.
proof fn first_name_stays(names: Seq<Text>, reach: Reach)
    requires
        names.len() > 0,
        are_names(names, reach),
    ensures
        stays(names[0], reach),
        are_names(names.drop_first(), reach),
{
    if !(reach is Anywhere) {
        assert(is_name(names[0]));
        names_stay(names[0], reach);
        let rest = names.drop_first();
        assert forall|i: int| 0 <= i < rest.len() implies is_name(#[trigger] rest[i]) by {
            assert(rest[i] == names[i + 1]);
        }
    }
}

proof fn copies_are_within(from: Text, to: Text, names: Seq<Text>, reach: Reach)
    requires
        within(to, reach),
        are_names(names, reach),
    ensures
        forall|i: int|
            0 <= i < copies_of(from, to, names, false).len() ==> within(
                (#[trigger] copies_of(from, to, names, false)[i]).1,
                reach,
            ),
    decreases names.len(),
{
    if names.len() > 0 {
        let rest = names.drop_first();
        first_name_stays(names, reach);
        copies_are_within(from, to, rest, reach);
        inside_is_within(to, names[0], reach);
        let all = copies_of(from, to, names, false);
        let below = copies_of(from, to, rest, false);
        assert forall|i: int| 0 <= i < all.len() implies within((#[trigger] all[i]).1, reach) by {
            if i < below.len() {
                assert(all[i] == below[i]);
            }
        }
    }
}

proof fn copying_an_entry_is_tame(source: Text, destination: Text, reach: Reach, tape: Tape)
    requires
        within(destination, reach),
        lists_names(tape.log, reach),
    ensures
        tame(rerere::entry_script(source, destination, tape), reach, tape),
        rerere::entry_script(source, destination, tape) matches Run::Gives(below, after) ==> forall|
            i: int,
        |
            0 <= i < below.len() ==> within((#[trigger] below[i]).1, reach),
{
    files_are_tame(reach);
    reveal(rerere::entry_script);
    if let Run::Gives(HeardModel::Got(Kind::Directory), found) = kind_script(source, tape) {
        if let Run::Gives(made, created) = do_script(
            Ask::CreateDir(destination),
            destination,
            found,
        ) {
            listings_give_names(source, source, reach, created);
            if let Run::Gives(names, listed) = list_script(source, source, created) {
                copies_are_within(source, destination, names, reach);
            }
        }
    }
}

proof fn copying_resolutions_is_tame(stack: Seq<(Text, Text)>, reach: Reach, tape: Tape)
    requires
        forall|i: int| 0 <= i < stack.len() ==> within((#[trigger] stack[i]).1, reach),
        lists_names(tape.log, reach),
    ensures
        tame(rerere::copy_from(stack, tape), reach, tape),
    decreases tape.log.len() - tape.next,
{
    if stack.len() > 0 {
        let (source, destination) = stack.last();
        assert(within(stack[stack.len() - 1].1, reach));
        rerere::entry_advances(source, destination, tape);
        copying_an_entry_is_tame(source, destination, reach, tape);
        if let Run::Gives(below, after) = rerere::entry_script(source, destination, tape) {
            let rest = stack.drop_last() + below;
            assert forall|i: int| 0 <= i < rest.len() implies within(
                (#[trigger] rest[i]).1,
                reach,
            ) by {
                if i < stack.len() - 1 {
                    assert(rest[i] == stack[i]);
                } else {
                    assert(rest[i] == below[i - (stack.len() - 1)]);
                }
            }
            copying_resolutions_is_tame(rest, reach, after);
        }
    }
}

proof fn bringing_resolutions_is_tame(repo: Text, worktree: Text, reach: Reach)
    requires
        within(worktree, reach),
    ensures
        forall|tape: Tape|
            lists_names(tape.log, reach) ==> tame(
                #[trigger] rerere::copy_script(repo, worktree, tape),
                reach,
                tape,
            ),
{
    files_are_tame(reach);
    origins_are_tame(reach);
    reveal(rerere::copy_script);
    let destination = inside(worktree, ".git/rr-cache"@);
    fixed_names_stay(reach);
    inside_is_within(worktree, ".git/rr-cache"@, reach);
    assert forall|source: Text, tape: Tape| lists_names(tape.log, reach) implies tame(
        #[trigger] rerere::copy_from(seq![(source, destination)], tape),
        reach,
        tape,
    ) by {
        copying_resolutions_is_tame(seq![(source, destination)], reach, tape);
    }
}

proof fn bringing_settings_is_tame(repo: Text, worktree: Text, reach: Reach)
    requires
        within(worktree, reach),
    ensures
        forall|keys: Seq<Text>, tape: Tape|
            are_keys(keys) ==> tame(
                #[trigger] carry_config_from(repo, worktree, keys, tape),
                reach,
                tape,
            ),
        forall|tape: Tape|
            tame(#[trigger] carry_merge_config_script(repo, worktree, tape), reach, tape),
{
    git_is_tame(reach);
    files_are_tame(reach);
    reveal(write_merge_config_script);
    reveal(carry_merge_config_script);
    fixed_names_stay(reach);
    inside_is_within(worktree, ".git/config"@, reach);
    assert forall|keys: Seq<Text>, tape: Tape| are_keys(keys) implies tame(
        #[trigger] carry_config_from(repo, worktree, keys, tape),
        reach,
        tape,
    ) by {
        carrying_config_is_tame(repo, worktree, keys, reach, tape);
    }
}

proof fn making_inert_is_tame(root: Text, repo: Text, hooks: Text, worktree: Text, reach: Reach)
    requires
        within(root, reach),
        within(worktree, reach),
    ensures
        forall|tape: Tape| tame(#[trigger] clone_script(root, repo, hooks, tape), reach, tape),
        forall|tape: Tape| tame(#[trigger] promote_branches_script(worktree, tape), reach, tape),
        forall|tape: Tape| tame(#[trigger] strip_remotes_script(worktree, tape), reach, tape),
{
    git_is_tame(reach);
    fixed_names_stay(reach);
    inside_is_within(root, "sandbox"@, reach);
    reveal(clone_script);
    reveal(promote_branches_script);
    reveal(strip_remotes_script);
    assert forall|remotes: Seq<Text>, tape: Tape| tame(
        #[trigger] strip_from(worktree, remotes, tape),
        reach,
        tape,
    ) by {
        stripping_each_is_tame(worktree, remotes, reach, tape);
    }
}

proof fn parking_is_tame(repo: Text, worktree: Text, reach: Reach)
    requires
        within(worktree, reach),
    ensures
        forall|carry: Option<carry::CarryModel>, tape: Tape|
            tame(#[trigger] park_carry_script(repo, worktree, carry, tape), reach, tape),
{
    git_is_tame(reach);
    reveal(park_carry_script);
    reveal(carry::park_script);
}

proof fn furnishing_is_tame(root: Text, plan: PlanModel, reach: Reach)
    requires
        within(root, reach),
        within(worktree_of(root), reach),
    ensures
        forall|tape: Tape|
            lists_names(tape.log, reach) ==> tame(
                #[trigger] furnish_script(root, plan, tape),
                reach,
                tape,
            ),
{
    let hooks = inside(root, "no-hooks"@);
    let worktree = worktree_of(root);
    fixed_names_stay(reach);
    settings_are_keys();
    inside_is_within(root, "no-hooks"@, reach);
    git_is_tame(reach);
    files_are_tame(reach);
    making_inert_is_tame(root, plan.repo, hooks, worktree, reach);
    bringing_settings_is_tame(plan.repo, worktree, reach);
    bringing_resolutions_is_tame(plan.repo, worktree, reach);
    parking_is_tame(plan.repo, worktree, reach);
    reveal(furnish_script);
}

proof fn ids_are_names(now: u64, attempt: nat)
    ensures
        is_name(rehearsal_id(now, attempt)),
{
    decimal_value(now as nat);
    decimal_value(attempt);
    reveal_strlit("-");
    reveal_strlit("0");
    reveal_strlit(".");
    reveal_strlit("..");
    let id = rehearsal_id(now, attempt);
    let first = decimal(now as nat);
    let second = two_digits(attempt);
    assert forall|i: int| 0 <= i < id.len() implies #[trigger] id[i] != '/' by {
        if i < first.len() {
            assert(id[i] == first[i]);
        } else if i > first.len() {
            assert(id[i] == second[i - first.len() - 1]);
            if attempt < 10 && i > first.len() + 1 {
                assert(id[i] == decimal(attempt)[i - first.len() - 2]);
            }
        }
    }
    assert(id[0] == first[0]);
}

pub proof fn cache_names_are_names(repo: Text)
    ensures
        is_name(id_of(repo)),
{
    repo_ids_are_safe(repo);
    reveal_strlit(".");
    reveal_strlit("..");
    reveal_strlit("-");
    let id = id_of(repo);
    assert(is_safe(id));
    assert(id.len() > 0);
    assert(id[0] != '.');
}

proof fn claiming_is_tame(repo_dir: Text, now: u64, attempt: int, reach: Reach, tape: Tape)
    requires
        within(repo_dir, reach),
        0 <= attempt,
    ensures
        tame(claim_from(repo_dir, now, attempt, tape), reach, tape),
        claim_from(repo_dir, now, attempt, tape) matches Run::Gives(id, after) ==> is_name(id),
    decreases 100 - attempt,
{
    if attempt < 100 {
        ids_are_names(now, attempt as nat);
        names_stay(rehearsal_id(now, attempt as nat), reach);
        inside_is_within(repo_dir, rehearsal_id(now, attempt as nat), reach);
        if 0 <= tape.next < tape.log.len() {
            claiming_is_tame(
                repo_dir,
                now,
                attempt + 1,
                reach,
                further(
                    tape,
                    Ask::CreateDir(inside(repo_dir, rehearsal_id(now, attempt as nat))),
                ),
            );
        }
    }
}

/// Making a sandbox touches nothing outside of the repository's own directory in
/// the cache, and the sandbox is in it.
pub proof fn creating_is_tame(
    cache_root: Text,
    plan: PlanModel,
    now: u64,
    reach: Reach,
    tape: Tape,
)
    requires
        within(inside(cache_root, id_of(plan.repo)), reach),
        lists_names(tape.log, reach),
    ensures
        tame(create_script(cache_root, plan, now, tape), reach, tape),
        create_script(cache_root, plan, now, tape) matches Run::Gives(sandbox, after) ==> within(
            sandbox.root,
            reach,
        ) && within(worktree_of(sandbox.root), reach),
{
    reveal(create_script);
    files_are_tame(reach);
    let repo_dir = inside(cache_root, id_of(plan.repo));
    if let Run::Gives(made, ready) = do_script(Ask::CreateDirs(repo_dir), repo_dir, tape) {
        claiming_is_tame(repo_dir, now, 0, reach, ready);
        if let Run::Gives(id, claimed) = claim_from(repo_dir, now, 0, ready) {
            let root = inside(repo_dir, id);
            names_stay(id, reach);
            inside_is_within(repo_dir, id, reach);
            fixed_names_stay(reach);
            inside_is_within(root, "sandbox"@, reach);
            furnishing_is_tame(root, plan, reach);
            origins_are_tame(reach);
            writing_meta_is_tame(root, reach);
            reveal(build_script);
        }
    }
}

// ---------------------------------------------------------------------------
// Finding sandboxes again
// ---------------------------------------------------------------------------
/// Whether a rehearsal is within reach.
pub open spec fn is_home(sandbox: SandboxModel, reach: Reach) -> bool {
    within(sandbox.root, reach) && within(worktree_of(sandbox.root), reach)
}

/// Whether all of them are.
pub open spec fn are_home(found: Seq<SandboxModel>, reach: Reach) -> bool {
    forall|i: int| 0 <= i < found.len() ==> is_home(#[trigger] found[i], reach)
}

/// Whether paths are all within reach.
pub open spec fn all_within(paths: Seq<Text>, reach: Reach) -> bool {
    forall|i: int| 0 <= i < paths.len() ==> within(#[trigger] paths[i], reach)
}

/// Whether a path is that of something in a directory.
spec fn is_entry(path: Text, dir: Text) -> bool {
    file_name_of(path) matches Some(name) && is_name(name) && path == inside(dir, name)
}

/// Whether all of them are, unless everything is within reach.
spec fn are_entries(paths: Seq<Text>, dir: Text, reach: Reach) -> bool {
    reach is Anywhere || forall|i: int| 0 <= i < paths.len() ==> is_entry(#[trigger] paths[i], dir)
}

proof fn entries_are_within(paths: Seq<Text>, dir: Text, reach: Reach)
    requires
        within(dir, reach),
        are_entries(paths, dir, reach),
    ensures
        all_within(paths, reach),
{
    if !(reach is Anywhere) {
        assert forall|i: int| 0 <= i < paths.len() implies within(#[trigger] paths[i], reach) by {
            assert(is_entry(paths[i], dir));
            names_stay(file_name_of(paths[i])->0, reach);
            inside_is_within(dir, file_name_of(paths[i])->0, reach);
        }
    }
}

proof fn looking_at_each_is_tame(
    dir: Text,
    names: Seq<Text>,
    done: Seq<Text>,
    reach: Reach,
    tape: Tape,
)
    requires
        are_entries(done, dir, reach),
        are_names(names, reach),
    ensures
        tame(directories_from(dir, names, done, tape), reach, tape),
        directories_from(dir, names, done, tape) matches Run::Gives(dirs, after) ==> are_entries(
            dirs,
            dir,
            reach,
        ),
    decreases names.len(),
{
    files_are_tame(reach);
    if names.len() > 0 {
        let rest = names.drop_first();
        first_name_stays(names, reach);
        if !(reach is Anywhere) {
            assert(is_name(names[0]));
            names_come_last(dir, names[0]);
        }
        if let Run::Gives(HeardModel::Got(kind), after) = kind_script(inside(dir, names[0]), tape) {
            looking_at_each_is_tame(dir, rest, done, reach, after);
            looking_at_each_is_tame(dir, rest, done.push(inside(dir, names[0])), reach, after);
        }
    }
}

proof fn sorted_entries_are_entries(paths: Seq<Text>, dir: Text, reach: Reach)
    requires
        are_entries(paths, dir, reach),
    ensures
        are_entries(sorted_paths(paths), dir, reach),
{
    broadcast use vstd::seq_lib::group_to_multiset_ensures;

    sorting_orders_the_paths(paths);
    let sorted = sorted_paths(paths);
    if !(reach is Anywhere) {
        assert forall|i: int| 0 <= i < sorted.len() implies is_entry(#[trigger] sorted[i], dir) by {
            assert(sorted.to_multiset().count(sorted[i]) > 0);
            let k = choose|k: int| 0 <= k < paths.len() && paths[k] == sorted[i];
            assert(is_entry(paths[k], dir));
        }
    }
}

proof fn listing_directories_is_tame(dir: Text, reach: Reach, tape: Tape)
    requires
        lists_names(tape.log, reach),
    ensures
        tame(subdirectories_script(dir, tape), reach, tape),
        subdirectories_script(dir, tape) matches Run::Gives(dirs, after) ==> are_entries(
            dirs,
            dir,
            reach,
        ),
{
    reveal(subdirectories_script);
    if 0 <= tape.next < tape.log.len() {
        let after = further(tape, Ask::List(dir));
        if let Answer::Names(names) = tape.log[tape.next] {
            looking_at_each_is_tame(dir, names, Seq::empty(), reach, after);
            if let Run::Gives(dirs, later) = directories_from(dir, names, Seq::empty(), after) {
                sorted_entries_are_entries(dirs, dir, reach);
            }
        }
    }
}

proof fn reading_meta_is_tame(root: Text, reach: Reach)
    requires
        within(root, reach),
    ensures
        forall|tape: Tape| tame(#[trigger] meta::read_script(root, tape), reach, tape),
{
    files_are_tame(reach);
    writing_meta_is_tame(root, reach);
    reveal(meta::read_script);
    reveal(meta::read_document_script);
    reveal(meta::decode_script);
}

proof fn worktrees_are_within(root: Text, reach: Reach)
    requires
        within(root, reach),
    ensures
        within(worktree_of(root), reach),
{
    fixed_names_stay(reach);
    inside_is_within(root, "sandbox"@, reach);
}

proof fn reading_a_rehearsal_is_tame(root: Text, reach: Reach)
    requires
        within(root, reach),
    ensures
        forall|tape: Tape| tame(#[trigger] rehearsal_script(root, tape), reach, tape),
        forall|tape: Tape|
            #[trigger] rehearsal_script(root, tape) matches Run::Gives(found, after) ==> (
            found matches Some(sandbox) ==> sandbox.root == root),
{
    files_are_tame(reach);
    reading_meta_is_tame(root, reach);
    reveal(rehearsal_script);
}

proof fn reading_each_is_tame(
    roots: Seq<Text>,
    found: Seq<SandboxModel>,
    reach: Reach,
    tape: Tape,
)
    requires
        all_within(roots, reach),
        are_home(found, reach),
    ensures
        tame(rehearsals_from(roots, found, tape), reach, tape),
        rehearsals_from(roots, found, tape) matches Run::Gives(all, after) ==> are_home(all, reach),
    decreases roots.len(),
{
    if roots.len() > 0 {
        let rest = roots.drop_first();
        assert(within(roots[0], reach));
        assert forall|i: int| 0 <= i < rest.len() implies within(#[trigger] rest[i], reach) by {
            assert(rest[i] == roots[i + 1]);
        }
        reading_a_rehearsal_is_tame(roots[0], reach);
        if let Run::Gives(rehearsal, after) = rehearsal_script(roots[0], tape) {
            match rehearsal {
                Some(sandbox) => {
                    worktrees_are_within(roots[0], reach);
                    reading_each_is_tame(rest, found.push(sandbox), reach, after);
                },
                None => reading_each_is_tame(rest, found, reach, after),
            }
        }
    }
}

proof fn searching_each_is_tame(
    dirs: Seq<Text>,
    wanted: Option<Text>,
    found: Seq<SandboxModel>,
    reach: Reach,
    tape: Tape,
)
    requires
        forall|i: int|
            0 <= i < dirs.len() && is_wanted(#[trigger] dirs[i], wanted) ==> within(dirs[i], reach),
        are_home(found, reach),
        lists_names(tape.log, reach),
    ensures
        tame(repositories_from(dirs, wanted, found, tape), reach, tape),
        repositories_from(dirs, wanted, found, tape) matches Run::Gives(all, after) ==> are_home(
            all,
            reach,
        ),
    decreases dirs.len(),
{
    if dirs.len() > 0 {
        let rest = dirs.drop_first();
        assert forall|i: int| 0 <= i < rest.len() && is_wanted(
            #[trigger] rest[i],
            wanted,
        ) implies within(rest[i], reach) by {
            assert(rest[i] == dirs[i + 1]);
        }
        searching_each_is_tame(rest, wanted, found, reach, tape);
        if is_wanted(dirs[0], wanted) {
            listing_directories_is_tame(dirs[0], reach, tape);
            if let Run::Gives(roots, listed) = subdirectories_script(dirs[0], tape) {
                entries_are_within(roots, dirs[0], reach);
                reading_each_is_tame(roots, found, reach, listed);
                if let Run::Gives(more, read) = rehearsals_from(roots, found, listed) {
                    searching_each_is_tame(rest, wanted, more, reach, read);
                }
            }
        }
    }
}

pub proof fn listing_is_tame(
    cache_root: Text,
    repo_id: Text,
    reach: Reach,
    tape: Tape,
)
    requires
        within(inside(cache_root, repo_id), reach),
        lists_names(tape.log, reach),
    ensures
        tame(store::list_script(cache_root, Some(repo_id), tape), reach, tape),
        store::list_script(cache_root, Some(repo_id), tape) matches Run::Gives(found, after) ==> are_home(
            found,
            reach,
        ),
{
    broadcast use vstd::seq_lib::group_to_multiset_ensures;

    reveal(store::list_script);
    listing_directories_is_tame(cache_root, reach, tape);
    if let Run::Gives(dirs, listed) = subdirectories_script(cache_root, tape) {
        let wanted = Some(repo_id);
        assert forall|i: int| 0 <= i < dirs.len() && is_wanted(
            #[trigger] dirs[i],
            wanted,
        ) implies within(dirs[i], reach) by {
            if !(reach is Anywhere) {
                assert(is_entry(dirs[i], cache_root));
            }
        }
        searching_each_is_tame(dirs, wanted, Seq::empty(), reach, listed);
        if let Run::Gives(found, after) = repositories_from(dirs, wanted, Seq::empty(), listed) {
            listings_are_by_age(found);
            let sorted = by_age(found);
            assert forall|i: int| 0 <= i < sorted.len() implies is_home(
                #[trigger] sorted[i],
                reach,
            ) by {
                assert(sorted.to_multiset().count(sorted[i]) > 0);
                let k = choose|k: int| 0 <= k < found.len() && found[k] == sorted[i];
                assert(is_home(found[k], reach));
            }
        }
    }
}

pub proof fn finding_is_tame(
    cache_root: Text,
    repo_id: Text,
    id: Option<Text>,
    reach: Reach,
    tape: Tape,
)
    requires
        within(inside(cache_root, repo_id), reach),
        lists_names(tape.log, reach),
    ensures
        tame(store::find_script(cache_root, repo_id, id, tape), reach, tape),
        store::find_script(cache_root, repo_id, id, tape) matches Run::Gives(sandbox, after) ==> is_home(
            sandbox,
            reach,
        ),
{
    reveal(store::find_script);
    listing_is_tame(cache_root, repo_id, reach, tape);
    if let Run::Gives(candidates, after) = store::list_script(cache_root, Some(repo_id), tape) {
        if let Ok(sandbox) = meant(candidates, id) {
            match id {
                Some(id) => {
                    an_id_means_one_rehearsal(candidates, id, sandbox);
                    let k = choose|k: int|
                        0 <= k < candidates.len() && candidates[k] == sandbox;
                    assert(is_home(candidates[k], reach));
                },
                None => {
                    assert(is_home(candidates[candidates.len() - 1], reach));
                },
            }
        }
    }
}

pub proof fn removing_is_tame(root: Text, reach: Reach)
    requires
        within(root, reach),
    ensures
        forall|tape: Tape| tame(#[trigger] remove_rehearsal_script(root, tape), reach, tape),
{
    reveal(remove_rehearsal_script);
}

proof fn judging_age_is_tame(root: Text, reach: Reach)
    requires
        within(root, reach),
    ensures
        forall|tape: Tape| tame(#[trigger] prunable_since_script(root, tape), reach, tape),
{
    git_is_tame(reach);
    files_are_tame(reach);
    reading_meta_is_tame(root, reach);
    reveal(is_recovery_reserved_script);
    reveal(directory_mtime_script);
    reveal(prunable_since_script);
}

proof fn pruning_each_is_tame(
    roots: Seq<Text>,
    now: u64,
    max_age: u64,
    removed: Seq<Text>,
    reach: Reach,
    tape: Tape,
)
    requires
        all_within(roots, reach),
    ensures
        tame(prune_from(roots, now, max_age, removed, tape), reach, tape),
    decreases roots.len(),
{
    if roots.len() > 0 {
        let rest = roots.drop_first();
        assert(within(roots[0], reach));
        assert forall|i: int| 0 <= i < rest.len() implies within(#[trigger] rest[i], reach) by {
            assert(rest[i] == roots[i + 1]);
        }
        judging_age_is_tame(roots[0], reach);
        removing_is_tame(roots[0], reach);
        if let Run::Gives(since, judged) = prunable_since_script(roots[0], tape) {
            pruning_each_is_tame(rest, now, max_age, removed, reach, judged);
            if let Run::Gives(gone, after) = remove_rehearsal_script(roots[0], judged) {
                let more = match file_name_of(roots[0]) {
                    Some(name) => removed.push(displayed(name)),
                    None => removed,
                };
                pruning_each_is_tame(rest, now, max_age, more, reach, after);
            }
        }
    }
}

proof fn pruning_repositories_is_tame(
    dirs: Seq<Text>,
    now: u64,
    max_age: u64,
    removed: Seq<Text>,
    reach: Reach,
    tape: Tape,
)
    requires
        all_within(dirs, reach),
        lists_names(tape.log, reach),
    ensures
        tame(prune_repositories_from(dirs, now, max_age, removed, tape), reach, tape),
    decreases dirs.len(),
{
    if dirs.len() > 0 {
        let rest = dirs.drop_first();
        assert(within(dirs[0], reach));
        assert forall|i: int| 0 <= i < rest.len() implies within(#[trigger] rest[i], reach) by {
            assert(rest[i] == dirs[i + 1]);
        }
        listing_directories_is_tame(dirs[0], reach, tape);
        if let Run::Gives(roots, listed) = subdirectories_script(dirs[0], tape) {
            entries_are_within(roots, dirs[0], reach);
            pruning_each_is_tame(roots, now, max_age, removed, reach, listed);
            if let Run::Gives(more, pruned) = prune_from(roots, now, max_age, removed, listed) {
                if 0 <= pruned.next < pruned.log.len() {
                    let after = further(pruned, Ask::RemoveDir(dirs[0]));
                    pruning_repositories_is_tame(rest, now, max_age, more, reach, after);
                }
            }
        }
    }
}

pub proof fn pruning_is_tame(
    cache_root: Text,
    now: u64,
    max_age: u64,
    reach: Reach,
    tape: Tape,
)
    requires
        within(cache_root, reach),
        lists_names(tape.log, reach),
    ensures
        tame(prune_script(cache_root, now, max_age, tape), reach, tape),
{
    reveal(prune_script);
    listing_directories_is_tame(cache_root, reach, tape);
    if let Run::Gives(dirs, listed) = subdirectories_script(cache_root, tape) {
        entries_are_within(dirs, cache_root, reach);
        pruning_repositories_is_tame(dirs, now, max_age, Seq::empty(), reach, listed);
    }
}

} // verus!
