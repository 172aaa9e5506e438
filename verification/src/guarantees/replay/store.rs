//! That making, finding and removing rehearsals can be run again.

use vstd::prelude::*;

use crate::carry::{self, CarryModel};
use crate::files::kind_script;
use crate::git;
use crate::guarantees::replay::{
    files_repeat, git_repeats, is_onward, origins_repeat, repeats, requests_repeat, spliced, whole,
    Splice,
};
use crate::paths::{displayed, file_name_of, inside};
use crate::sandbox::lifecycle::{
    build_script, carry_config_from, carry_merge_config_script, claim_from, clone_script,
    create_script, furnish_script, park_carry_script, promote_branches_script, rehearsal_id,
    strip_from, strip_remotes_script, write_merge_config_script,
};
use crate::sandbox::meta::{self, MetaModel};
use crate::sandbox::rerere;
use crate::sandbox::store::{
    self, directories_from, directory_mtime_script, is_recovery_reserved_script,
    prunable_since_script, prune_from, prune_repositories_from, prune_script, rehearsal_script,
    rehearsals_from, remove_rehearsal_script, repositories_from, subdirectories_script,
};
use crate::sandbox::{PlanModel, SandboxModel};
use crate::session::{further, Ask, HeardModel, Run, Tape};
use crate::text::Text;

verus! {

// ---------------------------------------------------------------------------
// Making a sandbox
// ---------------------------------------------------------------------------
pub proof fn metadata_repeats()
    ensures
        forall|meta: MetaModel, root: Text, tape: Tape|
            is_onward(#[trigger] meta::write_script(meta, root, tape), tape),
        forall|meta: MetaModel, root: Text, tape: Tape, splice: Splice|
            repeats(
                meta::write_script(meta, root, tape),
                #[trigger] meta::write_script(meta, root, spliced(tape, splice)),
                tape,
                splice,
            ),
        forall|root: Text, tape: Tape| is_onward(#[trigger] meta::read_script(root, tape), tape),
        forall|root: Text, tape: Tape, splice: Splice|
            repeats(
                meta::read_script(root, tape),
                #[trigger] meta::read_script(root, spliced(tape, splice)),
                tape,
                splice,
            ),
{
    requests_repeat();
    files_repeat();
    reveal(meta::read_document_script);
    reveal(meta::decode_script);
    reveal(meta::write_script);
    reveal(meta::read_script);
}

proof fn stripping_each_repeats(worktree: Text, remotes: Seq<Text>, tape: Tape, splice: Splice)
    ensures
        is_onward(strip_from(worktree, remotes, tape), tape),
        repeats(
            strip_from(worktree, remotes, tape),
            strip_from(worktree, remotes, spliced(tape, splice)),
            tape,
            splice,
        ),
    decreases remotes.len(),
{
    git_repeats();
    if remotes.len() > 0 {
        if let Run::Gives(output, after) = git::run_script(
            worktree,
            seq!["remote"@, "remove"@, remotes[0]],
            tape,
        ) {
            stripping_each_repeats(worktree, remotes.drop_first(), after, splice);
        }
    }
}

proof fn carrying_each_repeats(
    repo: Text,
    worktree: Text,
    keys: Seq<Text>,
    tape: Tape,
    splice: Splice,
)
    ensures
        is_onward(carry_config_from(repo, worktree, keys, tape), tape),
        repeats(
            carry_config_from(repo, worktree, keys, tape),
            carry_config_from(repo, worktree, keys, spliced(tape, splice)),
            tape,
            splice,
        ),
    decreases keys.len(),
{
    git_repeats();
    if keys.len() > 0 {
        let rest = keys.drop_first();
        match git::run_script(repo, seq!["config"@, "--get"@, keys[0]], tape) {
            Run::Gives(value, read) => {
                carrying_each_repeats(repo, worktree, rest, read, splice);
                if let Run::Gives(output, after) = git::run_script(
                    worktree,
                    seq!["config"@, keys[0], value],
                    read,
                ) {
                    carrying_each_repeats(repo, worktree, rest, after, splice);
                }
            },
            Run::Fails(fault, after) => {
                carrying_each_repeats(repo, worktree, rest, after, splice);
            },
            Run::Asks(..) => {},
        }
    }
}

proof fn claiming_repeats(repo_dir: Text, now: u64, attempt: int, tape: Tape, splice: Splice)
    ensures
        is_onward(claim_from(repo_dir, now, attempt, tape), tape),
        repeats(
            claim_from(repo_dir, now, attempt, tape),
            claim_from(repo_dir, now, attempt, spliced(tape, splice)),
            tape,
            splice,
        ),
    decreases 100 - attempt,
{
    requests_repeat();
    if attempt < 100 && 0 <= tape.next < tape.log.len() {
        let id = rehearsal_id(now, attempt as nat);
        let after = further(tape, Ask::CreateDir(inside(repo_dir, id)));
        claiming_repeats(repo_dir, now, attempt + 1, after, splice);
    }
}

proof fn copying_one_repeats()
    ensures
        forall|source: Text, destination: Text, tape: Tape|
            is_onward(#[trigger] rerere::entry_script(source, destination, tape), tape),
        forall|source: Text, destination: Text, tape: Tape, splice: Splice|
            repeats(
                rerere::entry_script(source, destination, tape),
                #[trigger] rerere::entry_script(source, destination, spliced(tape, splice)),
                tape,
                splice,
            ),
{
    files_repeat();
    reveal(rerere::entry_script);
}

proof fn copying_each_repeats(stack: Seq<(Text, Text)>, tape: Tape, splice: Splice)
    ensures
        is_onward(rerere::copy_from(stack, tape), tape),
        repeats(
            rerere::copy_from(stack, tape),
            rerere::copy_from(stack, spliced(tape, splice)),
            tape,
            splice,
        ),
    decreases tape.log.len() - tape.next,
{
    copying_one_repeats();
    if stack.len() > 0 {
        let (source, destination) = stack.last();
        rerere::entry_advances(source, destination, tape);
        if let Run::Gives(below, after) = rerere::entry_script(source, destination, tape) {
            copying_each_repeats(stack.drop_last() + below, after, splice);
        }
    }
}

proof fn cloning_repeats()
    ensures
        forall|root: Text, repo: Text, hooks: Text, tape: Tape|
            is_onward(#[trigger] clone_script(root, repo, hooks, tape), tape),
        forall|root: Text, repo: Text, hooks: Text, tape: Tape, splice: Splice|
            repeats(
                clone_script(root, repo, hooks, tape),
                #[trigger] clone_script(root, repo, hooks, spliced(tape, splice)),
                tape,
                splice,
            ),
        forall|worktree: Text, tape: Tape|
            is_onward(#[trigger] promote_branches_script(worktree, tape), tape),
        forall|worktree: Text, tape: Tape, splice: Splice|
            repeats(
                promote_branches_script(worktree, tape),
                #[trigger] promote_branches_script(worktree, spliced(tape, splice)),
                tape,
                splice,
            ),
        forall|worktree: Text, tape: Tape|
            is_onward(#[trigger] strip_remotes_script(worktree, tape), tape),
        forall|worktree: Text, tape: Tape, splice: Splice|
            repeats(
                strip_remotes_script(worktree, tape),
                #[trigger] strip_remotes_script(worktree, spliced(tape, splice)),
                tape,
                splice,
            ),
{
    git_repeats();
    files_repeat();
    reveal(clone_script);
    reveal(promote_branches_script);
    reveal(strip_remotes_script);
    assert forall|worktree: Text, remotes: Seq<Text>, tape: Tape| is_onward(
        #[trigger] strip_from(worktree, remotes, tape),
        tape,
    ) by {
        stripping_each_repeats(worktree, remotes, tape, whole(tape));
    }
    assert forall|worktree: Text, remotes: Seq<Text>, tape: Tape, splice: Splice| repeats(
        strip_from(worktree, remotes, tape),
        #[trigger] strip_from(worktree, remotes, spliced(tape, splice)),
        tape,
        splice,
    ) by {
        stripping_each_repeats(worktree, remotes, tape, splice);
    }
}

proof fn configuring_repeats()
    ensures
        forall|repo: Text, worktree: Text, keys: Seq<Text>, tape: Tape|
            is_onward(#[trigger] carry_config_from(repo, worktree, keys, tape), tape),
        forall|repo: Text, worktree: Text, keys: Seq<Text>, tape: Tape, splice: Splice|
            repeats(
                carry_config_from(repo, worktree, keys, tape),
                #[trigger] carry_config_from(repo, worktree, keys, spliced(tape, splice)),
                tape,
                splice,
            ),
        forall|repo: Text, worktree: Text, tape: Tape|
            is_onward(#[trigger] carry_merge_config_script(repo, worktree, tape), tape),
        forall|repo: Text, worktree: Text, tape: Tape, splice: Splice|
            repeats(
                carry_merge_config_script(repo, worktree, tape),
                #[trigger] carry_merge_config_script(repo, worktree, spliced(tape, splice)),
                tape,
                splice,
            ),
{
    requests_repeat();
    git_repeats();
    files_repeat();
    reveal(write_merge_config_script);
    reveal(carry_merge_config_script);
    assert forall|repo: Text, worktree: Text, keys: Seq<Text>, tape: Tape| is_onward(
        #[trigger] carry_config_from(repo, worktree, keys, tape),
        tape,
    ) by {
        carrying_each_repeats(repo, worktree, keys, tape, whole(tape));
    }
    assert forall|repo: Text, worktree: Text, keys: Seq<Text>, tape: Tape, splice: Splice| repeats(
        carry_config_from(repo, worktree, keys, tape),
        #[trigger] carry_config_from(repo, worktree, keys, spliced(tape, splice)),
        tape,
        splice,
    ) by {
        carrying_each_repeats(repo, worktree, keys, tape, splice);
    }
}

proof fn bringing_repeats()
    ensures
        forall|repo: Text, worktree: Text, carry: Option<CarryModel>, tape: Tape|
            is_onward(#[trigger] park_carry_script(repo, worktree, carry, tape), tape),
        forall|repo: Text, worktree: Text, carry: Option<CarryModel>, tape: Tape, splice: Splice|
            repeats(
                park_carry_script(repo, worktree, carry, tape),
                #[trigger] park_carry_script(repo, worktree, carry, spliced(tape, splice)),
                tape,
                splice,
            ),
        forall|repo: Text, worktree: Text, tape: Tape|
            is_onward(#[trigger] rerere::copy_script(repo, worktree, tape), tape),
        forall|repo: Text, worktree: Text, tape: Tape, splice: Splice|
            repeats(
                rerere::copy_script(repo, worktree, tape),
                #[trigger] rerere::copy_script(repo, worktree, spliced(tape, splice)),
                tape,
                splice,
            ),
{
    git_repeats();
    files_repeat();
    origins_repeat();
    reveal(carry::park_script);
    reveal(park_carry_script);
    reveal(rerere::copy_script);
    assert forall|stack: Seq<(Text, Text)>, tape: Tape| is_onward(
        #[trigger] rerere::copy_from(stack, tape),
        tape,
    ) by {
        copying_each_repeats(stack, tape, whole(tape));
    }
    assert forall|stack: Seq<(Text, Text)>, tape: Tape, splice: Splice| repeats(
        rerere::copy_from(stack, tape),
        #[trigger] rerere::copy_from(stack, spliced(tape, splice)),
        tape,
        splice,
    ) by {
        copying_each_repeats(stack, tape, splice);
    }
}

proof fn furnishing_repeats()
    ensures
        forall|root: Text, plan: PlanModel, tape: Tape|
            is_onward(#[trigger] furnish_script(root, plan, tape), tape),
        forall|root: Text, plan: PlanModel, tape: Tape, splice: Splice|
            repeats(
                furnish_script(root, plan, tape),
                #[trigger] furnish_script(root, plan, spliced(tape, splice)),
                tape,
                splice,
            ),
{
    git_repeats();
    files_repeat();
    cloning_repeats();
    configuring_repeats();
    bringing_repeats();
    reveal(furnish_script);
}

pub proof fn creating_repeats()
    ensures
        forall|cache_root: Text, plan: PlanModel, now: u64, tape: Tape|
            is_onward(#[trigger] create_script(cache_root, plan, now, tape), tape),
        forall|cache_root: Text, plan: PlanModel, now: u64, tape: Tape, splice: Splice|
            repeats(
                create_script(cache_root, plan, now, tape),
                #[trigger] create_script(cache_root, plan, now, spliced(tape, splice)),
                tape,
                splice,
            ),
{
    requests_repeat();
    git_repeats();
    files_repeat();
    metadata_repeats();
    origins_repeat();
    cloning_repeats();
    furnishing_repeats();
    reveal(build_script);
    reveal(create_script);
    assert forall|repo_dir: Text, now: u64, attempt: int, tape: Tape| is_onward(
        #[trigger] claim_from(repo_dir, now, attempt, tape),
        tape,
    ) by {
        claiming_repeats(repo_dir, now, attempt, tape, whole(tape));
    }
    assert forall|repo_dir: Text, now: u64, attempt: int, tape: Tape, splice: Splice| repeats(
        claim_from(repo_dir, now, attempt, tape),
        #[trigger] claim_from(repo_dir, now, attempt, spliced(tape, splice)),
        tape,
        splice,
    ) by {
        claiming_repeats(repo_dir, now, attempt, tape, splice);
    }
}

// ---------------------------------------------------------------------------
// Finding and removing
// ---------------------------------------------------------------------------
proof fn looking_at_each_repeats(
    dir: Text,
    names: Seq<Text>,
    done: Seq<Text>,
    tape: Tape,
    splice: Splice,
)
    ensures
        is_onward(directories_from(dir, names, done, tape), tape),
        repeats(
            directories_from(dir, names, done, tape),
            directories_from(dir, names, done, spliced(tape, splice)),
            tape,
            splice,
        ),
    decreases names.len(),
{
    files_repeat();
    if names.len() > 0 {
        let rest = names.drop_first();
        if let Run::Gives(HeardModel::Got(kind), after) = kind_script(inside(dir, names[0]), tape) {
            looking_at_each_repeats(dir, rest, done, after, splice);
            looking_at_each_repeats(dir, rest, done.push(inside(dir, names[0])), after, splice);
        }
    }
}

pub proof fn looking_repeats()
    ensures
        forall|dir: Text, tape: Tape| is_onward(#[trigger] subdirectories_script(dir, tape), tape),
        forall|dir: Text, tape: Tape, splice: Splice|
            repeats(
                subdirectories_script(dir, tape),
                #[trigger] subdirectories_script(dir, spliced(tape, splice)),
                tape,
                splice,
            ),
        forall|root: Text, tape: Tape| is_onward(#[trigger] rehearsal_script(root, tape), tape),
        forall|root: Text, tape: Tape, splice: Splice|
            repeats(
                rehearsal_script(root, tape),
                #[trigger] rehearsal_script(root, spliced(tape, splice)),
                tape,
                splice,
            ),
        forall|root: Text, tape: Tape|
            is_onward(#[trigger] prunable_since_script(root, tape), tape),
        forall|root: Text, tape: Tape, splice: Splice|
            repeats(
                prunable_since_script(root, tape),
                #[trigger] prunable_since_script(root, spliced(tape, splice)),
                tape,
                splice,
            ),
        forall|root: Text, tape: Tape|
            is_onward(#[trigger] remove_rehearsal_script(root, tape), tape),
        forall|root: Text, tape: Tape, splice: Splice|
            repeats(
                remove_rehearsal_script(root, tape),
                #[trigger] remove_rehearsal_script(root, spliced(tape, splice)),
                tape,
                splice,
            ),
{
    requests_repeat();
    git_repeats();
    files_repeat();
    metadata_repeats();
    reveal(is_recovery_reserved_script);
    reveal(directory_mtime_script);
    reveal(subdirectories_script);
    reveal(rehearsal_script);
    reveal(prunable_since_script);
    reveal(remove_rehearsal_script);
    assert forall|dir: Text, names: Seq<Text>, done: Seq<Text>, tape: Tape| is_onward(
        #[trigger] directories_from(dir, names, done, tape),
        tape,
    ) by {
        looking_at_each_repeats(dir, names, done, tape, whole(tape));
    }
    assert forall|dir: Text, names: Seq<Text>, done: Seq<Text>, tape: Tape, splice: Splice| repeats(
        directories_from(dir, names, done, tape),
        #[trigger] directories_from(dir, names, done, spliced(tape, splice)),
        tape,
        splice,
    ) by {
        looking_at_each_repeats(dir, names, done, tape, splice);
    }
}

proof fn reading_each_repeats(
    roots: Seq<Text>,
    found: Seq<SandboxModel>,
    tape: Tape,
    splice: Splice,
)
    ensures
        is_onward(rehearsals_from(roots, found, tape), tape),
        repeats(
            rehearsals_from(roots, found, tape),
            rehearsals_from(roots, found, spliced(tape, splice)),
            tape,
            splice,
        ),
    decreases roots.len(),
{
    looking_repeats();
    if roots.len() > 0 {
        if let Run::Gives(rehearsal, after) = rehearsal_script(roots[0], tape) {
            let more = match rehearsal {
                Some(sandbox) => found.push(sandbox),
                None => found,
            };
            reading_each_repeats(roots.drop_first(), more, after, splice);
        }
    }
}

proof fn searching_each_repeats(
    dirs: Seq<Text>,
    wanted: Option<Text>,
    found: Seq<SandboxModel>,
    tape: Tape,
    splice: Splice,
)
    ensures
        is_onward(repositories_from(dirs, wanted, found, tape), tape),
        repeats(
            repositories_from(dirs, wanted, found, tape),
            repositories_from(dirs, wanted, found, spliced(tape, splice)),
            tape,
            splice,
        ),
    decreases dirs.len(),
{
    looking_repeats();
    if dirs.len() > 0 {
        let rest = dirs.drop_first();
        searching_each_repeats(rest, wanted, found, tape, splice);
        if let Run::Gives(roots, listed) = subdirectories_script(dirs[0], tape) {
            reading_each_repeats(roots, found, listed, splice);
            if let Run::Gives(more, read) = rehearsals_from(roots, found, listed) {
                searching_each_repeats(rest, wanted, more, read, splice);
            }
        }
    }
}

proof fn pruning_each_repeats(
    roots: Seq<Text>,
    now: u64,
    max_age: u64,
    removed: Seq<Text>,
    tape: Tape,
    splice: Splice,
)
    ensures
        is_onward(prune_from(roots, now, max_age, removed, tape), tape),
        repeats(
            prune_from(roots, now, max_age, removed, tape),
            prune_from(roots, now, max_age, removed, spliced(tape, splice)),
            tape,
            splice,
        ),
    decreases roots.len(),
{
    looking_repeats();
    if roots.len() > 0 {
        let rest = roots.drop_first();
        if let Run::Gives(since, judged) = prunable_since_script(roots[0], tape) {
            pruning_each_repeats(rest, now, max_age, removed, judged, splice);
            if let Run::Gives(gone, after) = remove_rehearsal_script(roots[0], judged) {
                let more = match file_name_of(roots[0]) {
                    Some(name) => removed.push(displayed(name)),
                    None => removed,
                };
                pruning_each_repeats(rest, now, max_age, more, after, splice);
            }
        }
    }
}

proof fn pruning_repositories_repeats(
    dirs: Seq<Text>,
    now: u64,
    max_age: u64,
    removed: Seq<Text>,
    tape: Tape,
    splice: Splice,
)
    ensures
        is_onward(prune_repositories_from(dirs, now, max_age, removed, tape), tape),
        repeats(
            prune_repositories_from(dirs, now, max_age, removed, tape),
            prune_repositories_from(dirs, now, max_age, removed, spliced(tape, splice)),
            tape,
            splice,
        ),
    decreases dirs.len(),
{
    requests_repeat();
    looking_repeats();
    if dirs.len() > 0 {
        let rest = dirs.drop_first();
        if let Run::Gives(roots, listed) = subdirectories_script(dirs[0], tape) {
            pruning_each_repeats(roots, now, max_age, removed, listed, splice);
            if let Run::Gives(more, pruned) = prune_from(roots, now, max_age, removed, listed) {
                if 0 <= pruned.next < pruned.log.len() {
                    let after = further(pruned, Ask::RemoveDir(dirs[0]));
                    pruning_repositories_repeats(rest, now, max_age, more, after, splice);
                }
            }
        }
    }
}

pub proof fn finding_repeats()
    ensures
        forall|cache_root: Text, repo_id: Option<Text>, tape: Tape|
            is_onward(#[trigger] store::list_script(cache_root, repo_id, tape), tape),
        forall|cache_root: Text, repo_id: Option<Text>, tape: Tape, splice: Splice|
            repeats(
                store::list_script(cache_root, repo_id, tape),
                #[trigger] store::list_script(cache_root, repo_id, spliced(tape, splice)),
                tape,
                splice,
            ),
        forall|cache_root: Text, repo_id: Text, id: Option<Text>, tape: Tape|
            is_onward(#[trigger] store::find_script(cache_root, repo_id, id, tape), tape),
        forall|cache_root: Text, repo_id: Text, id: Option<Text>, tape: Tape, splice: Splice|
            repeats(
                store::find_script(cache_root, repo_id, id, tape),
                #[trigger] store::find_script(cache_root, repo_id, id, spliced(tape, splice)),
                tape,
                splice,
            ),
{
    looking_repeats();
    reveal(store::list_script);
    reveal(store::find_script);
    assert forall|
        dirs: Seq<Text>,
        wanted: Option<Text>,
        found: Seq<SandboxModel>,
        tape: Tape,
    | is_onward(
        #[trigger] repositories_from(dirs, wanted, found, tape),
        tape,
    ) by {
        searching_each_repeats(dirs, wanted, found, tape, whole(tape));
    }
    assert forall|
        dirs: Seq<Text>,
        wanted: Option<Text>,
        found: Seq<SandboxModel>,
        tape: Tape,
        splice: Splice,
    | repeats(
        repositories_from(dirs, wanted, found, tape),
        #[trigger] repositories_from(dirs, wanted, found, spliced(tape, splice)),
        tape,
        splice,
    ) by {
        searching_each_repeats(dirs, wanted, found, tape, splice);
    }
}

pub proof fn pruning_repeats()
    ensures
        forall|cache_root: Text, now: u64, max_age: u64, tape: Tape|
            is_onward(#[trigger] prune_script(cache_root, now, max_age, tape), tape),
        forall|cache_root: Text, now: u64, max_age: u64, tape: Tape, splice: Splice|
            repeats(
                prune_script(cache_root, now, max_age, tape),
                #[trigger] prune_script(cache_root, now, max_age, spliced(tape, splice)),
                tape,
                splice,
            ),
{
    looking_repeats();
    reveal(prune_script);
    assert forall|
        dirs: Seq<Text>,
        now: u64,
        max_age: u64,
        removed: Seq<Text>,
        tape: Tape,
    | is_onward(
        #[trigger] prune_repositories_from(dirs, now, max_age, removed, tape),
        tape,
    ) by {
        pruning_repositories_repeats(dirs, now, max_age, removed, tape, whole(tape));
    }
    assert forall|
        dirs: Seq<Text>,
        now: u64,
        max_age: u64,
        removed: Seq<Text>,
        tape: Tape,
        splice: Splice,
    | repeats(
        prune_repositories_from(dirs, now, max_age, removed, tape),
        #[trigger] prune_repositories_from(dirs, now, max_age, removed, spliced(tape, splice)),
        tape,
        splice,
    ) by {
        pruning_repositories_repeats(dirs, now, max_age, removed, tape, splice);
    }
}

} // verus!
