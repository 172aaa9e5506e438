//! That looking for collisions runs git on a copy and nothing on the terminal.

use vstd::prelude::*;

use crate::collision::walk::{
    act_script, clear_from, clear_worktree_script, copy_entry_advances, copy_entry_script,
    copy_from, copy_link_script, copy_worktree_script, empty_directories_script, empty_from,
    entries_of, files_from, ignore_entry_advances, ignore_entry_script, ignore_from,
    make_dir_script, removal, remove_existing_script, remove_ignore_file_script,
    remove_ignore_files_script, worktree_file_script, worktree_files_script, EntryModel,
    FileStateModel,
};
use crate::collision::{
    attempt_script, build_probe_script, check_operation_script, copy_index_script,
    copy_setting_script, copy_sparse_config_script, directory_gone_script, file_changed_script,
    git_path_script, git_path_with_env_script, make_parent_script, probe_script, shared_from,
    subject_script, tracked_paths_script, Operation,
};
use crate::files::{do_script, leads_to_script};
use crate::guarantees::asking::is_silent;
use crate::guarantees::transplant::{files_are_files, git_is_captured, is_transplant};
use crate::paths::inside;
use crate::session::{further, Answer, Ask, Kind, Run, Tape};
use crate::text::Text;

verus! {

proof fn reading_files_is_transplant(
    stack: Seq<Text>,
    done: Seq<(Text, FileStateModel)>,
    about: Text,
    tape: Tape,
)
    ensures
        is_transplant(files_from(stack, done, about, tape)),
    decreases tape.log.len() - tape.next,
{
    if stack.len() > 0 && 0 <= tape.next < tape.log.len() {
        let path = stack.last();
        let rest = stack.drop_last();
        let looked = further(tape, Ask::Kind(path));
        if 0 <= looked.next < looked.log.len() {
            match looked.log[looked.next] {
                Answer::Names(names) => {
                    reading_files_is_transplant(
                        rest + entries_of(path, names, true),
                        done,
                        about,
                        further(looked, Ask::List(path)),
                    );
                },
                Answer::Text(target) => {
                    reading_files_is_transplant(
                        rest,
                        done.push((path, FileStateModel::Symlink(target))),
                        about,
                        further(looked, Ask::ReadLink(path)),
                    );
                },
                Answer::Bytes(bytes) => {
                    reading_files_is_transplant(
                        rest,
                        done.push((path, FileStateModel::File(bytes))),
                        about,
                        further(looked, Ask::ReadBytes(path)),
                    );
                },
                _ => {},
            }
        }
    }
}

proof fn finding_empty_is_transplant(
    stack: Seq<Text>,
    done: Seq<Text>,
    about: Text,
    tape: Tape,
)
    ensures
        is_transplant(empty_from(stack, done, about, tape)),
    decreases tape.log.len() - tape.next,
{
    if stack.len() > 0 && 0 <= tape.next < tape.log.len() {
        let path = stack.last();
        let rest = stack.drop_last();
        let looked = further(tape, Ask::Kind(path));
        finding_empty_is_transplant(rest, done, about, looked);
        if 0 <= looked.next < looked.log.len() {
            let read = further(looked, Ask::List(path));
            if let Answer::Names(names) = looked.log[looked.next] {
                finding_empty_is_transplant(rest, done.push(path), about, read);
                finding_empty_is_transplant(rest, done, about, read);
                finding_empty_is_transplant(
                    rest + entries_of(path, names, false),
                    done,
                    about,
                    read,
                );
            }
        }
    }
}

proof fn acting_is_transplant()
    ensures
        forall|ask: Ask, about: Text, tape: Tape|
            is_silent(ask) && !(ask is Spawn) ==> is_transplant(
                #[trigger] act_script(ask, about, tape),
            ),
{
    reveal(act_script);
}

proof fn clearing_is_transplant(stack: Seq<Text>, about: Text, tape: Tape)
    ensures
        is_transplant(clear_from(stack, about, tape)),
    decreases stack.len(),
{
    acting_is_transplant();
    if stack.len() > 0 && 0 <= tape.next < tape.log.len() {
        let path = stack.last();
        let looked = further(tape, Ask::Kind(path));
        if let Answer::Kind(kind) = tape.log[tape.next] {
            if let Run::Gives(removed, after) = act_script(removal(path, kind), about, looked) {
                clearing_is_transplant(stack.drop_last(), about, after);
            }
        }
    }
}

proof fn copying_one_is_transplant()
    ensures
        forall|from: Text, to: Text, about: Text, tape: Tape|
            is_transplant(#[trigger] copy_entry_script(from, to, about, tape)),
{
    acting_is_transplant();
    reveal(remove_existing_script);
    reveal(make_dir_script);
    reveal(copy_link_script);
    reveal(copy_entry_script);
}

proof fn copying_is_transplant(stack: Seq<(Text, Text)>, about: Text, tape: Tape)
    ensures
        is_transplant(copy_from(stack, about, tape)),
    decreases tape.log.len() - tape.next,
{
    copying_one_is_transplant();
    if stack.len() > 0 {
        let (from, to) = stack.last();
        copy_entry_advances(from, to, about, tape);
        if let Run::Gives(below, after) = copy_entry_script(from, to, about, tape) {
            copying_is_transplant(stack.drop_last() + below, about, after);
        }
    }
}

proof fn ignoring_one_is_transplant()
    ensures
        forall|entry: EntryModel, repo: Text, rehearsed: Text, target: Text, tape: Tape|
            is_transplant(#[trigger] ignore_entry_script(entry, repo, rehearsed, target, tape)),
{
    acting_is_transplant();
    git_is_captured();
    reveal(remove_ignore_file_script);
    reveal(ignore_entry_script);
}

proof fn ignoring_is_transplant(
    stack: Seq<EntryModel>,
    repo: Text,
    rehearsed: Text,
    target: Text,
    tape: Tape,
)
    ensures
        is_transplant(ignore_from(stack, repo, rehearsed, target, tape)),
    decreases tape.log.len() - tape.next,
{
    ignoring_one_is_transplant();
    if stack.len() > 0 {
        ignore_entry_advances(stack.last(), repo, rehearsed, target, tape);
        if let Run::Gives(below, after) = ignore_entry_script(
            stack.last(),
            repo,
            rehearsed,
            target,
            tape,
        ) {
            ignoring_is_transplant(stack.drop_last() + below, repo, rehearsed, target, after);
        }
    }
}

proof fn walking_is_transplant()
    ensures
        forall|root: Text, tape: Tape|
            is_transplant(#[trigger] worktree_files_script(root, tape)),
        forall|path: Text, tape: Tape| is_transplant(#[trigger] worktree_file_script(path, tape)),
        forall|root: Text, tape: Tape|
            is_transplant(#[trigger] empty_directories_script(root, tape)),
        forall|root: Text, tape: Tape|
            is_transplant(#[trigger] clear_worktree_script(root, tape)),
        forall|source: Text, destination: Text, tape: Tape|
            is_transplant(#[trigger] copy_worktree_script(source, destination, tape)),
        forall|root: Text, repo: Text, rehearsed: Text, target: Text, tape: Tape|
            is_transplant(
                #[trigger] remove_ignore_files_script(root, repo, rehearsed, target, tape),
            ),
{
    reveal(worktree_files_script);
    reveal(worktree_file_script);
    reveal(empty_directories_script);
    reveal(clear_worktree_script);
    reveal(copy_worktree_script);
    reveal(remove_ignore_files_script);
    assert forall|stack: Seq<Text>, done: Seq<(Text, FileStateModel)>, about: Text, tape: Tape|
        is_transplant(#[trigger] files_from(stack, done, about, tape)) by {
        reading_files_is_transplant(stack, done, about, tape);
    }
    assert forall|stack: Seq<Text>, done: Seq<Text>, about: Text, tape: Tape| is_transplant(
        #[trigger] empty_from(stack, done, about, tape),
    ) by {
        finding_empty_is_transplant(stack, done, about, tape);
    }
    assert forall|stack: Seq<Text>, about: Text, tape: Tape| is_transplant(
        #[trigger] clear_from(stack, about, tape),
    ) by {
        clearing_is_transplant(stack, about, tape);
    }
    assert forall|stack: Seq<(Text, Text)>, about: Text, tape: Tape| is_transplant(
        #[trigger] copy_from(stack, about, tape),
    ) by {
        copying_is_transplant(stack, about, tape);
    }
    assert forall|
        stack: Seq<EntryModel>,
        repo: Text,
        rehearsed: Text,
        target: Text,
        tape: Tape,
    | is_transplant(#[trigger] ignore_from(stack, repo, rehearsed, target, tape)) by {
        ignoring_is_transplant(stack, repo, rehearsed, target, tape);
    }
}

proof fn sharing_is_transplant(from: Text, to: Text, names: Seq<Text>, tape: Tape)
    ensures
        is_transplant(shared_from(from, to, names, tape)),
    decreases names.len(),
{
    files_are_files();
    if names.len() > 0 {
        let rest = names.drop_first();
        sharing_is_transplant(from, to, rest, tape);
        let copy = Ask::Copy(inside(from, names[0]), inside(to, names[0]));
        if let Run::Gives(copied, after) = do_script(copy, inside(to, names[0]), tape) {
            sharing_is_transplant(from, to, rest, after);
        }
    }
}

proof fn missing_directories_is_transplant(paths: Seq<Text>, tape: Tape)
    ensures
        is_transplant(directory_gone_script(paths, tape)),
    decreases paths.len(),
{
    files_are_files();
    if paths.len() > 0 {
        if let Run::Gives(there, after) = leads_to_script(paths[0], Kind::Directory, tape) {
            missing_directories_is_transplant(paths.drop_first(), after);
        }
    }
}

proof fn comparing_files_is_transplant(
    files: Seq<(Text, FileStateModel)>,
    known: Seq<Text>,
    probe: Text,
    tape: Tape,
)
    ensures
        is_transplant(file_changed_script(files, known, probe, tape)),
    decreases files.len(),
{
    walking_is_transplant();
    if files.len() > 0 {
        let rest = files.drop_first();
        comparing_files_is_transplant(rest, known, probe, tape);
        if let Run::Gives(state, after) = worktree_file_script(files[0].0, tape) {
            comparing_files_is_transplant(rest, known, probe, after);
        }
    }
}

proof fn configuring_is_transplant()
    ensures
        forall|source: Text, destination: Text, tape: Tape|
            is_transplant(#[trigger] copy_index_script(source, destination, tape)),
        forall|repo: Text, probe: Text, env: Seq<(Text, Text)>, tape: Tape|
            is_transplant(#[trigger] copy_sparse_config_script(repo, probe, env, tape)),
        forall|repo: Text, rehearsed: Text, target: Text, tape: Tape|
            is_transplant(#[trigger] subject_script(repo, rehearsed, target, tape)),
        forall|probe: Text, name: Text, env: Seq<(Text, Text)>, tape: Tape|
            is_transplant(#[trigger] git_path_with_env_script(probe, name, env, tape)),
{
    git_is_captured();
    files_are_files();
    reveal(git_path_script);
    reveal(git_path_with_env_script);
    reveal(copy_index_script);
    reveal(copy_setting_script);
    reveal(make_parent_script);
    reveal(copy_sparse_config_script);
    reveal(subject_script);
    assert forall|from: Text, to: Text, names: Seq<Text>, tape: Tape| is_transplant(
        #[trigger] shared_from(from, to, names, tape),
    ) by {
        sharing_is_transplant(from, to, names, tape);
    }
}

proof fn attempting_is_transplant()
    ensures
        forall|
            probe: Text,
            target: Text,
            operation: Operation,
            env: Seq<(Text, Text)>,
            tape: Tape,
        |
            is_transplant(#[trigger] attempt_script(probe, target, operation, env, tape)),
{
    git_is_captured();
    walking_is_transplant();
    reveal(tracked_paths_script);
    reveal(attempt_script);
    assert forall|paths: Seq<Text>, tape: Tape| is_transplant(
        #[trigger] directory_gone_script(paths, tape),
    ) by {
        missing_directories_is_transplant(paths, tape);
    }
    assert forall|
        files: Seq<(Text, FileStateModel)>,
        known: Seq<Text>,
        probe: Text,
        tape: Tape,
    | is_transplant(#[trigger] file_changed_script(files, known, probe, tape)) by {
        comparing_files_is_transplant(files, known, probe, tape);
    }
}

/// Looking for collisions runs git on a copy and nothing on the terminal.
pub proof fn probing_is_transplant()
    ensures
        forall|repo: Text, rehearsed: Text, target: Text, operation: Operation, tape: Tape|
            is_transplant(
                #[trigger] check_operation_script(repo, rehearsed, target, operation, tape),
            ),
{
    git_is_captured();
    files_are_files();
    walking_is_transplant();
    configuring_is_transplant();
    attempting_is_transplant();
    reveal(build_probe_script);
    reveal(probe_script);
    reveal(check_operation_script);
}

} // verus!
