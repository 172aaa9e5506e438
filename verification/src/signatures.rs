//! Signature presence on the actual result objects. No verifier is invoked: an
//! embedded signature is not evidence of validity or trust.

use vstd::prelude::*;

use crate::analyze::{RefMove, RefMoveModel};
use crate::compose::{args2, args3, cat2};
use crate::git;
use crate::order::{place, place_all, placed, placed_all};
use crate::parts::{bytes_start_with, lines, lines_of, pieces, split_bytes};
use crate::session::{ran, Run, Session, Stop, Tape};
use crate::text::{bytes_of, put, Text};

verus! {

/// One inspected commit object.
#[derive(Debug, PartialEq, Eq)]
pub struct Signature {
    pub sha: String,
    pub present: bool,
}

/// The model of a [`Signature`].
pub struct SignatureModel {
    pub sha: Text,
    pub present: bool,
}

impl DeepView for Signature {
    type V = SignatureModel;

    open spec fn deep_view(&self) -> SignatureModel {
        SignatureModel { sha: self.sha@, present: self.present }
    }
}

/// Whether a header line carries a signature.
pub open spec fn signs(line: Seq<u8>) -> bool {
    vstd::utf8::encode_utf8("gpgsig "@).is_prefix_of(line) || vstd::utf8::encode_utf8(
        "gpgsig-sha256 "@,
    ).is_prefix_of(line)
}

/// Whether the lines hold a signature before the first empty one, where the
/// headers end.
pub open spec fn signed_above(lines: Seq<Seq<u8>>) -> bool {
    exists|i: int|
        #![trigger lines[i]]
        0 <= i < lines.len() && signs(lines[i]) && forall|j: int|
            0 <= j <= i ==> (#[trigger] lines[j]).len() > 0
}

/// Whether a commit object has a signature in its headers.
pub fn has_signature(object: &Vec<u8>) -> (present: bool)
    ensures
        present == signed_above(pieces(object@, 10u8)),
{
    let found = split_bytes(object, 10);
    let plain = bytes_of("gpgsig ");
    let long = bytes_of("gpgsig-sha256 ");
    let ghost all = found.deep_view();
    let mut i: usize = 0;
    while i < found.len()
        invariant
            i <= found@.len(),
            all == found.deep_view(),
            all == pieces(object@, 10u8),
            plain@ == vstd::utf8::encode_utf8("gpgsig "@),
            long@ == vstd::utf8::encode_utf8("gpgsig-sha256 "@),
            forall|j: int| 0 <= j < i ==> (#[trigger] all[j]).len() > 0 && !signs(all[j]),
        decreases found@.len() - i,
    {
        assert(all[i as int] =~= found[i as int]@);
        if found[i].len() == 0 {
            return false;
        }
        if bytes_start_with(&found[i], &plain) || bytes_start_with(&found[i], &long) {
            assert(signs(all[i as int]));
            return true;
        }
        i = i + 1;
    }
    false
}

/// The arguments that list the commits which a move brings in: those reachable
/// from where the ref points now and not from where it pointed before.
pub open spec fn range_args(before: Option<Text>, after: Text) -> Seq<Text> {
    match before {
        Some(before) => seq!["rev-list"@, after].push("^"@ + before).push("--"@),
        None => seq!["rev-list"@, after].push("--"@),
    }
}

/// The commits of `moves`, among those `found`: the resulting tip even of a
/// backward move, and everything that the move brings in.
pub open spec fn commits_from(
    worktree: Text,
    moves: Seq<RefMoveModel>,
    found: Seq<Text>,
    tape: Tape,
) -> Run<Seq<Text>>
    decreases moves.len(),
{
    if moves.len() == 0 {
        Run::Gives(found, tape)
    } else {
        match moves[0].after {
            None => commits_from(worktree, moves.drop_first(), found, tape),
            Some(after) => git::run_script(
                worktree,
                range_args(moves[0].before, after),
                tape,
            ).and_then(
                |listing: Text, tape: Tape|
                    commits_from(
                        worktree,
                        moves.drop_first(),
                        placed_all(placed(found, after), lines_of(listing)),
                        tape,
                    ),
            ),
        }
    }
}

/// Inspects each of `commits`, after those in `done`.
pub open spec fn inspect_from(
    worktree: Text,
    commits: Seq<Text>,
    done: Seq<SignatureModel>,
    tape: Tape,
) -> Run<Seq<SignatureModel>>
    decreases commits.len(),
{
    if commits.len() == 0 {
        Run::Gives(done, tape)
    } else {
        git::run_bytes_script(worktree, seq!["cat-file"@, "commit"@, commits[0]], tape).and_then(
            |object: Seq<u8>, tape: Tape|
                inspect_from(
                    worktree,
                    commits.drop_first(),
                    done.push(
                        SignatureModel {
                            sha: commits[0],
                            present: signed_above(pieces(object, 10u8)),
                        },
                    ),
                    tape,
                ),
        )
    }
}

/// The signatures of every commit that the moves bring in, each commit once.
#[verifier::opaque]
pub open spec fn inspect_script(
    worktree: Text,
    moves: Seq<RefMoveModel>,
    tape: Tape,
) -> Run<Seq<SignatureModel>> {
    commits_from(worktree, moves, Seq::empty(), tape).and_then(
        |commits: Seq<Text>, tape: Tape| inspect_from(worktree, commits, Seq::empty(), tape),
    )
}

fn commits(session: &mut Session, worktree: &str, moves: &Vec<RefMove>) -> (outcome: Result<
    Vec<String>,
    Stop,
>)
    ensures
        ran(outcome, final(session)@) == commits_from(
            worktree@,
            moves.deep_view(),
            Seq::empty(),
            old(session)@,
        ),
{
    let ghost all = moves.deep_view();
    let mut found: Vec<String> = Vec::new();
    let mut i: usize = 0;
    assert(all.skip(0) =~= all);
    assert(found.deep_view() =~= Seq::empty());
    while i < moves.len()
        invariant
            i <= moves@.len(),
            all == moves.deep_view(),
            commits_from(worktree@, all, Seq::empty(), old(session)@) == commits_from(
                worktree@,
                all.skip(i as int),
                found.deep_view(),
                session@,
            ),
        decreases moves@.len() - i,
    {
        assert(all.skip(i as int).drop_first() =~= all.skip(i + 1));
        let moved = &moves[i];
        assert(all.skip(i as int)[0] == moved.deep_view());
        if let Some(after) = &moved.after {
            place(&mut found, after.clone());
            let mut args = args2("rev-list", after);
            if let Some(before) = &moved.before {
                put(&mut args, cat2("^", before));
            }
            put(&mut args, "--".to_owned());
            let listing = git::run(session, worktree, args)?;
            place_all(&mut found, &lines(&listing));
        }
        i = i + 1;
    }
    Ok(found)
}

/// The signatures of every commit that the moves bring in, each commit once.
pub fn inspect(session: &mut Session, worktree: &str, moves: &Vec<RefMove>) -> (outcome: Result<
    Vec<Signature>,
    Stop,
>)
    ensures
        ran(outcome, final(session)@) == inspect_script(
            worktree@,
            moves.deep_view(),
            old(session)@,
        ),
{
    proof {
        reveal(inspect_script);
    }
    let commits = commits(session, worktree, moves)?;
    let ghost all = commits.deep_view();
    let mut done: Vec<Signature> = Vec::new();
    let mut i: usize = 0;
    assert(all.skip(0) =~= all);
    assert(done.deep_view() =~= Seq::empty());
    while i < commits.len()
        invariant
            i <= commits@.len(),
            all == commits.deep_view(),
            inspect_script(worktree@, moves.deep_view(), old(session)@) == inspect_from(
                worktree@,
                all.skip(i as int),
                done.deep_view(),
                session@,
            ),
        decreases commits@.len() - i,
    {
        assert(all.skip(i as int).drop_first() =~= all.skip(i + 1));
        let sha = &commits[i];
        assert(all.skip(i as int)[0] == sha@);
        let object = git::run_bytes(session, worktree, args3("cat-file", "commit", sha))?;
        assert(object.deep_view() =~= object@);
        put(&mut done, Signature { sha: sha.clone(), present: has_signature(&object) });
        i = i + 1;
    }
    Ok(done)
}

} // verus!
