//! The record of what one apply did, as it is written and read.
//!
//! Every line that is not a comment or a header field is a complete `git
//! update-ref` argument list, so one ref can be put back by hand with a copy and
//! a paste. `HEAD` is not in it: it follows whichever branch is checked out, and
//! updating it directly would detach it.

use vstd::prelude::*;

use crate::analyze::{RefMove, RefMoveModel};
use crate::compose::{args4, args6, args8, cat2, cat3, cat4, cat5, chain};
use crate::error::{Error, Fault};
use crate::number::{decimal, number_of, parse as parse_number, show};
use crate::parts::{
    lines, lines_of, starts_with, trim, trimmed, words, words_of,
};
use crate::paths::{display, displayed};
use crate::text::{chars_of, part, put, same, Text};

verus! {

/// Version of the record format.
pub const RECORD_SCHEMA: u32 = 1;

/// Git's own spelling for a ref that does not exist. It is what git prints and
/// what git accepts, so a line naming it stays a working `git update-ref`
/// invocation.
pub const ABSENT: &'static str = "0000000000000000000000000000000000000000";

/// What one apply did, in the form that lets it be taken back.
#[derive(Debug, PartialEq, Eq)]
pub struct Record {
    /// The rehearsal that was applied.
    pub rehearsal: String,
    /// When it was applied, seconds since 1970.
    pub applied_at_unix: u64,
    /// Every ref the apply moved and an undo can move back: `before` is where it
    /// was, `after` is where the apply put it. Never `HEAD`.
    pub refs: Vec<RefMove>,
}

/// The model of a [`Record`].
pub struct RecordModel {
    pub rehearsal: Text,
    pub applied_at_unix: u64,
    pub refs: Seq<RefMoveModel>,
}

impl DeepView for Record {
    type V = RecordModel;

    open spec fn deep_view(&self) -> RecordModel {
        RecordModel {
            rehearsal: self.rehearsal@,
            applied_at_unix: self.applied_at_unix,
            refs: self.refs.deep_view(),
        }
    }
}

/// The moves of refs other than `HEAD`.
pub open spec fn without_head(moves: Seq<RefMoveModel>) -> Seq<RefMoveModel>
    decreases moves.len(),
{
    if moves.len() == 0 {
        moves
    } else if moves.last().name == "HEAD"@ {
        without_head(moves.drop_last())
    } else {
        without_head(moves.drop_last()).push(moves.last())
    }
}

/// The moves of refs other than `HEAD`.
pub fn drop_head(moves: &Vec<RefMove>) -> (kept: Vec<RefMove>)
    ensures
        kept.deep_view() == without_head(moves.deep_view()),
{
    let ghost all = moves.deep_view();
    let mut kept: Vec<RefMove> = Vec::new();
    let mut i: usize = 0;
    assert(all.take(0) =~= Seq::empty());
    assert(kept.deep_view() =~= Seq::empty());
    while i < moves.len()
        invariant
            i <= moves@.len(),
            all == moves.deep_view(),
            kept.deep_view() == without_head(all.take(i as int)),
        decreases moves@.len() - i,
    {
        assert(all.take(i + 1).drop_last() =~= all.take(i as int));
        assert(all.take(i + 1).last() == moves[i as int].deep_view());
        if !same(&moves[i].name, "HEAD") {
            put(&mut kept, moves[i].copy());
        }
        i = i + 1;
    }
    assert(all.take(all.len() as int) =~= all);
    kept
}

impl Record {
    /// The record for an apply that is about to move `moved`. `HEAD` is dropped
    /// here, so that every entry names something the undo transaction can act
    /// on.
    pub fn of_apply(rehearsal: String, applied_at_unix: u64, moved: &Vec<RefMove>) -> (record:
        Record)
        ensures
            record.deep_view() == (RecordModel {
                rehearsal: rehearsal@,
                applied_at_unix,
                refs: without_head(moved.deep_view()),
            }),
    {
        Record { rehearsal, applied_at_unix, refs: drop_head(moved) }
    }
}

// ---------------------------------------------------------------------------
// Writing
// ---------------------------------------------------------------------------
/// A side of a move as it is written.
pub open spec fn written(side: Option<Text>) -> Text {
    match side {
        Some(object) => object,
        None => ABSENT@,
    }
}

/// The line of a ref.
pub open spec fn ref_line(moved: RefMoveModel) -> Text {
    moved.name + " "@ + written(moved.before) + " "@ + written(moved.after)
}

/// What the record says of itself.
pub open spec fn comment_lines() -> Seq<Text> {
    seq![
        "#"@,
        "# Each line below is a complete `git update-ref` argument list — put one ref"@,
        "# back by hand with a copy and a paste:"@,
        "#"@,
        "#     git update-ref refs/heads/main <where it was> <where the apply left it>"@,
        "#"@,
        "# git refuses the update unless the ref is still where the apply left it, so a"@,
        "# hand restore cannot quietly discard work committed since. An all-zero object"@,
    ] + seq![
        "# name is git's own \"does not exist\": as the second field it deletes a branch"@,
        "# the apply created, as the third it insists a branch the apply deleted is"@,
        "# still absent."@,
        "#"@,
        "# HEAD is not listed. It follows whichever branch is checked out, so restoring"@,
        "# the branches restores it, and updating it directly would detach it."@,
    ]
}

/// The lines of the record's header.
pub open spec fn header_lines(record: RecordModel) -> Seq<Text> {
    seq![
        "# git-rehearse undo record — where `git rehearse apply` found this repository."@,
        "version "@ + decimal(RECORD_SCHEMA as nat),
        "rehearsal "@ + record.rehearsal,
        "applied-at "@ + decimal(record.applied_at_unix as nat),
    ]
}

/// All lines of the record.
pub open spec fn record_lines(record: RecordModel) -> Seq<Text> {
    header_lines(record) + comment_lines() + record.refs.map_values(
        |moved: RefMoveModel| ref_line(moved),
    )
}

/// Lines with a line feed behind each.
pub open spec fn terminated(lines: Seq<Text>) -> Text
    decreases lines.len(),
{
    if lines.len() == 0 {
        Seq::empty()
    } else {
        terminated(lines.drop_last()) + lines.last() + "\n"@
    }
}

/// The record as it is written to disk.
pub open spec fn rendered(record: RecordModel) -> Text {
    terminated(record_lines(record))
}

/// Lines with a line feed behind each.
fn terminate(lines: &Vec<String>) -> (text: String)
    ensures
        text@ == terminated(lines.deep_view()),
{
    let ghost all = lines.deep_view();
    let mut text = String::new();
    let mut i: usize = 0;
    assert(all.take(0) =~= Seq::empty());
    assert(text@ =~= Seq::<char>::empty());
    while i < lines.len()
        invariant
            i <= lines@.len(),
            all == lines.deep_view(),
            text@ == terminated(all.take(i as int)),
        decreases lines@.len() - i,
    {
        assert(all.take(i + 1).drop_last() =~= all.take(i as int));
        assert(all.take(i + 1).last() == lines[i as int]@);
        text.append(&lines[i]);
        text.append("\n");
        i = i + 1;
    }
    assert(all.take(all.len() as int) =~= all);
    text
}

fn comments() -> (lines: Vec<String>)
    ensures
        lines.deep_view() == comment_lines(),
{
    let first = args8(
        "#",
        "# Each line below is a complete `git update-ref` argument list — put one ref",
        "# back by hand with a copy and a paste:",
        "#",
        "#     git update-ref refs/heads/main <where it was> <where the apply left it>",
        "#",
        "# git refuses the update unless the ref is still where the apply left it, so a",
        "# hand restore cannot quietly discard work committed since. An all-zero object",
    );
    let second = args6(
        "# name is git's own \"does not exist\": as the second field it deletes a branch",
        "# the apply created, as the third it insists a branch the apply deleted is",
        "# still absent.",
        "#",
        "# HEAD is not listed. It follows whichever branch is checked out, so restoring",
        "# the branches restores it, and updating it directly would detach it.",
    );
    chain(first, &second)
}

fn written_side(side: &Option<String>) -> (text: String)
    ensures
        text@ == written(side.deep_view()),
{
    match side {
        Some(object) => object.clone(),
        None => ABSENT.to_owned(),
    }
}

/// The record as it is written to disk.
pub fn render(record: &Record) -> (text: String)
    ensures
        text@ == rendered(record.deep_view()),
{
    let header = args4(
        "# git-rehearse undo record — where `git rehearse apply` found this repository.",
        &cat2("version ", &show(RECORD_SCHEMA as u64)),
        &cat2("rehearsal ", &record.rehearsal),
        &cat2("applied-at ", &show(record.applied_at_unix)),
    );
    let mut lines = chain(header, &comments());
    let ghost fixed = lines.deep_view();
    let ghost refs = record.refs.deep_view();
    let ghost of = |moved: RefMoveModel| ref_line(moved);
    let mut i: usize = 0;
    assert(fixed + refs.take(0).map_values(of) =~= fixed);
    while i < record.refs.len()
        invariant
            i <= record.refs@.len(),
            refs == record.refs.deep_view(),
            of == (|moved: RefMoveModel| ref_line(moved)),
            lines.deep_view() == fixed + refs.take(i as int).map_values(of),
        decreases record.refs@.len() - i,
    {
        let moved = &record.refs[i];
        put(
            &mut lines,
            cat5(
                &moved.name,
                " ",
                &written_side(&moved.before),
                " ",
                &written_side(&moved.after),
            ),
        );
        i = i + 1;
        assert(lines.deep_view() =~= fixed + refs.take(i as int).map_values(of));
    }
    assert(refs.take(refs.len() as int) =~= refs);
    terminate(&lines)
}

// ---------------------------------------------------------------------------
// Reading
// ---------------------------------------------------------------------------
/// The value of the header field `key`: what follows it and a space in the first
/// line that begins with them.
pub open spec fn field_in(lines: Seq<Text>, key: Text) -> Option<Text>
    decreases lines.len(),
{
    if lines.len() == 0 {
        None
    } else if (key + " "@).is_prefix_of(lines[0]) {
        Some(trimmed(lines[0].skip((key.len() + 1) as int)))
    } else {
        field_in(lines.drop_first(), key)
    }
}

/// Whether a line describes a ref: it is neither blank, a comment, nor a header
/// field.
pub open spec fn is_body(line: Text) -> bool {
    &&& line.len() > 0
    &&& !"#"@.is_prefix_of(line)
    &&& !"version "@.is_prefix_of(line)
    &&& !"rehearsal "@.is_prefix_of(line)
    &&& !"applied-at "@.is_prefix_of(line)
}

/// A written side of a move.
pub open spec fn side_of(word: Text) -> Option<Text> {
    if word == ABSENT@ {
        None
    } else {
        Some(word)
    }
}

/// The move that the words of a line describe, where there are three.
pub open spec fn move_of(words: Seq<Text>) -> Option<RefMoveModel> {
    if words.len() == 3 {
        Some(
            RefMoveModel { name: words[0], before: side_of(words[1]), after: side_of(words[2]) },
        )
    } else {
        None
    }
}

/// The moves that `lines` describe, after those in `done`; the first line that
/// describes none is the error.
pub open spec fn moves_from(lines: Seq<Text>, done: Seq<RefMoveModel>) -> Result<
    Seq<RefMoveModel>,
    Text,
>
    decreases lines.len(),
{
    if lines.len() == 0 {
        Ok(done)
    } else if !is_body(trimmed(lines[0])) {
        moves_from(lines.drop_first(), done)
    } else {
        match move_of(words_of(trimmed(lines[0]))) {
            Some(moved) => moves_from(lines.drop_first(), done.push(moved)),
            None => Err(trimmed(lines[0])),
        }
    }
}

pub open spec fn malformed_of(path: Text, why: Text) -> Fault {
    Fault::Refused(
        displayed(path) + " is not a readable undo record: "@ + why
            + ".\nNothing has been changed. Restore the refs by hand, or delete the file."@,
    )
}

pub open spec fn other_version(version: nat) -> Text {
    "it uses record version "@ + decimal(version)
        + " and this build understands 1 — upgrade git-rehearse, or restore the refs by hand"@
}

/// The record that the lines of a text hold, its version already known to be
/// this one; or what is wrong with it.
pub open spec fn parsed_body(lines: Seq<Text>) -> Result<RecordModel, Text> {
    match field_in(lines, "rehearsal"@) {
        None => Err("it does not say which rehearsal it is from"@),
        Some(rehearsal) => match field_in(lines, "applied-at"@) {
            None => Err("it does not say when it was applied"@),
            Some(applied_at) => match number_of(applied_at, u64::MAX as nat) {
                None => Err("its `applied-at` is not a number"@),
                Some(applied_at) => match moves_from(lines, Seq::empty()) {
                    Err(line) => Err("`"@ + line + "` is not a `<ref> <before> <after>` line"@),
                    Ok(refs) => Ok(
                        RecordModel { rehearsal, applied_at_unix: applied_at as u64, refs },
                    ),
                },
            },
        },
    }
}

/// The record that the lines of a text hold, or what is wrong with it. The
/// version is read first and on its own.
pub open spec fn parsed_lines(lines: Seq<Text>) -> Result<RecordModel, Text> {
    match field_in(lines, "version"@) {
        None => Err("it has no `version` line"@),
        Some(version) => match number_of(version, u32::MAX as nat) {
            None => Err("its `version` is not a number"@),
            Some(version) => if version != RECORD_SCHEMA {
                Err(other_version(version))
            } else {
                parsed_body(lines)
            },
        },
    }
}

/// The record that a text holds, or why it holds none.
pub open spec fn parsed(text: Text, path: Text) -> Result<RecordModel, Fault> {
    match parsed_lines(lines_of(text)) {
        Ok(record) => Ok(record),
        Err(why) => Err(malformed_of(path, why)),
    }
}

fn field(found: &Vec<String>, key: &str) -> (value: Option<String>)
    ensures
        value.deep_view() == field_in(found.deep_view(), key@),
{
    let ghost all = found.deep_view();
    let wanted = cat2(key, " ");
    let mut i: usize = 0;
    assert(all.skip(0) =~= all);
    proof {
        reveal_strlit(" ");
    }
    while i < found.len()
        invariant
            i <= found@.len(),
            all == found.deep_view(),
            wanted@ == key@ + " "@,
            wanted@.len() == key@.len() + 1,
            field_in(all, key@) == field_in(all.skip(i as int), key@),
        decreases found@.len() - i,
    {
        assert(all.skip(i as int).drop_first() =~= all.skip(i + 1));
        assert(all.skip(i as int)[0] == found[i as int]@);
        if starts_with(&found[i], &wanted) {
            let chars = chars_of(&found[i]);
            let rest = part(&chars, chars_of(&wanted).len(), chars.len());
            assert(rest@ =~= found[i as int]@.skip((key@.len() + 1) as int));
            return Some(trim(&rest));
        }
        i = i + 1;
    }
    None
}

fn body(line: &str) -> (yes: bool)
    ensures
        yes == is_body(line@),
{
    !line.is_empty() && !starts_with(line, "#") && !starts_with(line, "version ") && !starts_with(
        line,
        "rehearsal ",
    ) && !starts_with(line, "applied-at ")
}

fn object(word: &str) -> (side: Option<String>)
    ensures
        side.deep_view() == side_of(word@),
{
    if same(word, ABSENT) {
        None
    } else {
        Some(word.to_owned())
    }
}

fn moves_in(found: &Vec<String>) -> (moves: Result<Vec<RefMove>, String>)
    ensures
        match moves {
            Ok(moves) => moves_from(found.deep_view(), Seq::empty()) == Ok::<
                Seq<RefMoveModel>,
                Text,
            >(moves.deep_view()),
            Err(line) => moves_from(found.deep_view(), Seq::empty()) == Err::<
                Seq<RefMoveModel>,
                Text,
            >(line@),
        },
{
    let ghost all = found.deep_view();
    let mut moves: Vec<RefMove> = Vec::new();
    let mut i: usize = 0;
    assert(all.skip(0) =~= all);
    assert(moves.deep_view() =~= Seq::empty());
    while i < found.len()
        invariant
            i <= found@.len(),
            all == found.deep_view(),
            moves_from(all, Seq::empty()) == moves_from(all.skip(i as int), moves.deep_view()),
        decreases found@.len() - i,
    {
        assert(all.skip(i as int).drop_first() =~= all.skip(i + 1));
        assert(all.skip(i as int)[0] == found[i as int]@);
        let line = trim(&found[i]);
        if body(&line) {
            let fields = words(&line);
            if fields.len() != 3 {
                return Err(line);
            }
            assert(fields.deep_view()[0] == fields[0]@);
            assert(fields.deep_view()[1] == fields[1]@);
            assert(fields.deep_view()[2] == fields[2]@);
            put(
                &mut moves,
                RefMove {
                    name: fields[0].clone(),
                    before: object(&fields[1]),
                    after: object(&fields[2]),
                },
            );
        }
        i = i + 1;
    }
    Ok(moves)
}

fn malformed(path: &str, why: &str) -> (error: Error)
    ensures
        error.deep_view() == malformed_of(path@, why@),
{
    Error::Refused(
        cat4(
            &display(path),
            " is not a readable undo record: ",
            why,
            ".\nNothing has been changed. Restore the refs by hand, or delete the file.",
        ),
    )
}

/// Reads a record back. A record that cannot be read completely is refused
/// rather than half-applied. `path` appears only in the messages.
pub fn parse(text: &str, path: &str) -> (outcome: Result<Record, Error>)
    ensures
        match outcome {
            Ok(record) => parsed(text@, path@) == Ok::<RecordModel, Fault>(record.deep_view()),
            Err(error) => parsed(text@, path@) == Err::<RecordModel, Fault>(error.deep_view()),
        },
{
    let found = lines(text);
    let version = match field(&found, "version") {
        Some(version) => version,
        None => return Err(malformed(path, "it has no `version` line")),
    };
    match parse_number(&version, u32::MAX as u64) {
        None => return Err(malformed(path, "its `version` is not a number")),
        Some(version) => if version != RECORD_SCHEMA as u64 {
            return Err(
                malformed(
                    path,
                    &cat3(
                        "it uses record version ",
                        &show(version),
                        " and this build understands 1 — upgrade git-rehearse, or restore the refs by hand",
                    ),
                ),
            );
        },
    }
    let rehearsal = match field(&found, "rehearsal") {
        Some(rehearsal) => rehearsal,
        None => return Err(malformed(path, "it does not say which rehearsal it is from")),
    };
    let applied_at = match field(&found, "applied-at") {
        Some(applied_at) => applied_at,
        None => return Err(malformed(path, "it does not say when it was applied")),
    };
    let applied_at_unix = match parse_number(&applied_at, u64::MAX) {
        Some(applied_at_unix) => applied_at_unix,
        None => return Err(malformed(path, "its `applied-at` is not a number")),
    };
    match moves_in(&found) {
        Ok(refs) => Ok(Record { rehearsal, applied_at_unix, refs }),
        Err(line) => Err(
            malformed(path, &cat3("`", &line, "` is not a `<ref> <before> <after>` line")),
        ),
    }
}

} // verus!
