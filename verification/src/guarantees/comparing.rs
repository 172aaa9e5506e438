//! What the comparison of replayed commits says, and of which commits.

use vstd::prelude::*;

use crate::analyze::replay::{
    self, all_dashes, all_digits, all_hex, head_length, index_shaped, is_filled, object_shaped,
    paired, pairing_of, reconciled, reconciling_keeps_the_books, replay_in, suspicious, token_of,
    Operator, ReplayModel,
};
use crate::parts::{is_space, lines_of, trimmed, trimmed_end, trimmed_start};
use crate::text::Text;

verus! {

// ---------------------------------------------------------------------------
// One line, as git writes it
// ---------------------------------------------------------------------------
/// A commit and its counterpart, by their subjects. `old` is of the range on the left of
/// `git range-diff <left>...<right>`, and `new` is of the range on its right.
pub struct PairModel {
    pub old: Option<Text>,
    pub new: Option<Text>,
    /// Whether both do the same.
    pub same: bool,
}

/// The sign that git puts between the two.
pub open spec fn sign_of(pair: PairModel) -> Text {
    match (pair.old, pair.new) {
        (Some(_), None) => "<"@,
        (None, _) => ">"@,
        (Some(_), Some(_)) => if pair.same {
            "="@
        } else {
            "!"@
        },
    }
}

/// The subject that git puts behind them.
pub open spec fn subject_of(pair: PairModel) -> Text {
    match (pair.old, pair.new) {
        (Some(subject), _) => subject,
        (None, Some(subject)) => subject,
        (None, None) => Seq::empty(),
    }
}

/// Whether every character is a blank.
pub open spec fn is_blank(s: Text) -> bool {
    forall|i: int| 0 <= i < s.len() ==> #[trigger] s[i] == ' '
}

/// Whether this is where a commit stands in its range, or a dash for none.
pub open spec fn is_position(s: Text) -> bool {
    s.len() > 0 && (s == "-"@ || all_digits(s))
}

/// Whether this is an abbreviated object name, or dashes for none.
pub open spec fn is_object_name(s: Text) -> bool {
    s.len() > 0 && (all_hex(s) || all_dashes(s))
}

/// The fields of a line.
pub struct LineModel {
    pub pad: Text,
    pub left: Text,
    pub left_object: Text,
    pub sign: Text,
    pub right_pad: Text,
    pub right: Text,
    pub right_object: Text,
    pub tail: Text,
}

/// A line: `<n>:  <object> <sign> <n>:  <object> <subject>`, the positions with blanks
/// before them where others are longer.
pub open spec fn line_of(line: LineModel) -> Text {
    line.pad + (line.left + ":"@) + ("  "@ + line.left_object) + (" "@ + line.sign) + (" "@
        + line.right_pad + (line.right + ":"@)) + ("  "@ + line.right_object) + line.tail
}

/// Whether git writes this line for a pair.
pub open spec fn is_written_for(line: LineModel, pair: PairModel) -> bool {
    &&& is_blank(line.pad)
    &&& is_position(line.left)
    &&& is_object_name(line.left_object)
    &&& line.sign == sign_of(pair)
    &&& is_blank(line.right_pad)
    &&& is_position(line.right)
    &&& is_object_name(line.right_object)
    &&& line.tail.len() > 0 ==> line.tail[0] == ' '
    &&& trimmed(line.tail) == subject_of(pair)
}

/// Whether a text is the line that git writes for a pair.
pub open spec fn shows(text: Text, pair: PairModel) -> bool {
    exists|line: LineModel| #[trigger] line_of(line) == text && is_written_for(line, pair)
}

/// Whether a listing is what git writes for these pairs.
pub open spec fn lists(listing: Text, pairs: Seq<PairModel>) -> bool {
    &&& lines_of(listing).len() == pairs.len()
    &&& forall|i: int| 0 <= i < pairs.len() ==> shows(#[trigger] lines_of(listing)[i], pairs[i])
}

/// A word without white space.
spec fn is_solid(s: Text) -> bool {
    s.len() > 0 && forall|i: int| 0 <= i < s.len() ==> !is_space(#[trigger] s[i])
}

proof fn blanks_are_skipped(pad: Text, rest: Text)
    requires
        is_blank(pad),
    ensures
        trimmed_start(pad + rest) == trimmed_start(rest),
    decreases pad.len(),
{
    if pad.len() == 0 {
        assert(pad + rest =~= rest);
    } else {
        let s = pad + rest;
        assert(s[0] == pad[0]);
        assert(s.drop_first() =~= pad.drop_first() + rest);
        assert forall|i: int| 0 <= i < pad.len() - 1 implies #[trigger] pad.drop_first()[i] == ' ' by {
            assert(pad[i + 1] == ' ');
        }
        blanks_are_skipped(pad.drop_first(), rest);
    }
}

proof fn words_are_measured(word: Text, rest: Text)
    requires
        forall|i: int| 0 <= i < word.len() ==> !is_space(#[trigger] word[i]),
        rest.len() > 0 ==> is_space(rest[0]),
    ensures
        head_length(word + rest) == word.len(),
    decreases word.len(),
{
    let s = word + rest;
    if word.len() == 0 {
        assert(s =~= rest);
    } else {
        assert(s[0] == word[0]);
        assert(s.drop_first() =~= word.drop_first() + rest);
        assert forall|i: int| 0 <= i < word.len() - 1 implies !is_space(
            #[trigger] word.drop_first()[i],
        ) by {
            assert(!is_space(word[i + 1]));
        }
        words_are_measured(word.drop_first(), rest);
    }
}

proof fn words_come_off(pad: Text, word: Text, rest: Text)
    requires
        is_blank(pad),
        is_solid(word),
        rest.len() > 0 ==> is_space(rest[0]),
    ensures
        token_of(pad + word + rest) == Some((word, rest)),
{
    assert(pad + word + rest =~= pad + (word + rest));
    blanks_are_skipped(pad, word + rest);
    let s = word + rest;
    assert(s[0] == word[0]);
    assert(!is_space(word[0]));
    words_are_measured(word, rest);
    assert(s.take(word.len() as int) =~= word);
    assert(s.skip(word.len() as int) =~= rest);
}

proof fn positions_are_solid(position: Text)
    requires
        is_position(position),
    ensures
        is_solid(position + ":"@),
        index_shaped(position + ":"@),
{
    reveal_strlit(":");
    reveal_strlit("-");
    let field = position + ":"@;
    assert(field.drop_last() =~= position);
    assert forall|i: int| 0 <= i < field.len() implies !is_space(#[trigger] field[i]) by {
        if i < position.len() {
            assert(field[i] == position[i]);
        }
    }
}

proof fn objects_are_solid(object: Text)
    requires
        is_object_name(object),
    ensures
        is_solid(object),
        object_shaped(object),
{
    assert forall|i: int| 0 <= i < object.len() implies !is_space(#[trigger] object[i]) by {
        assert(all_hex(object) ==> ('0' <= object[i] <= '9' || 'a' <= object[i] <= 'f' || 'A'
            <= object[i] <= 'F'));
        assert(all_dashes(object) ==> object[i] == '-');
    }
}

proof fn signs_are_solid(pair: PairModel)
    ensures
        is_solid(sign_of(pair)),
        replay::operator_of(sign_of(pair)) == Some(
            match (pair.old, pair.new) {
                (Some(_), None) => Operator::Dropped,
                (None, _) => Operator::Added,
                (Some(_), Some(_)) => if pair.same {
                    Operator::Same
                } else {
                    Operator::Changed
                },
            },
        ),
{
    reveal_strlit("=");
    reveal_strlit("!");
    reveal_strlit("<");
    reveal_strlit(">");
    assert("="@[0] == '=' && "!"@[0] == '!' && "<"@[0] == '<' && ">"@[0] == '>');
}

/// A line of git's comparison is read as what git wrote it for: the commit of the left
/// range that has no counterpart is dropped, the one of the right range is added, and a
/// pair is the same or changed.
pub proof fn a_line_is_read_as_it_was_written(text: Text, pair: PairModel)
    requires
        shows(text, pair),
    ensures
        is_filled(text),
        pairing_of(text) == Some(
            (
                match (pair.old, pair.new) {
                    (Some(_), None) => Operator::Dropped,
                    (None, _) => Operator::Added,
                    (Some(_), Some(_)) => if pair.same {
                        Operator::Same
                    } else {
                        Operator::Changed
                    },
                },
                subject_of(pair),
            ),
        ),
{
    let line = choose|line: LineModel| #[trigger] line_of(line) == text && is_written_for(line, pair);
    reveal_strlit(" ");
    reveal_strlit("  ");
    positions_are_solid(line.left);
    positions_are_solid(line.right);
    objects_are_solid(line.left_object);
    objects_are_solid(line.right_object);
    signs_are_solid(pair);
    let e = line.tail;
    let d = "  "@ + line.right_object + e;
    let c = " "@ + line.right_pad + (line.right + ":"@) + d;
    let b = " "@ + line.sign + c;
    let a = "  "@ + line.left_object + b;
    assert(text =~= line.pad + (line.left + ":"@) + a);
    words_come_off(line.pad, line.left + ":"@, a);
    words_come_off("  "@, line.left_object, b);
    words_come_off(" "@, line.sign, c);
    words_come_off(" "@ + line.right_pad, line.right + ":"@, d);
    words_come_off("  "@, line.right_object, e);
    filled(line.pad + (line.left + ":"@) + a, line.pad.len() as int);
}

proof fn filled(s: Text, i: int)
    requires
        0 <= i < s.len(),
        !is_space(s[i]),
    ensures
        is_filled(s),
    decreases s.len(),
{
    if is_space(s.last()) {
        assert(s.drop_last()[i] == s[i]);
        filled(s.drop_last(), i);
        assert(trimmed_end(s) == trimmed_end(s.drop_last()));
    } else {
        assert(trimmed_end(s) == s);
        starts_filled(s, i);
    }
}

proof fn starts_filled(s: Text, i: int)
    requires
        0 <= i < s.len(),
        !is_space(s[i]),
    ensures
        trimmed_start(s).len() > 0,
    decreases s.len(),
{
    if is_space(s[0]) {
        assert(s.drop_first()[i - 1] == s[i]);
        starts_filled(s.drop_first(), i - 1);
    }
}

// ---------------------------------------------------------------------------
// The whole listing
// ---------------------------------------------------------------------------
/// The subjects of the pairs with this sign.
pub open spec fn subjects_with(pairs: Seq<PairModel>, sign: Text) -> Seq<Text>
    decreases pairs.len(),
{
    if pairs.len() == 0 {
        Seq::empty()
    } else if sign_of(pairs.last()) == sign {
        subjects_with(pairs.drop_last(), sign).push(subject_of(pairs.last()))
    } else {
        subjects_with(pairs.drop_last(), sign)
    }
}

proof fn listings_are_read(lines: Seq<Text>, pairs: Seq<PairModel>)
    requires
        lines.len() == pairs.len(),
        forall|i: int| 0 <= i < pairs.len() ==> shows(#[trigger] lines[i], pairs[i]),
    ensures
        paired(lines) == Some(
            ReplayModel {
                changed: subjects_with(pairs, "!"@),
                dropped: subjects_with(pairs, "<"@),
                added: subjects_with(pairs, ">"@),
                compared: true,
            },
        ),
    decreases lines.len(),
{
    if lines.len() > 0 {
        let earlier = lines.drop_last();
        assert forall|i: int| 0 <= i < pairs.len() - 1 implies shows(
            #[trigger] earlier[i],
            pairs.drop_last()[i],
        ) by {
            assert(shows(lines[i], pairs[i]));
        }
        listings_are_read(earlier, pairs.drop_last());
        assert(shows(lines[lines.len() - 1], pairs.last()));
        a_line_is_read_as_it_was_written(lines.last(), pairs.last());
        reveal_strlit("=");
        reveal_strlit("!");
        reveal_strlit("<");
        reveal_strlit(">");
        assert("="@[0] == '=' && "!"@[0] == '!' && "<"@[0] == '<' && ">"@[0] == '>');
    }
}

/// How often a subject occurs.
pub open spec fn count_of(subjects: Seq<Text>, subject: Text) -> nat {
    subjects.to_multiset().count(subject)
}

/// The smaller of two.
pub open spec fn lesser(a: nat, b: nat) -> nat {
    if a < b {
        a
    } else {
        b
    }
}

/// Whether a comparison accounts for these pairs, commit by commit: one that only the
/// old range has is dropped and one that only the new range has is added, except that a
/// commit of the one and a commit of the other with the same subject are one that was
/// changed; and a pair that does not do the same was changed too.
pub open spec fn accounts_for(replay: ReplayModel, pairs: Seq<PairModel>) -> bool {
    &&& replay.compared
    &&& forall|subject: Text|
        {
            let changed = count_of(subjects_with(pairs, "!"@), subject);
            let dropped = count_of(subjects_with(pairs, "<"@), subject);
            let added = count_of(subjects_with(pairs, ">"@), subject);
            &&& #[trigger] count_of(replay.changed, subject) == changed + lesser(dropped, added)
            &&& count_of(replay.dropped, subject) == dropped - lesser(dropped, added)
            &&& count_of(replay.added, subject) == added - lesser(dropped, added)
        }
}

/// What git's comparison lists is accounted for.
pub proof fn a_listing_is_accounted_for(listing: Text, pairs: Seq<PairModel>)
    requires
        lists(listing, pairs),
    ensures
        accounts_for(replay_in(listing), pairs),
{
    broadcast use vstd::seq_lib::group_to_multiset_ensures;

    let lines = lines_of(listing);
    listings_are_read(lines, pairs);
    let changed = subjects_with(pairs, "!"@);
    let dropped = subjects_with(pairs, "<"@);
    let added = subjects_with(pairs, ">"@);
    let after = reconciled(changed, dropped, added);
    reconciling_keeps_the_books(changed, dropped, added);
    assert(replay_in(listing) == after);
    reconciled_is_compared(changed, dropped, added);
    assert forall|subject: Text| {
        let c = count_of(changed, subject);
        let d = count_of(dropped, subject);
        let a = count_of(added, subject);
        &&& #[trigger] count_of(after.changed, subject) == c + lesser(d, a)
        &&& count_of(after.dropped, subject) == d - lesser(d, a)
        &&& count_of(after.added, subject) == a - lesser(d, a)
    } by {
        let gone = after.changed.to_multiset().add(after.dropped.to_multiset());
        let come = after.changed.to_multiset().add(after.added.to_multiset());
        assert(gone.count(subject) == changed.to_multiset().add(dropped.to_multiset()).count(
            subject,
        ));
        assert(come.count(subject) == changed.to_multiset().add(added.to_multiset()).count(subject));
        if count_of(after.dropped, subject) > 0 {
            assert(after.dropped.to_multiset().contains(subject));
            assert(after.dropped.contains(subject));
            assert(!after.added.contains(subject));
            assert(!after.added.to_multiset().contains(subject));
        }
    }
}

proof fn reconciled_is_compared(changed: Seq<Text>, dropped: Seq<Text>, added: Seq<Text>)
    ensures
        reconciled(changed, dropped, added).compared,
    decreases dropped.len(),
{
    if dropped.len() > 0 {
        reconciled_is_compared(changed, dropped.drop_last(), added);
    }
}

proof fn subjects_are_of_pairs(pairs: Seq<PairModel>, sign: Text)
    ensures
        subjects_with(pairs, sign).len() > 0 <==> exists|i: int|
            0 <= i < pairs.len() && sign_of(#[trigger] pairs[i]) == sign,
        forall|i: int|
            0 <= i < pairs.len() && sign_of(#[trigger] pairs[i]) == sign ==> subjects_with(
                pairs,
                sign,
            ).contains(subject_of(pairs[i])),
    decreases pairs.len(),
{
    if pairs.len() > 0 {
        let rest = pairs.drop_last();
        let all = subjects_with(pairs, sign);
        let earlier = subjects_with(rest, sign);
        subjects_are_of_pairs(rest, sign);
        if sign_of(pairs.last()) == sign {
            assert(sign_of(pairs[pairs.len() - 1]) == sign);
            assert(all[all.len() - 1] == subject_of(pairs.last()));
        } else if earlier.len() > 0 {
            let i = choose|i: int| 0 <= i < rest.len() && sign_of(#[trigger] rest[i]) == sign;
            assert(sign_of(pairs[i]) == sign);
        }
        assert forall|i: int|
            0 <= i < pairs.len() && sign_of(#[trigger] pairs[i]) == sign implies all.contains(
            subject_of(pairs[i]),
        ) by {
            if i < rest.len() {
                assert(sign_of(rest[i]) == sign);
                let k = choose|k: int| 0 <= k < earlier.len() && earlier[k] == subject_of(rest[i]);
                assert(all[k] == earlier[k]);
            }
        }
        if exists|i: int| 0 <= i < pairs.len() && sign_of(#[trigger] pairs[i]) == sign {
            let i = choose|i: int| 0 <= i < pairs.len() && sign_of(#[trigger] pairs[i]) == sign;
            assert(all.contains(subject_of(pairs[i])));
        }
    }
}

/// A replay is suspicious exactly where a commit of the old range has no counterpart, or
/// one that does something else; and a commit that only one range has, with none of its
/// subject on the other side, is named as dropped or as added.
pub proof fn a_lost_commit_is_named(listing: Text, pairs: Seq<PairModel>)
    requires
        lists(listing, pairs),
    ensures
        suspicious(replay_in(listing)) <==> exists|i: int|
            0 <= i < pairs.len() && (#[trigger] pairs[i]).old is Some && (pairs[i].new is None
                || !pairs[i].same),
        forall|i: int|
            0 <= i < pairs.len() && (#[trigger] pairs[i]).old is Some && pairs[i].new is None
                && !subjects_with(pairs, ">"@).contains(pairs[i].old->0) ==> replay_in(
                listing,
            ).dropped.contains(pairs[i].old->0),
        forall|i: int|
            0 <= i < pairs.len() && (#[trigger] pairs[i]).old is None && pairs[i].new is Some
                && !subjects_with(pairs, "<"@).contains(pairs[i].new->0) ==> replay_in(
                listing,
            ).added.contains(pairs[i].new->0),
        forall|i: int|
            0 <= i < pairs.len() && (#[trigger] pairs[i]).old is Some && pairs[i].new is Some
                && !pairs[i].same ==> replay_in(listing).changed.contains(pairs[i].old->0),
{
    broadcast use vstd::seq_lib::group_to_multiset_ensures;

    a_listing_is_accounted_for(listing, pairs);
    subjects_are_of_pairs(pairs, "!"@);
    subjects_are_of_pairs(pairs, "<"@);
    subjects_are_of_pairs(pairs, ">"@);
    reveal_strlit("=");
    reveal_strlit("!");
    reveal_strlit("<");
    reveal_strlit(">");
    assert("="@[0] == '=' && "!"@[0] == '!' && "<"@[0] == '<' && ">"@[0] == '>');
    let replay = replay_in(listing);
    assert forall|i: int|
        0 <= i < pairs.len() && (#[trigger] pairs[i]).old is Some && (pairs[i].new is None
            || !pairs[i].same) implies suspicious(replay) by {
        let subject = subject_of(pairs[i]);
        let sign = sign_of(pairs[i]);
        assert(subjects_with(pairs, sign).contains(subject));
        assert(subjects_with(pairs, sign).to_multiset().contains(subject));
        assert(count_of(replay.changed, subject) + count_of(replay.dropped, subject) > 0);
        if count_of(replay.changed, subject) > 0 {
            assert(replay.changed.contains(subject));
        } else {
            assert(replay.dropped.contains(subject));
        }
    }
    if suspicious(replay) {
        let subject = if replay.changed.len() > 0 {
            replay.changed[0]
        } else {
            replay.dropped[0]
        };
        if replay.changed.len() > 0 {
            assert(replay.changed.contains(subject));
        } else {
            assert(replay.dropped.contains(subject));
        }
        assert(count_of(replay.changed, subject) + count_of(replay.dropped, subject) > 0);
        if count_of(subjects_with(pairs, "!"@), subject) > 0 {
            let i = choose|i: int| 0 <= i < pairs.len() && sign_of(#[trigger] pairs[i]) == "!"@;
            assert(pairs[i].old is Some);
        } else {
            assert(subjects_with(pairs, "<"@).to_multiset().contains(subject));
            let i = choose|i: int| 0 <= i < pairs.len() && sign_of(#[trigger] pairs[i]) == "<"@;
            assert(pairs[i].old is Some);
        }
    }
    assert forall|i: int|
        0 <= i < pairs.len() && (#[trigger] pairs[i]).old is Some && pairs[i].new is None
            && !subjects_with(pairs, ">"@).contains(pairs[i].old->0) implies replay.dropped.contains(
        pairs[i].old->0,
    ) by {
        let subject = pairs[i].old->0;
        assert(sign_of(pairs[i]) == "<"@);
        assert(subjects_with(pairs, "<"@).to_multiset().contains(subject));
        assert(!subjects_with(pairs, ">"@).to_multiset().contains(subject));
        assert(count_of(replay.changed, subject) >= 0);
        assert(count_of(replay.dropped, subject) > 0);
    }
    assert forall|i: int|
        0 <= i < pairs.len() && (#[trigger] pairs[i]).old is None && pairs[i].new is Some
            && !subjects_with(pairs, "<"@).contains(pairs[i].new->0) implies replay.added.contains(
        pairs[i].new->0,
    ) by {
        let subject = pairs[i].new->0;
        assert(sign_of(pairs[i]) == ">"@);
        assert(subjects_with(pairs, ">"@).to_multiset().contains(subject));
        assert(!subjects_with(pairs, "<"@).to_multiset().contains(subject));
        assert(count_of(replay.changed, subject) >= 0);
        assert(count_of(replay.added, subject) > 0);
    }
    assert forall|i: int|
        0 <= i < pairs.len() && (#[trigger] pairs[i]).old is Some && pairs[i].new is Some
            && !pairs[i].same implies replay.changed.contains(pairs[i].old->0) by {
        let subject = pairs[i].old->0;
        assert(sign_of(pairs[i]) == "!"@);
        assert(subjects_with(pairs, "!"@).to_multiset().contains(subject));
        assert(count_of(replay.changed, subject) > 0);
    }
}

} // verus!
