//! How the replayed commits compare with the ones they replaced.

use vstd::prelude::*;

use crate::parts::{is_space, lines, lines_of, space, trim, trim_start, trimmed, trimmed_start};
use crate::text::{chars_of, part, put, same, Text};

verus! {

/// How the replayed commits compare with the ones they replaced.
///
/// Comparing trees alone cannot answer the question the warning wants to ask:
/// rebasing onto a base that has moved on changes the tip's tree by exactly the
/// base's own commits. What matters is whether the commits being replayed still
/// do what they did.
#[derive(Debug, PartialEq, Eq)]
pub struct Replay {
    /// Subjects of commits whose patch is not what it was.
    pub changed: Vec<String>,
    /// Subjects of commits that are simply gone.
    pub dropped: Vec<String>,
    /// Subjects of commits that exist only on the new side.
    pub added: Vec<String>,
    /// Whether git could compare the two ranges at all.
    pub compared: bool,
}

/// The model of a [`Replay`].
pub struct ReplayModel {
    pub changed: Seq<Text>,
    pub dropped: Seq<Text>,
    pub added: Seq<Text>,
    pub compared: bool,
}

impl DeepView for Replay {
    type V = ReplayModel;

    open spec fn deep_view(&self) -> ReplayModel {
        ReplayModel {
            changed: self.changed.deep_view(),
            dropped: self.dropped.deep_view(),
            added: self.added.deep_view(),
            compared: self.compared,
        }
    }
}

/// Whether a replay changed something it should not have. One that could not be
/// compared counts as changed.
pub open spec fn suspicious(replay: ReplayModel) -> bool {
    !replay.compared || replay.changed.len() > 0 || replay.dropped.len() > 0
}

/// A replay with nothing in it.
pub open spec fn empty_replay(compared: bool) -> ReplayModel {
    ReplayModel {
        changed: Seq::empty(),
        dropped: Seq::empty(),
        added: Seq::empty(),
        compared,
    }
}

fn blank(compared: bool) -> (replay: Replay)
    ensures
        replay.deep_view() == empty_replay(compared),
{
    let changed: Vec<String> = Vec::new();
    let dropped: Vec<String> = Vec::new();
    let added: Vec<String> = Vec::new();
    assert(changed.deep_view() =~= Seq::empty());
    assert(dropped.deep_view() =~= Seq::empty());
    assert(added.deep_view() =~= Seq::empty());
    Replay { changed, dropped, added, compared }
}

impl Default for Replay {
    /// A comparison that could not be made.
    fn default() -> (replay: Replay)
        ensures
            replay.deep_view() == empty_replay(false),
    {
        blank(false)
    }
}

impl Replay {
    /// Whether this replay changed something it should not have.
    pub fn is_suspicious(&self) -> (yes: bool)
        ensures
            yes == suspicious(self.deep_view()),
    {
        !self.compared || self.changed.len() > 0 || self.dropped.len() > 0
    }
}

// ---------------------------------------------------------------------------
// One line of the listing
// ---------------------------------------------------------------------------
/// How many characters stand before the first white space.
pub open spec fn head_length(s: Text) -> int
    decreases s.len(),
{
    if s.len() == 0 || is_space(s[0]) {
        0
    } else {
        1 + head_length(s.drop_first())
    }
}

/// The leading word of a text and what follows it.
pub open spec fn token_of(s: Text) -> Option<(Text, Text)> {
    let s = trimmed_start(s);
    if s.len() == 0 {
        None
    } else {
        Some((s.take(head_length(s)), s.skip(head_length(s))))
    }
}

/// Splits the leading word off `text`, with the rest.
fn token(text: &str) -> (found: Option<(String, String)>)
    ensures
        found.deep_view() == token_of(text@),
{
    let chars = chars_of(&trim_start(text));
    if chars.len() == 0 {
        return None;
    }
    let mut end: usize = 0;
    assert(chars@.skip(0) =~= chars@);
    while end < chars.len() && !space(chars[end])
        invariant
            end <= chars@.len(),
            head_length(chars@) == end + head_length(chars@.skip(end as int)),
        decreases chars@.len() - end,
    {
        assert(chars@.skip(end as int).drop_first() =~= chars@.skip(end + 1));
        end = end + 1;
    }
    let head = part(&chars, 0, end);
    let tail = part(&chars, end, chars.len());
    assert(head@ =~= chars@.take(end as int));
    assert(tail@ =~= chars@.skip(end as int));
    Some((head, tail))
}

/// Whether every character is a decimal digit.
pub open spec fn all_digits(s: Text) -> bool {
    forall|i: int| 0 <= i < s.len() ==> '0' <= #[trigger] s[i] <= '9'
}

/// Whether every character is a hexadecimal digit.
pub open spec fn all_hex(s: Text) -> bool {
    forall|i: int|
        0 <= i < s.len() ==> ('0' <= #[trigger] s[i] <= '9' || 'a' <= s[i] <= 'f' || 'A' <= s[i]
            <= 'F')
}

/// Whether every character is a dash.
pub open spec fn all_dashes(s: Text) -> bool {
    forall|i: int| 0 <= i < s.len() ==> #[trigger] s[i] == '-'
}

/// A commit's position in its range (`3:`), or `-:` where that side has no
/// commit to number.
pub open spec fn index_shaped(field: Text) -> bool {
    &&& field.len() > 1
    &&& field.last() == ':'
    &&& field.drop_last() == "-"@ || all_digits(field.drop_last())
}

/// An abbreviated object name, or the dashes standing in for the one a missing
/// commit does not have.
pub open spec fn object_shaped(field: Text) -> bool {
    field.len() > 0 && (all_hex(field) || all_dashes(field))
}

fn is_index(field: &str) -> (yes: bool)
    ensures
        yes == index_shaped(field@),
{
    let chars = chars_of(field);
    let len = chars.len();
    if len < 2 || chars[len - 1] != ':' {
        return false;
    }
    let body = part(&chars, 0, len - 1);
    assert(body@ =~= field@.drop_last());
    if same(&body, "-") {
        return true;
    }
    let mut i: usize = 0;
    while i < len - 1
        invariant
            len == chars@.len(),
            len >= 2,
            i <= len - 1,
            chars@ == field@,
            field@.drop_last() != "-"@,
            forall|j: int| 0 <= j < i ==> '0' <= #[trigger] field@.drop_last()[j] <= '9',
        decreases len - i,
    {
        if chars[i] < '0' || chars[i] > '9' {
            assert(!('0' <= field@.drop_last()[i as int] <= '9'));
            return false;
        }
        i = i + 1;
    }
    true
}

fn is_object(field: &str) -> (yes: bool)
    ensures
        yes == object_shaped(field@),
{
    let chars = chars_of(field);
    if chars.len() == 0 {
        return false;
    }
    let mut hex: bool = true;
    let mut dashes: bool = true;
    let mut i: usize = 0;
    while i < chars.len()
        invariant
            i <= chars@.len(),
            hex == all_hex(chars@.take(i as int)),
            dashes == all_dashes(chars@.take(i as int)),
        decreases chars@.len() - i,
    {
        let c = chars[i];
        let ghost now = chars@.take(i + 1);
        let ghost earlier = chars@.take(i as int);
        assert(now =~= earlier.push(c));
        assert(all_hex(now) == (all_hex(earlier) && ('0' <= c <= '9' || 'a' <= c <= 'f' || 'A' <= c
            <= 'F'))) by {
            assert(now[i as int] == c);
            assert(forall|j: int| 0 <= j < i ==> now[j] == earlier[j]);
        }
        assert(all_dashes(now) == (all_dashes(earlier) && c == '-')) by {
            assert(now[i as int] == c);
            assert(forall|j: int| 0 <= j < i ==> now[j] == earlier[j]);
        }
        if !(('0' <= c && c <= '9') || ('a' <= c && c <= 'f') || ('A' <= c && c <= 'F')) {
            hex = false;
        }
        if c != '-' {
            dashes = false;
        }
        i = i + 1;
    }
    assert(chars@.take(chars@.len() as int) =~= chars@);
    hex || dashes
}

/// How a commit and its counterpart compare.
#[derive(Debug, Clone, Copy, PartialEq, Eq, Structural)]
pub enum Operator {
    Same,
    Changed,
    Dropped,
    Added,
}

/// The operator that a field spells.
pub open spec fn operator_of(field: Text) -> Option<Operator> {
    if field == "="@ {
        Some(Operator::Same)
    } else if field == "!"@ {
        Some(Operator::Changed)
    } else if field == "<"@ {
        Some(Operator::Dropped)
    } else if field == ">"@ {
        Some(Operator::Added)
    } else {
        None
    }
}

fn operator(field: &str) -> (found: Option<Operator>)
    ensures
        found == operator_of(field@),
{
    if same(field, "=") {
        Some(Operator::Same)
    } else if same(field, "!") {
        Some(Operator::Changed)
    } else if same(field, "<") {
        Some(Operator::Dropped)
    } else if same(field, ">") {
        Some(Operator::Added)
    } else {
        None
    }
}

/// The five fields of a line and what follows them.
pub open spec fn five_tokens(line: Text) -> Option<(Text, Text, Text, Text, Text, Text)> {
    match token_of(line) {
        None => None,
        Some((left_index, rest)) => match token_of(rest) {
            None => None,
            Some((left_object, rest)) => match token_of(rest) {
                None => None,
                Some((operator, rest)) => match token_of(rest) {
                    None => None,
                    Some((right_index, rest)) => match token_of(rest) {
                        None => None,
                        Some((right_object, subject)) => Some(
                            (left_index, left_object, operator, right_index, right_object, subject),
                        ),
                    },
                },
            },
        },
    }
}

/// The operator and the subject of a line that pairs a commit with its
/// counterpart: index, object name, operator, index, object name, and then the
/// subject, which may be absent. `None` for any other line.
pub open spec fn pairing_of(line: Text) -> Option<(Operator, Text)> {
    match five_tokens(line) {
        None => None,
        Some((left_index, left_object, operator, right_index, right_object, subject)) => {
            if index_shaped(left_index) && object_shaped(left_object) && operator_of(operator) is Some
                && index_shaped(right_index) && object_shaped(right_object) {
                Some((operator_of(operator)->0, trimmed(subject)))
            } else {
                None
            }
        },
    }
}

/// Splits one pairing line into its operator and its subject.
fn pairing(line: &str) -> (found: Option<(Operator, String)>)
    ensures
        match found {
            Some((operator, subject)) => pairing_of(line@) == Some((operator, subject@)),
            None => pairing_of(line@) is None,
        },
{
    let (left_index, rest) = match token(line) {
        Some(found) => found,
        None => return None,
    };
    let (left_object, rest) = match token(&rest) {
        Some(found) => found,
        None => return None,
    };
    let (sign, rest) = match token(&rest) {
        Some(found) => found,
        None => return None,
    };
    let (right_index, rest) = match token(&rest) {
        Some(found) => found,
        None => return None,
    };
    let (right_object, subject) = match token(&rest) {
        Some(found) => found,
        None => return None,
    };
    match operator(&sign) {
        Some(operator) => if is_index(&left_index) && is_object(&left_object) && is_index(
            &right_index,
        ) && is_object(&right_object) {
            Some((operator, trim(&subject)))
        } else {
            None
        },
        None => None,
    }
}

// ---------------------------------------------------------------------------
// The whole listing
// ---------------------------------------------------------------------------
/// Whether a line holds anything.
pub open spec fn is_filled(line: Text) -> bool {
    trimmed(line).len() > 0
}

/// What the lines pair up, where each of them that holds anything can be read.
pub open spec fn paired(lines: Seq<Text>) -> Option<ReplayModel>
    decreases lines.len(),
{
    if lines.len() == 0 {
        Some(empty_replay(true))
    } else if !is_filled(lines.last()) {
        paired(lines.drop_last())
    } else {
        match (paired(lines.drop_last()), pairing_of(lines.last())) {
            (Some(replay), Some((operator, subject))) => Some(
                match operator {
                    Operator::Same => replay,
                    Operator::Changed => ReplayModel {
                        changed: replay.changed.push(subject),
                        ..replay
                    },
                    Operator::Dropped => ReplayModel {
                        dropped: replay.dropped.push(subject),
                        ..replay
                    },
                    Operator::Added => ReplayModel { added: replay.added.push(subject), ..replay },
                },
            ),
            _ => None,
        }
    }
}

/// The texts without the first that equals `text`.
pub open spec fn without_first(texts: Seq<Text>, text: Text) -> Seq<Text>
    decreases texts.len(),
{
    if texts.len() == 0 {
        texts
    } else if texts[0] == text {
        texts.drop_first()
    } else {
        seq![texts[0]] + without_first(texts.drop_first(), text)
    }
}

/// Dropped commits paired by subject with added ones: such a commit is not
/// gone, it stopped doing what it did.
pub open spec fn reconciled(
    changed: Seq<Text>,
    dropped: Seq<Text>,
    added: Seq<Text>,
) -> ReplayModel
    decreases dropped.len(),
{
    if dropped.len() == 0 {
        ReplayModel { changed, dropped: Seq::empty(), added, compared: true }
    } else {
        let earlier = reconciled(changed, dropped.drop_last(), added);
        let subject = dropped.last();
        if earlier.added.contains(subject) {
            ReplayModel {
                changed: earlier.changed.push(subject),
                added: without_first(earlier.added, subject),
                ..earlier
            }
        } else {
            ReplayModel { dropped: earlier.dropped.push(subject), ..earlier }
        }
    }
}

/// What a range-diff listing says. One line that cannot be read discredits the
/// whole of it.
pub open spec fn replay_in(listing: Text) -> ReplayModel {
    match paired(lines_of(listing)) {
        Some(replay) => reconciled(replay.changed, replay.dropped, replay.added),
        None => empty_replay(false),
    }
}

/// Removes the first of `texts` that equals `text`, where there is one.
fn take_first(texts: &mut Vec<String>, text: &str) -> (taken: bool)
    ensures
        taken == old(texts).deep_view().contains(text@),
        final(texts).deep_view() == if taken {
            without_first(old(texts).deep_view(), text@)
        } else {
            old(texts).deep_view()
        },
{
    let ghost all = texts.deep_view();
    let mut i: usize = 0;
    assert(all.skip(0) =~= all);
    assert(all.take(0) + without_first(all.skip(0), text@) =~= without_first(all, text@));
    while i < texts.len()
        invariant
            i <= texts@.len(),
            *texts == *old(texts),
            all == old(texts).deep_view(),
            all == texts.deep_view(),
            forall|j: int| 0 <= j < i ==> all[j] != text@,
            all.take(i as int) + without_first(all.skip(i as int), text@) == without_first(
                all,
                text@,
            ),
        decreases texts@.len() - i,
    {
        if same(&texts[i], text) {
            assert(all[i as int] == text@);
            assert(all.skip(i as int).drop_first() =~= all.skip(i + 1));
            texts.remove(i);
            assert(texts.deep_view() =~= all.take(i as int) + all.skip(i + 1));
            return true;
        }
        assert(all[i as int] != text@);
        assert(all.skip(i as int).drop_first() =~= all.skip(i + 1));
        assert(all.take(i + 1) + without_first(all.skip(i + 1), text@) =~= all.take(i as int)
            + without_first(all.skip(i as int), text@));
        i = i + 1;
    }
    false
}

/// Re-pairs commits git would not pair, by subject.
fn reconcile_by_subject(
    changed: Vec<String>,
    dropped: Vec<String>,
    added: Vec<String>,
) -> (replay: Replay)
    ensures
        replay.deep_view() == reconciled(
            changed.deep_view(),
            dropped.deep_view(),
            added.deep_view(),
        ),
{
    let ghost gone = dropped.deep_view();
    let mut replay = Replay { changed, dropped: Vec::new(), added, compared: true };
    let mut i: usize = 0;
    assert(gone.take(0) =~= Seq::empty());
    assert(replay.dropped.deep_view() =~= Seq::empty());
    while i < dropped.len()
        invariant
            i <= dropped@.len(),
            gone == dropped.deep_view(),
            replay.deep_view() == reconciled(
                changed.deep_view(),
                gone.take(i as int),
                added.deep_view(),
            ),
        decreases dropped@.len() - i,
    {
        assert(gone.take(i + 1).drop_last() =~= gone.take(i as int));
        assert(gone.take(i + 1).last() == dropped[i as int]@);
        if take_first(&mut replay.added, &dropped[i]) {
            put(&mut replay.changed, dropped[i].clone());
        } else {
            put(&mut replay.dropped, dropped[i].clone());
        }
        i = i + 1;
    }
    assert(gone.take(gone.len() as int) =~= gone);
    replay
}

/// Once a line cannot be read, nothing is.
proof fn unread_stays_unread(lines: Seq<Text>, i: int)
    requires
        0 <= i <= lines.len(),
        paired(lines.take(i)) is None,
    ensures
        paired(lines) is None,
    decreases lines.len() - i,
{
    if i == lines.len() {
        assert(lines.take(i) =~= lines);
    } else {
        assert(lines.take(i + 1).drop_last() =~= lines.take(i));
        unread_stays_unread(lines, i + 1);
    }
}

/// Reads the listing of `git range-diff --no-patch`.
///
/// ```text
/// -:  ------- > 1:  b1a6479 main moves on
/// 1:  cbd2376 = 2:  0bb1e77 teach the parser about tabs
/// 2:  768e487 < -:  -------
/// ```
///
/// Git publishes no machine-readable form of it, so each line is held against
/// the grammar and not read by field number. A line that does not match it
/// abandons the whole comparison.
pub fn parse_range_diff(listing: &str) -> (replay: Replay)
    ensures
        replay.deep_view() == replay_in(listing@),
{
    let found = lines(listing);
    let ghost all = found.deep_view();
    let mut replay = blank(true);
    let mut i: usize = 0;
    assert(all.take(0) =~= Seq::empty());
    while i < found.len()
        invariant
            i <= found@.len(),
            all == found.deep_view(),
            all == lines_of(listing@),
            paired(all.take(i as int)) == Some(replay.deep_view()),
        decreases found@.len() - i,
    {
        let ghost now = all.take(i + 1);
        assert(now.drop_last() =~= all.take(i as int));
        assert(now.last() == found[i as int]@);
        if !trim(&found[i]).as_str().is_empty() {
            match pairing(&found[i]) {
                Some((operator, subject)) => match operator {
                    Operator::Same => {},
                    Operator::Changed => {
                        put(&mut replay.changed, subject);
                    },
                    Operator::Dropped => {
                        put(&mut replay.dropped, subject);
                    },
                    Operator::Added => {
                        put(&mut replay.added, subject);
                    },
                },
                None => {
                    proof {
                        unread_stays_unread(all, i + 1);
                    }
                    return blank(false);
                },
            }
        }
        i = i + 1;
    }
    assert(all.take(all.len() as int) =~= all);
    reconcile_by_subject(replay.changed, replay.dropped, replay.added)
}

// ---------------------------------------------------------------------------
// What holds of the comparison
// ---------------------------------------------------------------------------
/// A listing with one line that cannot be read is never taken for a clean one.
pub proof fn one_unreadable_line_discredits(listing: Text, i: int)
    requires
        0 <= i < lines_of(listing).len(),
        is_filled(lines_of(listing)[i]),
        pairing_of(lines_of(listing)[i]) is None,
    ensures
        !replay_in(listing).compared,
        suspicious(replay_in(listing)),
{
    let lines = lines_of(listing);
    assert(lines.take(i + 1).last() == lines[i]);
    unread_stays_unread(lines, i + 1);
}

proof fn without_first_counts(texts: Seq<Text>, text: Text)
    requires
        texts.contains(text),
    ensures
        without_first(texts, text).to_multiset() == texts.to_multiset().remove(text),
    decreases texts.len(),
{
    broadcast use vstd::seq_lib::group_to_multiset_ensures;

    let rest = texts.drop_first();
    assert(texts =~= seq![texts[0]] + rest);
    vstd::seq_lib::lemma_multiset_commutative(seq![texts[0]], rest);
    assert(seq![texts[0]].to_multiset() =~= vstd::multiset::Multiset::singleton(texts[0])) by {
        assert(seq![texts[0]] =~= Seq::empty().push(texts[0]));
    }
    if texts[0] == text {
        assert(texts.to_multiset().remove(text) =~= rest.to_multiset());
    } else {
        let k = choose|k: int| 0 <= k < texts.len() && texts[k] == text;
        assert(rest[k - 1] == text);
        without_first_counts(rest, text);
        vstd::seq_lib::lemma_multiset_commutative(seq![texts[0]], without_first(rest, text));
        assert(rest.to_multiset().contains(text));
        assert(without_first(texts, text).to_multiset() =~= texts.to_multiset().remove(text));
    }
}

proof fn without_first_keeps(texts: Seq<Text>, text: Text, other: Text)
    ensures
        without_first(texts, text).contains(other) ==> texts.contains(other),
    decreases texts.len(),
{
    if texts.len() > 0 {
        let rest = texts.drop_first();
        without_first_keeps(rest, text, other);
        if without_first(texts, text).contains(other) {
            let all = without_first(texts, text);
            let k = choose|k: int| 0 <= k < all.len() && all[k] == other;
            if texts[0] == text {
                assert(texts[k + 1] == other);
            } else if k == 0 {
                assert(texts[0] == other);
            } else {
                assert(without_first(rest, text)[k - 1] == other);
                let j = choose|j: int| 0 <= j < rest.len() && rest[j] == other;
                assert(texts[j + 1] == other);
            }
        }
    }
}

/// Reconciling loses no commit and invents none: what was changed or dropped is
/// changed or dropped afterwards, every commit that counts as changed on
/// account of its subject leaves the added ones, and no commit counts as
/// dropped while one of its subject counts as added.
pub proof fn reconciling_keeps_the_books(
    changed: Seq<Text>,
    dropped: Seq<Text>,
    added: Seq<Text>,
)
    ensures
        ({
            let after = reconciled(changed, dropped, added);
            &&& after.changed.to_multiset().add(after.dropped.to_multiset())
                == changed.to_multiset().add(dropped.to_multiset())
            &&& after.changed.to_multiset().add(after.added.to_multiset())
                == changed.to_multiset().add(added.to_multiset())
            &&& forall|subject: Text| #[trigger]
                after.dropped.contains(subject) ==> !after.added.contains(subject)
        }),
    decreases dropped.len(),
{
    broadcast use vstd::seq_lib::group_to_multiset_ensures;

    let after = reconciled(changed, dropped, added);
    if dropped.len() == 0 {
        assert(dropped =~= Seq::empty());
        assert(after.dropped =~= Seq::empty());
    } else {
        let rest = dropped.drop_last();
        let subject = dropped.last();
        let earlier = reconciled(changed, rest, added);
        reconciling_keeps_the_books(changed, rest, added);
        assert(dropped =~= rest.push(subject));
        assert(dropped.to_multiset() =~= rest.to_multiset().insert(subject));
        let kept = earlier.changed.to_multiset().add(earlier.dropped.to_multiset());
        assert(kept == changed.to_multiset().add(rest.to_multiset()));
        assert(kept.insert(subject) =~= changed.to_multiset().add(dropped.to_multiset()));
        if earlier.added.contains(subject) {
            without_first_counts(earlier.added, subject);
            assert(earlier.added.to_multiset().contains(subject));
            assert(after.changed.to_multiset() =~= earlier.changed.to_multiset().insert(subject));
            assert(after.changed.to_multiset().add(after.dropped.to_multiset()) =~= kept.insert(
                subject,
            ));
            assert(after.changed.to_multiset().add(after.added.to_multiset())
                =~= earlier.changed.to_multiset().add(earlier.added.to_multiset()));
            assert forall|other: Text| #[trigger]
                after.dropped.contains(other) implies !after.added.contains(other) by {
                without_first_keeps(earlier.added, subject, other);
            }
        } else {
            assert(after.dropped.to_multiset() =~= earlier.dropped.to_multiset().insert(subject));
            assert(after.changed.to_multiset().add(after.dropped.to_multiset()) =~= kept.insert(
                subject,
            ));
            assert forall|other: Text| #[trigger]
                after.dropped.contains(other) implies !after.added.contains(other) by {
                let k = choose|k: int|
                    0 <= k < after.dropped.len() && after.dropped[k] == other;
                if k < earlier.dropped.len() {
                    assert(earlier.dropped.contains(earlier.dropped[k]));
                }
            }
        }
    }
}

} // verus!
