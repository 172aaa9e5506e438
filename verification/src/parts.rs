//! Taking texts apart and putting them together.

use vstd::prelude::*;

use crate::text::{chars_of, part, put, Text};

verus! {

// ---------------------------------------------------------------------------
// White space
// ---------------------------------------------------------------------------
/// The characters that Unicode calls white space.
pub open spec fn is_space(c: char) -> bool {
    let code = c as u32;
    ||| 9 <= code <= 13
    ||| code == 32
    ||| code == 0x85
    ||| code == 0xA0
    ||| code == 0x1680
    ||| 0x2000 <= code <= 0x200A
    ||| code == 0x2028
    ||| code == 0x2029
    ||| code == 0x202F
    ||| code == 0x205F
    ||| code == 0x3000
}

/// Whether a character is white space.
pub fn space(c: char) -> (white: bool)
    ensures
        white == is_space(c),
{
    let code = c as u32;
    (9 <= code && code <= 13) || code == 32 || code == 0x85 || code == 0xA0 || code == 0x1680 || (
    0x2000 <= code && code <= 0x200A) || code == 0x2028 || code == 0x2029 || code == 0x202F || code
        == 0x205F || code == 0x3000
}

/// The text without the white space at its end.
pub open spec fn trimmed_end(s: Text) -> Text
    decreases s.len(),
{
    if s.len() > 0 && is_space(s.last()) {
        trimmed_end(s.drop_last())
    } else {
        s
    }
}

/// The text without the white space at its start.
pub open spec fn trimmed_start(s: Text) -> Text
    decreases s.len(),
{
    if s.len() > 0 && is_space(s[0]) {
        trimmed_start(s.drop_first())
    } else {
        s
    }
}

/// The text without the white space around it.
pub open spec fn trimmed(s: Text) -> Text {
    trimmed_start(trimmed_end(s))
}

/// How many characters [`trimmed_end`] keeps.
fn end_of(chars: &Vec<char>) -> (end: usize)
    ensures
        end <= chars@.len(),
        chars@.take(end as int) == trimmed_end(chars@),
{
    let mut end: usize = chars.len();
    assert(chars@.take(end as int) =~= chars@);
    while end > 0 && space(chars[end - 1])
        invariant
            end <= chars@.len(),
            trimmed_end(chars@) == trimmed_end(chars@.take(end as int)),
        decreases end,
    {
        assert(chars@.take(end as int).drop_last() =~= chars@.take(end - 1));
        end = end - 1;
    }
    end
}

/// `text` without the white space at its end.
pub fn trim_end(text: &str) -> (kept: String)
    ensures
        kept@ == trimmed_end(text@),
{
    let chars = chars_of(text);
    let end = end_of(&chars);
    part(&chars, 0, end)
}

/// `text` without the white space around it.
pub fn trim(text: &str) -> (kept: String)
    ensures
        kept@ == trimmed(text@),
{
    let chars = chars_of(text);
    let end = end_of(&chars);
    let mut start: usize = 0;
    assert(chars@.subrange(0, end as int) =~= chars@.take(end as int));
    while start < end && space(chars[start])
        invariant
            start <= end <= chars@.len(),
            trimmed(chars@) == trimmed_start(chars@.subrange(start as int, end as int)),
        decreases end - start,
    {
        assert(chars@.subrange(start as int, end as int).drop_first() =~= chars@.subrange(
            start + 1,
            end as int,
        ));
        start = start + 1;
    }
    part(&chars, start, end)
}

/// `text` without the white space at its start.
pub fn trim_start(text: &str) -> (kept: String)
    ensures
        kept@ == trimmed_start(text@),
{
    let chars = chars_of(text);
    let mut start: usize = 0;
    assert(chars@.subrange(0, chars@.len() as int) =~= chars@);
    while start < chars.len() && space(chars[start])
        invariant
            start <= chars@.len(),
            trimmed_start(text@) == trimmed_start(
                chars@.subrange(start as int, chars@.len() as int),
            ),
        decreases chars@.len() - start,
    {
        assert(chars@.subrange(start as int, chars@.len() as int).drop_first() =~= chars@.subrange(
            start + 1,
            chars@.len() as int,
        ));
        start = start + 1;
    }
    part(&chars, start, chars.len())
}

// ---------------------------------------------------------------------------
// Splitting
// ---------------------------------------------------------------------------
/// The pieces of a sequence between its separators: a separator opens a new
/// piece, anything else belongs to the piece that is open. There is always one
/// piece more than there are separators.
pub open spec fn pieces<T>(s: Seq<T>, separator: T) -> Seq<Seq<T>>
    decreases s.len(),
{
    if s.len() == 0 {
        seq![Seq::empty()]
    } else {
        let earlier = pieces(s.drop_last(), separator);
        if s.last() == separator {
            earlier.push(Seq::empty())
        } else {
            earlier.drop_last().push(earlier.last().push(s.last()))
        }
    }
}

/// There is always a piece.
pub proof fn pieces_nonempty<T>(s: Seq<T>, separator: T)
    ensures
        pieces(s, separator).len() >= 1,
    decreases s.len(),
{
    if s.len() > 0 {
        pieces_nonempty(s.drop_last(), separator);
    }
}

/// The pieces of `text` between the separators.
pub fn split(text: &str, separator: char) -> (found: Vec<String>)
    ensures
        found.deep_view() == pieces(text@, separator),
{
    let chars = chars_of(text);
    let mut found: Vec<String> = Vec::new();
    let mut open = String::new();
    let mut i: usize = 0;
    proof {
        assert(chars@.take(0) =~= Seq::empty());
        assert(found.deep_view().push(open@) =~= pieces(chars@.take(0), separator)) by {
            assert(open@ =~= Seq::<char>::empty());
        }
    }
    while i < chars.len()
        invariant
            i <= chars@.len(),
            found.deep_view().push(open@) == pieces(chars@.take(i as int), separator),
        decreases chars@.len() - i,
    {
        let ghost earlier = found.deep_view().push(open@);
        assert(chars@.take(i + 1).drop_last() =~= chars@.take(i as int));
        if chars[i] == separator {
            put(&mut found, open);
            open = String::new();
            assert(open@ =~= Seq::<char>::empty());
        } else {
            open.push(chars[i]);
            assert(earlier.drop_last() =~= found.deep_view());
        }
        i = i + 1;
    }
    put(&mut found, open);
    assert(chars@.take(chars@.len() as int) =~= text@);
    found
}

/// The pieces of `bytes` between the separators.
pub fn split_bytes(bytes: &Vec<u8>, separator: u8) -> (found: Vec<Vec<u8>>)
    ensures
        found.deep_view() == pieces(bytes@, separator),
{
    let mut found: Vec<Vec<u8>> = Vec::new();
    let mut open: Vec<u8> = Vec::new();
    let mut i: usize = 0;
    proof {
        assert(bytes@.take(0) =~= Seq::empty());
        assert(found.deep_view().push(open@) =~= pieces(bytes@.take(0), separator));
    }
    while i < bytes.len()
        invariant
            i <= bytes@.len(),
            found.deep_view().push(open@) == pieces(bytes@.take(i as int), separator),
        decreases bytes@.len() - i,
    {
        let ghost earlier = found.deep_view().push(open@);
        assert(bytes@.take(i + 1).drop_last() =~= bytes@.take(i as int));
        if bytes[i] == separator {
            assert(open.deep_view() =~= open@);
            put(&mut found, open);
            open = Vec::new();
        } else {
            open.push(bytes[i]);
            assert(earlier.drop_last() =~= found.deep_view());
        }
        i = i + 1;
    }
    assert(open.deep_view() =~= open@);
    put(&mut found, open);
    assert(bytes@.take(bytes@.len() as int) =~= bytes@);
    found
}

/// The sequences that hold something.
pub open spec fn nonempty<T>(s: Seq<Seq<T>>) -> Seq<Seq<T>> {
    s.filter(|piece: Seq<T>| piece.len() > 0)
}

/// A line without the carriage return before its line feed.
pub open spec fn without_return(line: Text) -> Text {
    if line.len() > 0 && line.last() == '\r' {
        line.drop_last()
    } else {
        line
    }
}

/// The lines of a text. A line ends at a line feed, or at a carriage return
/// and a line feed; what follows the last line feed is a line if it is not
/// empty.
pub open spec fn lines_of(s: Text) -> Seq<Text> {
    let found = pieces(s, '\n');
    let ended = found.drop_last().map_values(|line: Text| without_return(line));
    if found.last().len() == 0 {
        ended
    } else {
        ended.push(found.last())
    }
}

/// The lines of `text`.
pub fn lines(text: &str) -> (found: Vec<String>)
    ensures
        found.deep_view() == lines_of(text@),
{
    let parts = split(text, '\n');
    proof {
        pieces_nonempty(text@, '\n');
    }
    let mut found: Vec<String> = Vec::new();
    let mut i: usize = 0;
    let ghost ended = parts.deep_view().drop_last().map_values(|line: Text| without_return(line));
    while i < parts.len() - 1
        invariant
            parts@.len() >= 1,
            i <= parts@.len() - 1,
            ended == parts.deep_view().drop_last().map_values(
                |line: Text| without_return(line),
            ),
            found.deep_view() == ended.take(i as int),
        decreases parts@.len() - i,
    {
        let chars = chars_of(&parts[i]);
        let line = if chars.len() > 0 && chars[chars.len() - 1] == '\r' {
            part(&chars, 0, chars.len() - 1)
        } else {
            parts[i].clone()
        };
        assert(line@ =~= without_return(parts.deep_view()[i as int]));
        put(&mut found, line);
        i = i + 1;
        assert(ended.take(i as int) =~= ended.take(i - 1).push(ended[i - 1]));
    }
    assert(ended.take(ended.len() as int) =~= ended);
    let last = &parts[parts.len() - 1];
    assert(parts.deep_view().last() == last@);
    if chars_of(last).len() > 0 {
        put(&mut found, last.clone());
    }
    found
}

/// The pieces of a text between its white space, empty ones included.
pub open spec fn gaps(s: Text) -> Seq<Text>
    decreases s.len(),
{
    if s.len() == 0 {
        seq![Seq::empty()]
    } else {
        let earlier = gaps(s.drop_last());
        if is_space(s.last()) {
            earlier.push(Seq::empty())
        } else {
            earlier.drop_last().push(earlier.last().push(s.last()))
        }
    }
}

/// The words of a text: what stands between its white space.
pub open spec fn words_of(s: Text) -> Seq<Text> {
    nonempty(gaps(s))
}

/// The texts of the list that hold something.
pub fn keep_nonempty(texts: &Vec<String>) -> (kept: Vec<String>)
    ensures
        kept.deep_view() == nonempty(texts.deep_view()),
{
    let ghost filled = |piece: Text| piece.len() > 0;
    let mut kept: Vec<String> = Vec::new();
    let mut i: usize = 0;
    assert(texts.deep_view().take(0) =~= Seq::empty());
    assert(Seq::<Text>::empty().filter(filled) =~= Seq::empty()) by {
        reveal(Seq::filter);
    }
    assert(kept.deep_view() =~= Seq::empty());
    while i < texts.len()
        invariant
            i <= texts@.len(),
            filled == (|piece: Text| piece.len() > 0),
            kept.deep_view() == texts.deep_view().take(i as int).filter(filled),
        decreases texts@.len() - i,
    {
        let ghost now = texts.deep_view().take(i + 1);
        assert(now.drop_last() =~= texts.deep_view().take(i as int));
        assert(now.last() == texts[i as int]@);
        assert(now.filter(filled) == if filled(now.last()) {
            now.drop_last().filter(filled).push(now.last())
        } else {
            now.drop_last().filter(filled)
        }) by {
            reveal(Seq::filter);
        }
        if chars_of(&texts[i]).len() > 0 {
            put(&mut kept, texts[i].clone());
        }
        i = i + 1;
    }
    assert(texts.deep_view().take(texts@.len() as int) =~= texts.deep_view());
    kept
}

/// The words of `text`.
pub fn words(text: &str) -> (found: Vec<String>)
    ensures
        found.deep_view() == words_of(text@),
{
    let chars = chars_of(text);
    let mut found: Vec<String> = Vec::new();
    let mut open = String::new();
    let mut i: usize = 0;
    proof {
        assert(chars@.take(0) =~= Seq::empty());
        assert(open@ =~= Seq::<char>::empty());
        assert(found.deep_view().push(open@) =~= gaps(chars@.take(0)));
    }
    while i < chars.len()
        invariant
            i <= chars@.len(),
            found.deep_view().push(open@) == gaps(chars@.take(i as int)),
        decreases chars@.len() - i,
    {
        let ghost earlier = found.deep_view().push(open@);
        assert(chars@.take(i + 1).drop_last() =~= chars@.take(i as int));
        if space(chars[i]) {
            put(&mut found, open);
            open = String::new();
            assert(open@ =~= Seq::<char>::empty());
        } else {
            open.push(chars[i]);
            assert(earlier.drop_last() =~= found.deep_view());
        }
        i = i + 1;
    }
    put(&mut found, open);
    assert(chars@.take(chars@.len() as int) =~= text@);
    keep_nonempty(&found)
}

// ---------------------------------------------------------------------------
// Searching
// ---------------------------------------------------------------------------
/// Whether `needle` stands in `s` at `at`.
pub open spec fn stands_at<T>(s: Seq<T>, needle: Seq<T>, at: int) -> bool {
    &&& 0 <= at
    &&& at + needle.len() <= s.len()
    &&& s.subrange(at, at + needle.len()) == needle
}

/// Where `needle` stands first in `s`, at `from` or after.
pub open spec fn found_from<T>(s: Seq<T>, needle: Seq<T>, from: int) -> Option<int>
    decreases s.len() + 1 - from,
{
    if from + needle.len() > s.len() {
        None
    } else if stands_at(s, needle, from) {
        Some(from)
    } else {
        found_from(s, needle, from + 1)
    }
}

/// What was found stands there, and nowhere before.
pub proof fn found_is_first<T>(s: Seq<T>, needle: Seq<T>, from: int)
    requires
        0 <= from,
    ensures
        found_from(s, needle, from) matches Some(at) ==> {
            &&& from <= at
            &&& stands_at(s, needle, at)
            &&& forall|k: int| from <= k < at ==> !stands_at(s, needle, k)
        },
        found_from(s, needle, from) is None ==> forall|k: int|
            from <= k ==> !stands_at(s, needle, k),
    decreases s.len() + 1 - from,
{
    if from + needle.len() <= s.len() && !stands_at(s, needle, from) {
        found_is_first(s, needle, from + 1);
    }
}

/// Whether `needle` stands anywhere in `s`.
pub open spec fn has<T>(s: Seq<T>, needle: Seq<T>) -> bool {
    found_from(s, needle, 0) is Some
}

/// Where `needle` stands first in `chars`, at `from` or after.
fn find(chars: &Vec<char>, needle: &Vec<char>, from: usize) -> (at: Option<usize>)
    ensures
        match at {
            Some(at) => found_from(chars@, needle@, from as int) == Some(at as int),
            None => found_from(chars@, needle@, from as int) is None,
        },
        at matches Some(at) ==> at + needle@.len() <= chars@.len(),
{
    let n = needle.len();
    let len = chars.len();
    let mut i: usize = from;
    while i <= len && n <= len - i
        invariant
            n == needle@.len(),
            len == chars@.len(),
            found_from(chars@, needle@, from as int) == found_from(chars@, needle@, i as int),
        decreases chars@.len() + 1 - i,
    {
        let mut k: usize = 0;
        while k < n && chars[i + k] == needle[k]
            invariant
                k <= n,
                n == needle@.len(),
                len == chars@.len(),
                i + n <= len,
                forall|j: int| 0 <= j < k ==> chars@[i + j] == needle@[j],
            decreases n - k,
        {
            k = k + 1;
        }
        if k == n {
            assert(chars@.subrange(i as int, i + n) =~= needle@);
            return Some(i);
        }
        assert(chars@.subrange(i as int, i + n)[k as int] != needle@[k as int]);
        if i == len {
            assert(found_from(chars@, needle@, i + 1) is None);
            return None;
        }
        i = i + 1;
    }
    None
}

/// Whether `needle` stands anywhere in `text`.
pub fn contains(text: &str, needle: &str) -> (found: bool)
    ensures
        found == has(text@, needle@),
{
    find(&chars_of(text), &chars_of(needle), 0).is_some()
}

/// What stands before and after the first `separator` in `s`.
pub open spec fn cut(s: Text, separator: Text) -> Option<(Text, Text)> {
    match found_from(s, separator, 0) {
        Some(at) => Some((s.take(at), s.skip(at + separator.len()))),
        None => None,
    }
}

/// What stands before and after the first `separator` in `text`.
pub fn split_once(text: &str, separator: &str) -> (halves: Option<(String, String)>)
    ensures
        halves.deep_view() == cut(text@, separator@),
{
    let chars = chars_of(text);
    let needle = chars_of(separator);
    let len = chars.len();
    match find(&chars, &needle, 0) {
        Some(at) => {
            let head = part(&chars, 0, at);
            let tail = part(&chars, at + needle.len(), len);
            assert(head@ =~= text@.take(at as int));
            assert(tail@ =~= text@.skip(at + separator@.len()));
            Some((head, tail))
        },
        None => None,
    }
}

/// The chunks of a text between the separators, which are texts themselves.
pub open spec fn chunks(s: Text, separator: Text) -> Seq<Text>
    recommends
        separator.len() > 0,
    decreases s.len(),
    via chunks_shrink
{
    match cut(s, separator) {
        Some((head, tail)) => if separator.len() == 0 {
            seq![s]
        } else {
            seq![head] + chunks(tail, separator)
        },
        None => seq![s],
    }
}

#[via_fn]
proof fn chunks_shrink(s: Text, separator: Text) {
    found_is_first(s, separator, 0);
}

/// The chunks of `text` between the separators.
pub fn split_chunks(text: &str, separator: &str) -> (found: Vec<String>)
    requires
        separator@.len() > 0,
    ensures
        found.deep_view() == chunks(text@, separator@),
{
    let mut found: Vec<String> = Vec::new();
    let mut rest = text.to_owned();
    assert(found.deep_view() + chunks(rest@, separator@) =~= chunks(text@, separator@));
    loop
        invariant
            separator@.len() > 0,
            found.deep_view() + chunks(rest@, separator@) == chunks(text@, separator@),
        decreases rest@.len(),
    {
        match split_once(&rest, separator) {
            Some((head, tail)) => {
                let ghost done = found.deep_view();
                proof {
                    found_is_first(rest@, separator@, 0);
                }
                put(&mut found, head);
                assert(found.deep_view() + chunks(tail@, separator@) =~= done + chunks(
                    rest@,
                    separator@,
                ));
                rest = tail;
            },
            None => {
                let ghost done = found.deep_view();
                put(&mut found, rest);
                assert(found.deep_view() =~= done + seq![rest@]);
                return found;
            },
        }
    }
}

/// What stands before and after the last `separator` in `s`.
pub open spec fn cut_last(s: Text, separator: char) -> Option<(Text, Text)>
    decreases s.len(),
{
    if s.len() == 0 {
        None
    } else if s.last() == separator {
        Some((s.drop_last(), Seq::empty()))
    } else {
        match cut_last(s.drop_last(), separator) {
            Some((head, tail)) => Some((head, tail.push(s.last()))),
            None => None,
        }
    }
}

/// What stands before and after the last `separator` in `text`.
pub fn split_last(text: &str, separator: char) -> (halves: Option<(String, String)>)
    ensures
        halves.deep_view() == cut_last(text@, separator),
{
    let chars = chars_of(text);
    let mut last: Option<usize> = None;
    let mut i: usize = 0;
    while i < chars.len()
        invariant
            i <= chars@.len(),
            match last {
                Some(at) => at < i && cut_last(chars@.take(i as int), separator) == Some(
                    (chars@.take(at as int), chars@.subrange(at + 1, i as int)),
                ),
                None => cut_last(chars@.take(i as int), separator) is None,
            },
        decreases chars@.len() - i,
    {
        assert(chars@.take(i + 1).drop_last() =~= chars@.take(i as int));
        if chars[i] == separator {
            last = Some(i);
            assert(chars@.subrange(i + 1, i + 1) =~= Seq::empty());
        } else {
            if let Some(at) = last {
                assert(chars@.subrange(at + 1, i + 1) =~= chars@.subrange(at + 1, i as int).push(
                    chars@[i as int],
                ));
            }
        }
        i = i + 1;
    }
    assert(chars@.take(chars@.len() as int) =~= text@);
    match last {
        Some(at) => {
            let head = part(&chars, 0, at);
            let tail = part(&chars, at + 1, chars.len());
            assert(head@ =~= chars@.take(at as int));
            Some((head, tail))
        },
        None => None,
    }
}

/// What follows `prefix` in `s`, where `s` begins with it.
pub open spec fn after_prefix(s: Text, prefix: Text) -> Option<Text> {
    if prefix.is_prefix_of(s) {
        Some(s.skip(prefix.len() as int))
    } else {
        None
    }
}

/// Whether `text` begins with `prefix`.
pub fn starts_with(text: &str, prefix: &str) -> (begins: bool)
    ensures
        begins == prefix@.is_prefix_of(text@),
{
    let chars = chars_of(text);
    let wanted = chars_of(prefix);
    if chars.len() < wanted.len() {
        return false;
    }
    let mut i: usize = 0;
    while i < wanted.len()
        invariant
            i <= wanted@.len() <= chars@.len(),
            chars@ == text@,
            wanted@ == prefix@,
            forall|j: int| 0 <= j < i ==> chars@[j] == wanted@[j],
        decreases wanted@.len() - i,
    {
        if chars[i] != wanted[i] {
            assert(text@.subrange(0, prefix@.len() as int)[i as int] != prefix@[i as int]);
            return false;
        }
        i = i + 1;
    }
    assert(text@.subrange(0, prefix@.len() as int) =~= prefix@);
    true
}

/// Whether `bytes` begin with `prefix`.
pub fn bytes_start_with(bytes: &Vec<u8>, prefix: &Vec<u8>) -> (begins: bool)
    ensures
        begins == prefix@.is_prefix_of(bytes@),
{
    if bytes.len() < prefix.len() {
        return false;
    }
    let mut i: usize = 0;
    while i < prefix.len()
        invariant
            i <= prefix@.len() <= bytes@.len(),
            forall|j: int| 0 <= j < i ==> bytes@[j] == prefix@[j],
        decreases prefix@.len() - i,
    {
        if bytes[i] != prefix[i] {
            assert(bytes@.subrange(0, prefix@.len() as int)[i as int] != prefix@[i as int]);
            return false;
        }
        i = i + 1;
    }
    assert(bytes@.subrange(0, prefix@.len() as int) =~= prefix@);
    true
}

/// What follows `prefix` in `text`, where `text` begins with it.
pub fn strip_prefix(text: &str, prefix: &str) -> (rest: Option<String>)
    ensures
        rest.deep_view() == after_prefix(text@, prefix@),
{
    if starts_with(text, prefix) {
        let chars = chars_of(text);
        let rest = part(&chars, chars_of(prefix).len(), chars.len());
        assert(rest@ =~= text@.skip(prefix@.len() as int));
        Some(rest)
    } else {
        None
    }
}

// ---------------------------------------------------------------------------
// Putting together
// ---------------------------------------------------------------------------
/// The texts one after the other, with `separator` between each two.
pub open spec fn joined(texts: Seq<Text>, separator: Text) -> Text
    decreases texts.len(),
{
    if texts.len() == 0 {
        Seq::empty()
    } else if texts.len() == 1 {
        texts[0]
    } else {
        joined(texts.drop_last(), separator) + separator + texts.last()
    }
}

/// The texts one after the other, with `separator` between each two.
pub fn join(texts: &Vec<String>, separator: &str) -> (text: String)
    ensures
        text@ == joined(texts.deep_view(), separator@),
{
    let mut text = String::new();
    let mut i: usize = 0;
    assert(text@ =~= joined(texts.deep_view().take(0), separator@));
    while i < texts.len()
        invariant
            i <= texts@.len(),
            text@ == joined(texts.deep_view().take(i as int), separator@),
        decreases texts@.len() - i,
    {
        let ghost now = texts.deep_view().take(i + 1);
        assert(now.drop_last() =~= texts.deep_view().take(i as int));
        assert(now.last() == texts[i as int]@);
        if i > 0 {
            text.append(separator);
        }
        text.append(&texts[i]);
        if i == 0 {
            assert(text@ =~= now[0]);
        }
        i = i + 1;
    }
    assert(texts.deep_view().take(texts@.len() as int) =~= texts.deep_view());
    text
}

/// Every `from` of the text replaced by `to`.
pub open spec fn replaced_char(s: Text, from: char, to: Text) -> Text
    decreases s.len(),
{
    if s.len() == 0 {
        Seq::empty()
    } else {
        replaced_char(s.drop_last(), from, to) + if s.last() == from {
            to
        } else {
            seq![s.last()]
        }
    }
}

/// `text` with every `from` replaced by `to`.
pub fn replace_char(text: &str, from: char, to: &str) -> (changed: String)
    ensures
        changed@ == replaced_char(text@, from, to@),
{
    let chars = chars_of(text);
    let mut changed = String::new();
    let mut i: usize = 0;
    assert(changed@ =~= Seq::<char>::empty());
    while i < chars.len()
        invariant
            i <= chars@.len(),
            changed@ == replaced_char(chars@.take(i as int), from, to@),
        decreases chars@.len() - i,
    {
        assert(chars@.take(i + 1).drop_last() =~= chars@.take(i as int));
        let ghost earlier = changed@;
        if chars[i] == from {
            changed.append(to);
        } else {
            changed.push(chars[i]);
            assert(changed@ =~= earlier + seq![chars@[i as int]]);
        }
        i = i + 1;
    }
    assert(chars@.take(chars@.len() as int) =~= text@);
    changed
}

// ---------------------------------------------------------------------------
// Bytes in a text
// ---------------------------------------------------------------------------
/// How many bytes a character takes.
pub open spec fn width(c: char) -> nat {
    let code = c as u32;
    if code < 0x80 {
        1
    } else if code < 0x800 {
        2
    } else if code < 0x1_0000 {
        3
    } else {
        4
    }
}

/// How many characters the first `bytes` bytes of a text are, where they are
/// whole characters.
pub open spec fn chars_in(s: Text, bytes: nat) -> Option<int>
    decreases s.len(),
{
    if bytes == 0 {
        Some(0)
    } else if s.len() == 0 || width(s[0]) > bytes {
        None
    } else {
        match chars_in(s.drop_first(), (bytes - width(s[0])) as nat) {
            Some(count) => Some(1 + count),
            None => None,
        }
    }
}

/// How many characters the first `bytes` bytes of `chars` are, where they are
/// whole characters.
fn count_chars(chars: &Vec<char>, bytes: usize) -> (count: Option<usize>)
    ensures
        match count {
            Some(count) => chars_in(chars@, bytes as nat) == Some(count as int) && count
                <= chars@.len(),
            None => chars_in(chars@, bytes as nat) is None,
        },
{
    let mut left: usize = bytes;
    let mut i: usize = 0;
    assert(chars@.skip(0) =~= chars@);
    while left > 0
        invariant
            i <= chars@.len(),
            match chars_in(chars@.skip(i as int), left as nat) {
                Some(more) => chars_in(chars@, bytes as nat) == Some(i + more),
                None => chars_in(chars@, bytes as nat) is None,
            },
        decreases left,
    {
        if i == chars.len() {
            return None;
        }
        let code = chars[i] as u32;
        let wide: usize = if code < 0x80 {
            1
        } else if code < 0x800 {
            2
        } else if code < 0x1_0000 {
            3
        } else {
            4
        };
        assert(wide == width(chars@.skip(i as int)[0]));
        if wide > left {
            return None;
        }
        assert(chars@.skip(i as int).drop_first() =~= chars@.skip(i + 1));
        left = left - wide;
        i = i + 1;
    }
    Some(i)
}

/// What follows the first `bytes` bytes of a text, where they are whole
/// characters.
pub open spec fn after_bytes(s: Text, bytes: nat) -> Option<Text> {
    match chars_in(s, bytes) {
        Some(count) => Some(s.skip(count)),
        None => None,
    }
}

/// The first `bytes` bytes of a text, where they are whole characters.
pub open spec fn first_bytes(s: Text, bytes: nat) -> Option<Text> {
    match chars_in(s, bytes) {
        Some(count) => Some(s.take(count)),
        None => None,
    }
}

/// What follows the first `bytes` bytes of `text`.
pub fn skip_bytes(text: &str, bytes: usize) -> (rest: Option<String>)
    ensures
        rest.deep_view() == after_bytes(text@, bytes as nat),
{
    let chars = chars_of(text);
    match count_chars(&chars, bytes) {
        Some(count) => {
            let rest = part(&chars, count, chars.len());
            assert(rest@ =~= text@.skip(count as int));
            Some(rest)
        },
        None => None,
    }
}

/// The first `bytes` bytes of `text`.
pub fn take_bytes(text: &str, bytes: usize) -> (head: Option<String>)
    ensures
        head.deep_view() == first_bytes(text@, bytes as nat),
{
    let chars = chars_of(text);
    match count_chars(&chars, bytes) {
        Some(count) => {
            let head = part(&chars, 0, count);
            assert(head@ =~= text@.take(count as int));
            Some(head)
        },
        None => None,
    }
}

} // verus!
