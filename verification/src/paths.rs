//! Paths as texts.
//!
//! A path is a text with `/` between its components. The filesystem's names
//! are bytes, and not all of them are UTF-8; [`from_bytes`] writes any of them
//! as a text, and [`to_bytes`] reads the bytes back.

use vstd::prelude::*;

use crate::compose::{cat2, cat3};
use crate::parts::{
    cut_last, pieces, pieces_nonempty, replace_char, replaced_char, split, split_last, starts_with,
};
use crate::text::{
    bytes_of, chars_of, lossy, part, put, same, same_texts, utf8, utf8_lossy, Text,
};

verus! {

/// The character that marks the next one as a byte of its own. No name of a
/// file, no argument and no variable holds it; bytes that do are spelled out too.
pub const MARK: char = '\0';

/// Bytes written one by one: ASCII as it is, any other byte behind a mark.
pub open spec fn spelled(bytes: Seq<u8>) -> Text
    decreases bytes.len(),
{
    if bytes.len() == 0 {
        Seq::empty()
    } else {
        (if bytes[0] < 128 {
            seq![bytes[0] as char]
        } else {
            seq![MARK, bytes[0] as char]
        }) + spelled(bytes.drop_first())
    }
}

/// The text of a name: what its bytes encode where they are UTF-8 and hold no
/// mark, and the bytes spelled out where not.
pub open spec fn text_of_bytes(bytes: Seq<u8>) -> Text {
    if vstd::utf8::valid_utf8(bytes) && !vstd::utf8::decode_utf8(bytes).contains(MARK) {
        vstd::utf8::decode_utf8(bytes)
    } else {
        spelled(bytes)
    }
}

/// The bytes of a text that may hold spelled out bytes.
pub open spec fn bytes_of_text(s: Text) -> Seq<u8>
    decreases s.len(),
{
    if s.len() == 0 {
        Seq::empty()
    } else if s.len() > 1 && s[0] == MARK && 128 <= (s[1] as u32) < 256 {
        seq![s[1] as u8] + bytes_of_text(s.skip(2))
    } else {
        vstd::utf8::encode_scalar(s[0] as u32) + bytes_of_text(s.drop_first())
    }
}

proof fn spelled_reads_back(bytes: Seq<u8>)
    ensures
        bytes_of_text(spelled(bytes)) == bytes,
    decreases bytes.len(),
{
    if bytes.len() > 0 {
        let first = bytes[0];
        let rest = bytes.drop_first();
        spelled_reads_back(rest);
        assert(bytes =~= seq![first] + rest);
        if first < 128 {
            assert(spelled(bytes).drop_first() =~= spelled(rest));
            assert(rest.len() > 0 ==> (spelled(rest)[0] as u32) < 128);
            let code = (first as char) as u32;
            assert(vstd::utf8::encode_scalar(code) =~= seq![first]) by {
                assert(code == first);
                assert((code & 0x7F) as u8 == code) by (bit_vector)
                    requires
                        code < 128,
                ;
            }
        } else {
            assert(spelled(bytes).skip(2) =~= spelled(rest));
            assert(spelled(bytes)[0] == MARK);
            assert(spelled(bytes)[1] == first as char);
            assert(128 <= (spelled(bytes)[1] as u32) < 256);
            assert(spelled(bytes)[1] as u8 == first);
        }
    }
}

proof fn unmarked_encodes(s: Text)
    requires
        !s.contains(MARK),
    ensures
        bytes_of_text(s) == vstd::utf8::encode_utf8(s),
    decreases s.len(),
{
    if s.len() > 0 {
        assert(s.contains(s[0]));
        assert forall|i: int| 0 <= i < s.len() - 1 implies s.drop_first()[i] != MARK by {
            assert(s.contains(s[i + 1]));
        }
        unmarked_encodes(s.drop_first());
    }
}

/// A name comes back from its text byte by byte.
pub proof fn names_survive(bytes: Seq<u8>)
    ensures
        bytes_of_text(text_of_bytes(bytes)) == bytes,
{
    spelled_reads_back(bytes);
    if vstd::utf8::valid_utf8(bytes) {
        vstd::utf8::decode_utf8_encode_utf8(bytes);
        if !vstd::utf8::decode_utf8(bytes).contains(MARK) {
            unmarked_encodes(vstd::utf8::decode_utf8(bytes));
        }
    }
}

/// The text of a name.
pub fn from_bytes(bytes: &Vec<u8>) -> (text: String)
    ensures
        text@ == text_of_bytes(bytes@),
{
    if let Some(text) = utf8(bytes) {
        let chars = chars_of(&text);
        let mut i: usize = 0;
        while i < chars.len() && chars[i] != MARK
            invariant
                i <= chars@.len(),
                forall|j: int| 0 <= j < i ==> chars@[j] != MARK,
            decreases chars@.len() - i,
        {
            i = i + 1;
        }
        if i == chars.len() {
            return text;
        }
        assert(text@.contains(chars@[i as int]));
    }
    let mut text = String::new();
    let mut i: usize = 0;
    assert(bytes@.skip(0) =~= bytes@);
    assert(text@ + spelled(bytes@.skip(0)) =~= spelled(bytes@));
    while i < bytes.len()
        invariant
            i <= bytes@.len(),
            text@ + spelled(bytes@.skip(i as int)) == spelled(bytes@),
        decreases bytes@.len() - i,
    {
        let byte = bytes[i];
        let ghost rest = bytes@.skip(i as int);
        let ghost done = text@;
        assert(rest.drop_first() =~= bytes@.skip(i + 1));
        if byte >= 128 {
            text.push(MARK);
        }
        text.push(byte as char);
        assert(text@ + spelled(bytes@.skip(i + 1)) =~= done + spelled(rest));
        i = i + 1;
    }
    assert(bytes@.skip(bytes@.len() as int) =~= Seq::empty());
    assert(text@ + Seq::empty() =~= text@);
    text
}

/// The bytes of a text that may hold spelled out bytes.
pub fn to_bytes(text: &str) -> (bytes: Vec<u8>)
    ensures
        bytes@ == bytes_of_text(text@),
{
    let chars = chars_of(text);
    let len = chars.len();
    let mut bytes: Vec<u8> = Vec::new();
    let mut i: usize = 0;
    assert(chars@.skip(0) =~= chars@);
    assert(bytes@ + bytes_of_text(chars@.skip(0)) =~= bytes_of_text(chars@));
    while i < len
        invariant
            i <= len,
            len == chars@.len(),
            bytes@ + bytes_of_text(chars@.skip(i as int)) == bytes_of_text(chars@),
        decreases len - i,
    {
        let ghost rest = chars@.skip(i as int);
        let ghost done = bytes@;
        if i < len - 1 && chars[i] == MARK && (chars[i + 1] as u32) >= 128 && (chars[i + 1] as u32)
            < 256 {
            bytes.push(chars[i + 1] as u8);
            assert(rest.skip(2) =~= chars@.skip(i + 2));
            assert(bytes@ + bytes_of_text(chars@.skip(i + 2)) =~= done + bytes_of_text(rest));
            i = i + 2;
        } else {
            let one = part(&chars, i, i + 1);
            let encoded = bytes_of(&one);
            assert(one@ =~= seq![chars@[i as int]]);
            assert(encoded@ =~= vstd::utf8::encode_scalar(chars@[i as int] as u32)) by {
                assert(one@.drop_first() =~= Seq::empty());
                reveal_with_fuel(vstd::utf8::encode_utf8, 2);
            }
            let mut k: usize = 0;
            while k < encoded.len()
                invariant
                    k <= encoded@.len(),
                    bytes@ == done + encoded@.take(k as int),
                decreases encoded@.len() - k,
            {
                bytes.push(encoded[k]);
                k = k + 1;
                assert(bytes@ =~= done + encoded@.take(k as int));
            }
            assert(encoded@.take(encoded@.len() as int) =~= encoded@);
            assert(rest.drop_first() =~= chars@.skip(i + 1));
            assert(bytes@ + bytes_of_text(chars@.skip(i + 1)) =~= done + bytes_of_text(rest));
            i = i + 1;
        }
    }
    assert(chars@.skip(len as int) =~= Seq::empty());
    assert(bytes@ + Seq::empty() =~= bytes@);
    bytes
}

/// The path that a text names which stands for itself, as git prints one.
pub open spec fn path_named(text: Text) -> Text {
    text_of_bytes(vstd::utf8::encode_utf8(text))
}

/// The path that a text names which stands for itself.
pub fn from_text(text: &str) -> (path: String)
    ensures
        path@ == path_named(text@),
{
    from_bytes(&bytes_of(text))
}

/// A text names the path that has its bytes, and is that path itself where it
/// holds no mark.
pub proof fn texts_name_their_bytes(text: Text)
    ensures
        bytes_of_text(path_named(text)) == vstd::utf8::encode_utf8(text),
        displayed(path_named(text)) == text,
        !text.contains(MARK) ==> path_named(text) == text,
{
    names_survive(vstd::utf8::encode_utf8(text));
    vstd::utf8::encode_utf8_valid_utf8(text);
    vstd::utf8::encode_utf8_decode_utf8(text);
}

// ---------------------------------------------------------------------------
// Components
// ---------------------------------------------------------------------------
/// Whether a path starts at the root.
pub open spec fn is_absolute(path: Text) -> bool {
    "/"@.is_prefix_of(path)
}

pub fn absolute(path: &str) -> (yes: bool)
    ensures
        yes == is_absolute(path@),
{
    starts_with(path, "/")
}

/// `tail` inside `head`, unless `tail` starts at the root.
pub open spec fn inside(head: Text, tail: Text) -> Text {
    if is_absolute(tail) || head.len() == 0 {
        tail
    } else if head.last() == '/' {
        head + tail
    } else {
        head + "/"@ + tail
    }
}

/// `tail` inside `head`, unless `tail` starts at the root.
pub fn join_path(head: &str, tail: &str) -> (path: String)
    ensures
        path@ == inside(head@, tail@),
{
    let chars = chars_of(head);
    if absolute(tail) || chars.len() == 0 {
        tail.to_owned()
    } else if chars[chars.len() - 1] == '/' {
        cat2(head, tail)
    } else {
        cat3(head, "/", tail)
    }
}

/// A path without what adds no component at its end.
pub open spec fn tidy(path: Text) -> Text
    decreases path.len(),
{
    if path.len() > 0 && path.last() == '/' {
        tidy(path.drop_last())
    } else if path.len() > 1 && path.last() == '.' && path[path.len() - 2] == '/' {
        tidy(path.drop_last())
    } else {
        path
    }
}

fn tidied(path: &str) -> (text: String)
    ensures
        text@ == tidy(path@),
{
    let chars = chars_of(path);
    let mut end = chars.len();
    assert(chars@.take(end as int) =~= chars@);
    while end > 0 && (chars[end - 1] == '/' || (end > 1 && chars[end - 1] == '.' && chars[end - 2]
        == '/'))
        invariant
            end <= chars@.len(),
            tidy(path@) == tidy(chars@.take(end as int)),
        decreases end,
    {
        assert(chars@.take(end as int).drop_last() =~= chars@.take(end - 1));
        end = end - 1;
    }
    let text = part(&chars, 0, end);
    assert(text@ =~= chars@.take(end as int));
    text
}

/// The directory that a path stands in, where it names something in one.
pub open spec fn parent_of(path: Text) -> Option<Text> {
    let path = tidy(path);
    if path.len() == 0 {
        None
    } else {
        match cut_last(path, '/') {
            Some((head, _)) => Some(
                if tidy(head).len() == 0 {
                    "/"@
                } else {
                    tidy(head)
                },
            ),
            None => Some(Seq::empty()),
        }
    }
}

/// The directory that a path stands in, where it names something in one.
pub fn parent(path: &str) -> (found: Option<String>)
    ensures
        found.deep_view() == parent_of(path@),
{
    let path = tidied(path);
    if path.as_str().is_empty() {
        None
    } else {
        match split_last(&path, '/') {
            Some((head, _)) => {
                let head = tidied(&head);
                if head.as_str().is_empty() {
                    Some("/".to_owned())
                } else {
                    Some(head)
                }
            },
            None => {
                let nothing = String::new();
                assert(nothing@ =~= Seq::<char>::empty());
                Some(nothing)
            },
        }
    }
}

/// What a path ends with.
pub open spec fn last_of(path: Text) -> Text {
    match cut_last(tidy(path), '/') {
        Some((_, tail)) => tail,
        None => tidy(path),
    }
}

/// The last component of a path, where it is a name.
pub open spec fn file_name_of(path: Text) -> Option<Text> {
    let last = last_of(path);
    if last.len() == 0 || last == "."@ || last == ".."@ {
        None
    } else {
        Some(last)
    }
}

/// The last component of a path, where it is a name.
pub fn file_name(path: &str) -> (name: Option<String>)
    ensures
        name.deep_view() == file_name_of(path@),
{
    let path = tidied(path);
    let last = match split_last(&path, '/') {
        Some((_, tail)) => tail,
        None => path,
    };
    if last.as_str().is_empty() || same(&last, ".") || same(&last, "..") {
        None
    } else {
        Some(last)
    }
}

/// Whether a path ends with this.
pub fn ends_in(path: &str, name: &str) -> (yes: bool)
    ensures
        yes == (last_of(path@) == name@),
{
    let path = tidied(path);
    let last = match split_last(&path, '/') {
        Some((_, tail)) => tail,
        None => path,
    };
    same(&last, name)
}

/// The path with `extension` in place of that of its name.
pub open spec fn with_extension_of(path: Text, extension: Text) -> Text {
    match file_name_of(path) {
        Some(name) => {
            let stem = match cut_last(name, '.') {
                Some((head, _)) => if head.len() == 0 {
                    name
                } else {
                    head
                },
                None => name,
            };
            let kept = tidy(path);
            kept.take(kept.len() - name.len()) + stem + "."@ + extension
        },
        None => path,
    }
}

/// What stands behind the last separator is no longer than the whole.
proof fn tail_is_shorter(s: Text, separator: char)
    ensures
        cut_last(s, separator) matches Some((head, tail)) ==> head.len() + 1 + tail.len()
            == s.len(),
    decreases s.len(),
{
    if s.len() > 0 {
        tail_is_shorter(s.drop_last(), separator);
    }
}

/// The path with `extension` in place of that of its name.
pub fn with_extension(path: &str, extension: &str) -> (changed: String)
    ensures
        changed@ == with_extension_of(path@, extension@),
{
    match file_name(path) {
        Some(name) => {
            let stem = match split_last(&name, '.') {
                Some((head, _)) => if head.as_str().is_empty() {
                    name.clone()
                } else {
                    head
                },
                None => name.clone(),
            };
            let kept = chars_of(&tidied(path));
            let length = chars_of(&name).len();
            proof {
                tail_is_shorter(tidy(path@), '/');
            }
            let head = part(&kept, 0, kept.len() - length);
            assert(head@ =~= tidy(path@).take(tidy(path@).len() - name@.len()));
            cat2(&cat3(&head, &stem, "."), extension)
        },
        None => path.to_owned(),
    }
}

/// What paths are ordered by: their components, one after the other.
pub open spec fn order_key(path: Text) -> Text {
    replaced_char(path, '/', seq!['\0'])
}

/// What paths are ordered by.
pub fn key_of(path: &str) -> (key: String)
    ensures
        key@ == order_key(path@),
{
    proof {
        reveal_strlit("\0");
        assert("\0"@ =~= seq!['\0']);
    }
    replace_char(path, '/', "\0")
}

/// The names in a path, the empty ones and those that stay where they are left
/// out.
pub open spec fn names_in_path(path: Text) -> Seq<Text> {
    pieces(path, '/').filter(|name: Text| name.len() > 0 && name != "."@)
}

/// Whether a path starts in the current directory by name.
pub open spec fn starts_here(path: Text) -> bool {
    pieces(path, '/')[0] == "."@
}

/// Whether two paths are the same, component by component.
pub open spec fn is_same_path(a: Text, b: Text) -> bool {
    &&& is_absolute(a) == is_absolute(b)
    &&& starts_here(a) == starts_here(b)
    &&& names_in_path(a) == names_in_path(b)
}

fn path_names(path: &str) -> (result: (Vec<String>, bool))
    ensures
        result.0.deep_view() == names_in_path(path@),
        result.1 == starts_here(path@),
{
    let found = split(path, '/');
    proof {
        pieces_nonempty(path@, '/');
    }
    let ghost all = found.deep_view();
    let ghost named = |name: Text| name.len() > 0 && name != "."@;
    let mut names: Vec<String> = Vec::new();
    let mut i: usize = 0;
    assert(all.take(0) =~= Seq::empty());
    assert(names.deep_view() =~= all.take(0).filter(named)) by {
        reveal(Seq::filter);
    }
    while i < found.len()
        invariant
            i <= found@.len(),
            all == found.deep_view(),
            named == (|name: Text| name.len() > 0 && name != "."@),
            names.deep_view() == all.take(i as int).filter(named),
        decreases found@.len() - i,
    {
        let ghost before = names.deep_view();
        assert(all.take(i + 1).drop_last() =~= all.take(i as int));
        assert(all.take(i + 1).last() == found[i as int]@);
        if !found[i].as_str().is_empty() && !same(&found[i], ".") {
            put(&mut names, found[i].clone());
        }
        i = i + 1;
        assert(names.deep_view() =~= all.take(i as int).filter(named)) by {
            reveal(Seq::filter);
        }
    }
    assert(all.take(all.len() as int) =~= all);
    assert(all[0] == found[0]@);
    let here = same(&found[0], ".");
    (names, here)
}

/// Whether two paths are the same, component by component.
pub fn same_path(a: &str, b: &str) -> (equal: bool)
    ensures
        equal == is_same_path(a@, b@),
{
    let (first, first_here) = path_names(a);
    let (second, second_here) = path_names(b);
    absolute(a) == absolute(b) && first_here == second_here && same_texts(&first, &second)
}

/// A path as it is shown: what is no text in it becomes a replacement mark.
pub open spec fn displayed(path: Text) -> Text {
    if vstd::utf8::valid_utf8(bytes_of_text(path)) {
        vstd::utf8::decode_utf8(bytes_of_text(path))
    } else {
        utf8_lossy(bytes_of_text(path))
    }
}

/// A text without spelled out bytes is shown as it is.
pub proof fn texts_are_shown_as_they_are(path: Text)
    requires
        !path.contains(MARK),
    ensures
        displayed(path) == path,
{
    unmarked_encodes(path);
    vstd::utf8::encode_utf8_valid_utf8(path);
    vstd::utf8::encode_utf8_decode_utf8(path);
}

/// A path as it is shown.
pub fn display(path: &str) -> (text: String)
    ensures
        text@ == displayed(path@),
{
    lossy(&to_bytes(path))
}

} // verus!
