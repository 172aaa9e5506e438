//! Parsing and transformation of repository-local merge configuration.

use vstd::prelude::*;

use crate::compose::{cat2, cat3};
use crate::parts::{bytes_start_with, pieces, split_bytes};
use crate::session::copy_bytes;
use crate::text::{bytes_of, lossy, put, utf8_lossy, Text};

verus! {

/// The bytes that the format gives a meaning.
pub const BACKSPACE: u8 = 8;

pub const TAB: u8 = 9;

pub const LINE_FEED: u8 = 10;

pub const QUOTE: u8 = 34;

pub const DOT: u8 = 46;

pub const BACKSLASH: u8 = 92;

pub const LETTER_B: u8 = 98;

pub const LETTER_N: u8 = 110;

pub const LETTER_T: u8 = 116;

/// One setting. A key may stand without a value.
#[derive(Debug, PartialEq, Eq)]
pub struct Entry {
    pub key: Vec<u8>,
    pub value: Option<Vec<u8>>,
}

/// The model of an [`Entry`].
pub struct EntryModel {
    pub key: Seq<u8>,
    pub value: Option<Seq<u8>>,
}

impl DeepView for Entry {
    type V = EntryModel;

    open spec fn deep_view(&self) -> EntryModel {
        EntryModel {
            key: self.key@,
            value: match self.value {
                Some(value) => Some(value@),
                None => None,
            },
        }
    }
}

/// How std shows a text to a programmer.
pub uninterp spec fn debug_text(text: Text) -> Text;

/// The `Debug` formatting of std for a text. Which characters it escapes and how
/// is named and not stated.
#[verifier::external_body]
pub(crate) fn shown(text: &str) -> (quoted: String)
    ensures
        quoted@ == debug_text(text@),
{
    format!("{text:?}")
}

// ---------------------------------------------------------------------------
// Parsing
// ---------------------------------------------------------------------------
/// Where the first line feed stands, or the end.
pub open spec fn line_length(s: Seq<u8>) -> int
    decreases s.len(),
{
    if s.len() == 0 || s[0] == LINE_FEED {
        0
    } else {
        1 + line_length(s.drop_first())
    }
}

/// The setting that a record holds: the key up to the first line feed, and the
/// value behind it where there is one.
pub open spec fn entry_of(record: Seq<u8>) -> EntryModel {
    let end = line_length(record);
    if end < record.len() {
        EntryModel { key: record.take(end), value: Some(record.skip(end + 1)) }
    } else {
        EntryModel { key: record, value: None }
    }
}

pub open spec fn truncated(origin: Seq<u8>) -> Text {
    "repository-local merge config from "@ + debug_text(utf8_lossy(origin)) + " was truncated"@
}

/// The settings in the fields of a listing, after those in `done`: where each
/// comes from, and its record. Empty fields do not count as origins.
pub open spec fn entries_from(fields: Seq<Seq<u8>>, done: Seq<EntryModel>) -> Result<
    Seq<EntryModel>,
    Text,
>
    decreases fields.len(),
{
    if fields.len() == 0 {
        Ok(done)
    } else if fields[0].len() == 0 {
        entries_from(fields.drop_first(), done)
    } else if fields.len() == 1 {
        Err(truncated(fields[0]))
    } else {
        entries_from(fields.skip(2), done.push(entry_of(fields[1])))
    }
}

fn read_entry(record: &Vec<u8>) -> (entry: Entry)
    ensures
        entry.deep_view() == entry_of(record@),
{
    let len = record.len();
    let mut end: usize = 0;
    assert(record@.skip(0) =~= record@);
    while end < len && record[end] != LINE_FEED
        invariant
            end <= len,
            len == record@.len(),
            line_length(record@) == end + line_length(record@.skip(end as int)),
        decreases len - end,
    {
        assert(record@.skip(end as int).drop_first() =~= record@.skip(end + 1));
        end = end + 1;
    }
    if end < len {
        let mut key: Vec<u8> = Vec::new();
        let mut value: Vec<u8> = Vec::new();
        let mut i: usize = 0;
        while i < end
            invariant
                i <= end < record@.len(),
                key@ == record@.take(i as int),
            decreases end - i,
        {
            key.push(record[i]);
            i = i + 1;
        }
        i = end + 1;
        while i < len
            invariant
                end < i <= len,
                len == record@.len(),
                value@ == record@.subrange(end + 1, i as int),
            decreases len - i,
        {
            value.push(record[i]);
            i = i + 1;
        }
        assert(value@ =~= record@.skip(end + 1));
        Entry { key, value: Some(value) }
    } else {
        Entry { key: copy_bytes(record), value: None }
    }
}

/// Reads the listing of `git config --show-origin -z`.
pub fn parse(output: &Vec<u8>) -> (entries: Result<Vec<Entry>, String>)
    ensures
        match entries {
            Ok(entries) => entries_from(pieces(output@, 0u8), Seq::empty()) == Ok::<
                Seq<EntryModel>,
                Text,
            >(entries.deep_view()),
            Err(message) => entries_from(pieces(output@, 0u8), Seq::empty()) == Err::<
                Seq<EntryModel>,
                Text,
            >(message@),
        },
{
    let fields = split_bytes(output, 0);
    let len = fields.len();
    let ghost all = fields.deep_view();
    let mut entries: Vec<Entry> = Vec::new();
    let mut i: usize = 0;
    assert(all.skip(0) =~= all);
    assert(entries.deep_view() =~= Seq::empty());
    while i < len
        invariant
            i <= len,
            len == fields@.len(),
            all == fields.deep_view(),
            all == pieces(output@, 0u8),
            entries_from(all, Seq::empty()) == entries_from(
                all.skip(i as int),
                entries.deep_view(),
            ),
        decreases len - i,
    {
        let ghost rest = all.skip(i as int);
        assert(rest[0] =~= fields[i as int]@);
        assert(rest.drop_first() =~= all.skip(i + 1));
        if fields[i].len() == 0 {
            i = i + 1;
        } else if i == len - 1 {
            return Err(
                cat3(
                    "repository-local merge config from ",
                    &shown(&lossy(&fields[i])),
                    " was truncated",
                ),
            );
        } else {
            assert(rest[1] =~= fields[i + 1]@);
            assert(rest.skip(2) =~= all.skip(i + 2));
            put(&mut entries, read_entry(&fields[i + 1]));
            i = i + 2;
        }
    }
    Ok(entries)
}

// ---------------------------------------------------------------------------
// Writing
// ---------------------------------------------------------------------------
/// A byte as it stands between quotes in a value.
pub open spec fn value_byte(byte: u8) -> Seq<u8> {
    if byte == LINE_FEED {
        seq![BACKSLASH, LETTER_N]
    } else if byte == TAB {
        seq![BACKSLASH, LETTER_T]
    } else if byte == BACKSPACE {
        seq![BACKSLASH, LETTER_B]
    } else if byte == BACKSLASH {
        seq![BACKSLASH, BACKSLASH]
    } else if byte == QUOTE {
        seq![BACKSLASH, QUOTE]
    } else {
        seq![byte]
    }
}

/// Bytes as they stand between quotes in a value.
pub open spec fn value_body(value: Seq<u8>) -> Seq<u8>
    decreases value.len(),
{
    if value.len() == 0 {
        Seq::empty()
    } else {
        value_body(value.drop_last()) + value_byte(value.last())
    }
}

/// A value between quotes.
pub open spec fn quoted_value(value: Seq<u8>) -> Seq<u8> {
    seq![QUOTE] + value_body(value) + seq![QUOTE]
}

/// A byte as it stands in the name of a subsection.
pub open spec fn name_byte(byte: u8) -> Seq<u8> {
    if byte == BACKSLASH || byte == QUOTE {
        seq![BACKSLASH, byte]
    } else {
        seq![byte]
    }
}

/// Bytes as they stand in the name of a subsection.
pub open spec fn name_body(name: Seq<u8>) -> Seq<u8>
    decreases name.len(),
{
    if name.len() == 0 {
        Seq::empty()
    } else {
        name_body(name.drop_last()) + name_byte(name.last())
    }
}

/// The section and the variable of a key: what stands before and after its last
/// dot.
pub open spec fn key_parts(key: Seq<u8>) -> Option<(Seq<u8>, Seq<u8>)>
    decreases key.len(),
{
    if key.len() == 0 {
        None
    } else if key.last() == DOT {
        Some((key.drop_last(), Seq::empty()))
    } else {
        match key_parts(key.drop_last()) {
            Some((section, variable)) => Some((section, variable.push(key.last()))),
            None => None,
        }
    }
}

/// The header of a section, where it is one of merge settings: of all of them,
/// or of one driver.
pub open spec fn header_of(section: Seq<u8>) -> Option<Seq<u8>> {
    let merge = vstd::utf8::encode_utf8("merge"@);
    let driver = vstd::utf8::encode_utf8("merge."@);
    if section == merge {
        Some(vstd::utf8::encode_utf8("[merge]"@))
    } else if driver.is_prefix_of(section) {
        Some(
            vstd::utf8::encode_utf8("[merge \""@) + name_body(section.skip(driver.len() as int))
                + vstd::utf8::encode_utf8("\"]"@),
        )
    } else {
        None
    }
}

/// What is written for a setting under its header.
pub open spec fn line_of(variable: Seq<u8>, value: Option<Seq<u8>>) -> Seq<u8> {
    seq![LINE_FEED, TAB] + variable + (match value {
        Some(value) => vstd::utf8::encode_utf8(" = "@) + quoted_value(value),
        None => Seq::empty(),
    }) + seq![LINE_FEED]
}

pub open spec fn no_variable(key: Seq<u8>) -> Text {
    "repository-local merge config key has no variable: "@ + debug_text(utf8_lossy(key))
}

pub open spec fn not_merge(key: Seq<u8>) -> Text {
    "repository-local merge config key is not a merge setting: "@ + debug_text(utf8_lossy(key))
}

/// What is written for a setting.
pub open spec fn entry_text(entry: EntryModel) -> Result<Seq<u8>, Text> {
    match key_parts(entry.key) {
        None => Err(no_variable(entry.key)),
        Some((section, variable)) => match header_of(section) {
            None => Err(not_merge(entry.key)),
            Some(header) => Ok(header + line_of(variable, entry.value)),
        },
    }
}

/// A configuration with settings behind it; the first that cannot be written
/// says why.
pub open spec fn appended_from(config: Seq<u8>, entries: Seq<EntryModel>) -> Result<Seq<u8>, Text>
    decreases entries.len(),
{
    if entries.len() == 0 {
        Ok(config)
    } else {
        match entry_text(entries[0]) {
            Err(message) => Err(message),
            Ok(text) => appended_from(config + text, entries.drop_first()),
        }
    }
}

/// A configuration whose last line is ended.
pub open spec fn line_ended(config: Seq<u8>) -> Seq<u8> {
    if config.len() > 0 && config.last() != LINE_FEED {
        config.push(LINE_FEED)
    } else {
        config
    }
}

/// Appends bytes to bytes.
fn extend(bytes: &mut Vec<u8>, more: &Vec<u8>)
    ensures
        final(bytes)@ == old(bytes)@ + more@,
{
    let ghost start = bytes@;
    let mut i: usize = 0;
    assert(start + more@.take(0) =~= start);
    while i < more.len()
        invariant
            i <= more@.len(),
            bytes@ == start + more@.take(i as int),
        decreases more@.len() - i,
    {
        bytes.push(more[i]);
        i = i + 1;
        assert(bytes@ =~= start + more@.take(i as int));
    }
    assert(more@.take(more@.len() as int) =~= more@);
}

fn append_quoted_value(config: &mut Vec<u8>, value: &Vec<u8>)
    ensures
        final(config)@ == old(config)@ + quoted_value(value@),
{
    let ghost start = config@;
    config.push(QUOTE);
    let ghost open = start + seq![QUOTE];
    assert(config@ =~= open);
    let mut i: usize = 0;
    assert(open + value_body(value@.take(0)) =~= open);
    while i < value.len()
        invariant
            i <= value@.len(),
            config@ == open + value_body(value@.take(i as int)),
        decreases value@.len() - i,
    {
        let byte = value[i];
        assert(value@.take(i + 1).drop_last() =~= value@.take(i as int));
        let ghost before = config@;
        if byte == LINE_FEED {
            config.push(BACKSLASH);
            config.push(LETTER_N);
        } else if byte == TAB {
            config.push(BACKSLASH);
            config.push(LETTER_T);
        } else if byte == BACKSPACE {
            config.push(BACKSLASH);
            config.push(LETTER_B);
        } else if byte == BACKSLASH {
            config.push(BACKSLASH);
            config.push(BACKSLASH);
        } else if byte == QUOTE {
            config.push(BACKSLASH);
            config.push(QUOTE);
        } else {
            config.push(byte);
        }
        assert(config@ =~= before + value_byte(byte));
        i = i + 1;
        assert(config@ =~= open + value_body(value@.take(i as int)));
    }
    assert(value@.take(value@.len() as int) =~= value@);
    config.push(QUOTE);
    assert(config@ =~= start + quoted_value(value@));
}

fn append_name(config: &mut Vec<u8>, name: &Vec<u8>, from: usize)
    requires
        from <= name@.len(),
    ensures
        final(config)@ == old(config)@ + name_body(name@.skip(from as int)),
{
    let ghost start = config@;
    let ghost given = name@.skip(from as int);
    let mut i: usize = from;
    assert(start + name_body(given.take(0)) =~= start);
    while i < name.len()
        invariant
            from <= i <= name@.len(),
            given == name@.skip(from as int),
            config@ == start + name_body(given.take(i - from)),
        decreases name@.len() - i,
    {
        let byte = name[i];
        assert(given.take(i + 1 - from).drop_last() =~= given.take(i - from));
        assert(given.take(i + 1 - from).last() == byte);
        let ghost before = config@;
        if byte == BACKSLASH || byte == QUOTE {
            config.push(BACKSLASH);
        }
        config.push(byte);
        assert(config@ =~= before + name_byte(byte));
        i = i + 1;
        assert(config@ =~= start + name_body(given.take(i - from)));
    }
    assert(given.take(name@.len() - from) =~= given);
}

/// Splits a key at its last dot.
fn split_key(key: &Vec<u8>) -> (parts: Option<(Vec<u8>, Vec<u8>)>)
    ensures
        match parts {
            Some((section, variable)) => key_parts(key@) == Some((section@, variable@)),
            None => key_parts(key@) is None,
        },
{
    let mut section: Vec<u8> = Vec::new();
    let mut variable: Vec<u8> = Vec::new();
    let mut dotted: bool = false;
    let mut i: usize = 0;
    while i < key.len()
        invariant
            i <= key@.len(),
            dotted ==> key_parts(key@.take(i as int)) == Some((section@, variable@)),
            !dotted ==> key_parts(key@.take(i as int)) is None && variable@ == key@.take(i as int)
                && section@.len() == 0,
            dotted ==> section@ + seq![DOT] + variable@ == key@.take(i as int),
        decreases key@.len() - i,
    {
        let ghost now = key@.take(i + 1);
        assert(now.drop_last() =~= key@.take(i as int));
        if key[i] == DOT {
            let ghost seen = key@.take(i as int);
            if dotted {
                section.push(DOT);
            }
            extend(&mut section, &variable);
            assert(section@ =~= seen);
            variable = Vec::new();
            dotted = true;
            assert(variable@ =~= Seq::<u8>::empty());
            assert(section@ + seq![DOT] + variable@ =~= now);
        } else {
            variable.push(key[i]);
            if dotted {
                assert(section@ + seq![DOT] + variable@ =~= now);
            }
        }
        i = i + 1;
    }
    assert(key@.take(key@.len() as int) =~= key@);
    if dotted {
        Some((section, variable))
    } else {
        None
    }
}

fn append_header(config: &mut Vec<u8>, section: &Vec<u8>) -> (known: bool)
    ensures
        known == header_of(section@) is Some,
        known ==> final(config)@ == old(config)@ + header_of(section@)->0,
        !known ==> final(config)@ == old(config)@,
{
    let merge = bytes_of("merge");
    let driver = bytes_of("merge.");
    let ghost start = config@;
    let whole = section.len() == merge.len() && bytes_start_with(section, &merge);
    assert(whole == (section@ == merge@)) by {
        if section@.len() == merge@.len() {
            assert(section@.subrange(0, merge@.len() as int) =~= section@);
        }
    }
    if whole {
        extend(config, &bytes_of("[merge]"));
        true
    } else if bytes_start_with(section, &driver) {
        extend(config, &bytes_of("[merge \""));
        append_name(config, section, driver.len());
        extend(config, &bytes_of("\"]"));
        assert(config@ =~= start + header_of(section@)->0);
        true
    } else {
        false
    }
}

fn append_entry(config: &mut Vec<u8>, entry: &Entry) -> (outcome: Result<(), String>)
    ensures
        match outcome {
            Ok(()) => entry_text(entry.deep_view()) is Ok && final(config)@ == old(config)@
                + entry_text(entry.deep_view())->Ok_0,
            Err(message) => entry_text(entry.deep_view()) == Err::<Seq<u8>, Text>(message@)
                && final(config)@ == old(config)@,
        },
{
    let ghost start = config@;
    let (section, variable) = match split_key(&entry.key) {
        Some(parts) => parts,
        None => {
            return Err(
                cat2(
                    "repository-local merge config key has no variable: ",
                    &shown(&lossy(&entry.key)),
                ),
            );
        },
    };
    if !append_header(config, &section) {
        return Err(
            cat2(
                "repository-local merge config key is not a merge setting: ",
                &shown(&lossy(&entry.key)),
            ),
        );
    }
    let ghost headed = config@;
    config.push(LINE_FEED);
    config.push(TAB);
    extend(config, &variable);
    if let Some(value) = &entry.value {
        extend(config, &bytes_of(" = "));
        append_quoted_value(config, value);
    }
    config.push(LINE_FEED);
    assert(config@ =~= headed + line_of(variable@, entry.deep_view().value));
    assert(config@ =~= start + entry_text(entry.deep_view())->Ok_0);
    Ok(())
}

/// A configuration with settings behind it.
pub fn append(config: &Vec<u8>, entries: &Vec<Entry>) -> (outcome: Result<Vec<u8>, String>)
    ensures
        match outcome {
            Ok(transformed) => appended_from(line_ended(config@), entries.deep_view()) == Ok::<
                Seq<u8>,
                Text,
            >(transformed@),
            Err(message) => appended_from(line_ended(config@), entries.deep_view()) == Err::<
                Seq<u8>,
                Text,
            >(message@),
        },
{
    let mut transformed = copy_bytes(config);
    if transformed.len() > 0 && transformed[transformed.len() - 1] != LINE_FEED {
        transformed.push(LINE_FEED);
    }
    let ghost all = entries.deep_view();
    let mut i: usize = 0;
    assert(all.skip(0) =~= all);
    while i < entries.len()
        invariant
            i <= entries@.len(),
            all == entries.deep_view(),
            appended_from(line_ended(config@), all) == appended_from(
                transformed@,
                all.skip(i as int),
            ),
        decreases entries@.len() - i,
    {
        assert(all.skip(i as int).drop_first() =~= all.skip(i + 1));
        assert(all.skip(i as int)[0] == entries[i as int].deep_view());
        append_entry(&mut transformed, &entries[i])?;
        i = i + 1;
    }
    Ok(transformed)
}

// ---------------------------------------------------------------------------
// What holds of the quoting
// ---------------------------------------------------------------------------
/// What git reads between the quotes of a value, up to the closing one; `None`
/// where it is not closed or an escape is unknown.
pub open spec fn read_value(s: Seq<u8>) -> Option<Seq<u8>>
    decreases s.len(),
{
    if s.len() == 0 {
        None
    } else if s[0] == QUOTE {
        Some(Seq::empty())
    } else if s[0] == BACKSLASH {
        if s.len() < 2 {
            None
        } else {
            let byte = if s[1] == LETTER_N {
                Some(LINE_FEED)
            } else if s[1] == LETTER_T {
                Some(TAB)
            } else if s[1] == LETTER_B {
                Some(BACKSPACE)
            } else if s[1] == BACKSLASH || s[1] == QUOTE {
                Some(s[1])
            } else {
                None
            };
            match (byte, read_value(s.skip(2))) {
                (Some(byte), Some(rest)) => Some(seq![byte] + rest),
                _ => None,
            }
        }
    } else {
        match read_value(s.drop_first()) {
            Some(rest) => Some(seq![s[0]] + rest),
            None => None,
        }
    }
}

proof fn value_body_from_the_front(value: Seq<u8>)
    requires
        value.len() > 0,
    ensures
        value_body(value) == value_byte(value[0]) + value_body(value.drop_first()),
    decreases value.len(),
{
    if value.len() == 1 {
        assert(value.drop_last() =~= Seq::empty());
        assert(value.drop_first() =~= Seq::empty());
        assert(value_body(value.drop_last()) =~= Seq::empty());
        assert(value_body(value.drop_first()) =~= Seq::empty());
        assert(value_body(value) =~= value_byte(value[0]));
    } else {
        value_body_from_the_front(value.drop_last());
        assert(value.drop_last().drop_first() =~= value.drop_first().drop_last());
        assert(value_body(value) =~= value_byte(value[0]) + (value_body(
            value.drop_first().drop_last(),
        ) + value_byte(value.last())));
    }
}

/// Git reads a quoted value back byte by byte, whatever the value holds.
pub proof fn values_survive(value: Seq<u8>)
    ensures
        read_value(value_body(value) + seq![QUOTE]) == Some(value),
    decreases value.len(),
{
    let close = seq![QUOTE];
    if value.len() == 0 {
        assert(value_body(value) + close =~= close);
        assert(value =~= Seq::empty());
    } else {
        let rest = value.drop_first();
        values_survive(rest);
        value_body_from_the_front(value);
        let first = value_byte(value[0]);
        let s = value_body(value) + close;
        let tail = value_body(rest) + close;
        assert(s =~= first + tail);
        assert(value =~= seq![value[0]] + rest);
        if first.len() == 2 {
            assert(s.skip(2) =~= tail);
            assert(s[0] == BACKSLASH && s[1] == first[1]);
        } else {
            assert(s.drop_first() =~= tail);
            assert(s[0] == value[0]);
        }
    }
}

/// What was configured before stays as it was, up to the end of its last line.
pub proof fn appending_keeps_the_configuration(config: Seq<u8>, entries: Seq<EntryModel>)
    ensures
        appended_from(config, entries) matches Ok(transformed) ==> config.is_prefix_of(transformed),
    decreases entries.len(),
{
    if entries.len() == 0 {
        assert(config.subrange(0, config.len() as int) =~= config);
    } else if let Ok(text) = entry_text(entries[0]) {
        appending_keeps_the_configuration(config + text, entries.drop_first());
        if let Ok(transformed) = appended_from(config, entries) {
            assert(transformed.subrange(0, config.len() as int) =~= config) by {
                assert forall|i: int| 0 <= i < config.len() implies transformed[i] == config[i] by {
                    assert(transformed.subrange(0, (config + text).len() as int)[i] == (config
                        + text)[i]);
                }
            }
        }
    }
}

} // verus!
