//! A record reads back as it was written.

use vstd::prelude::*;

use crate::analyze::RefMoveModel;
use crate::number::{decimal, decimal_reads_back, decimal_value, is_digit};
use crate::parts::{
    gaps, is_space, lines_of, pieces, pieces_nonempty, trimmed, trimmed_end, trimmed_start,
    without_return, words_of,
};
use crate::text::Text;
use crate::undo::record::{
    comment_lines, field_in, header_lines, is_body, move_of, moves_from, parsed, record_lines,
    ref_line, rendered, side_of, terminated, written, RecordModel, ABSENT, RECORD_SCHEMA,
};

verus! {

/// Whether a text is one word: it holds something, and no white space.
pub open spec fn is_word(s: Text) -> bool {
    s.len() > 0 && forall|i: int| 0 <= i < s.len() ==> !is_space(#[trigger] s[i])
}

/// Whether a side of a move can be told from an absent one.
pub open spec fn is_side(side: Option<Text>) -> bool {
    side matches Some(object) ==> is_word(object) && object != ABSENT@
}

/// Whether a move can stand in a record: its name is a word that is no comment
/// and no header field, and its objects are words.
pub open spec fn is_recordable(moved: RefMoveModel) -> bool {
    &&& is_word(moved.name)
    &&& moved.name[0] != '#'
    &&& moved.name != "version"@
    &&& moved.name != "rehearsal"@
    &&& moved.name != "applied-at"@
    &&& is_side(moved.before)
    &&& is_side(moved.after)
}

/// Whether a record can be written: its rehearsal is one line with no white
/// space around it, and each of its moves can stand in a record. Every id that
/// is ever allocated, every ref name and every object name is of this kind.
pub open spec fn is_writable(record: RecordModel) -> bool {
    &&& record.rehearsal.len() > 0
    &&& !record.rehearsal.contains('\n')
    &&& !is_space(record.rehearsal[0])
    &&& !is_space(record.rehearsal.last())
    &&& forall|i: int| 0 <= i < record.refs.len() ==> is_recordable(#[trigger] record.refs[i])
}

// ---------------------------------------------------------------------------
// Lines
// ---------------------------------------------------------------------------
/// Whether a text can stand as a line and be read back.
pub open spec fn is_clean(s: Text) -> bool {
    !s.contains('\n') && (s.len() == 0 || s.last() != '\r')
}

proof fn pieces_concat(x: Text, y: Text, separator: char)
    ensures
        pieces(x.push(separator) + y, separator) == pieces(x, separator) + pieces(y, separator),
    decreases y.len(),
{
    let s = x.push(separator) + y;
    if y.len() == 0 {
        assert(s =~= x.push(separator));
        assert(s.drop_last() =~= x);
        assert(pieces(y, separator) =~= seq![Seq::<char>::empty()]) by {
            assert(y =~= Seq::empty());
        }
        assert(pieces(s, separator) =~= pieces(x, separator) + pieces(y, separator));
    } else {
        pieces_concat(x, y.drop_last(), separator);
        pieces_nonempty(y.drop_last(), separator);
        assert(s.drop_last() =~= x.push(separator) + y.drop_last());
        let earlier = pieces(s.drop_last(), separator);
        let tail = pieces(y.drop_last(), separator);
        assert(earlier == pieces(x, separator) + tail);
        assert(earlier.drop_last() =~= pieces(x, separator) + tail.drop_last());
        assert(earlier.last() == tail.last());
        assert(pieces(s, separator) =~= pieces(x, separator) + pieces(y, separator));
    }
}

proof fn pieces_of_one(s: Text, separator: char)
    requires
        !s.contains(separator),
    ensures
        pieces(s, separator) == seq![s],
    decreases s.len(),
{
    if s.len() == 0 {
        assert(s =~= Seq::empty());
    } else {
        assert(s.contains(s[s.len() - 1]));
        assert forall|i: int| 0 <= i < s.len() - 1 implies s.drop_last()[i] != separator by {
            assert(s.contains(s[i]));
        }
        pieces_of_one(s.drop_last(), separator);
        assert(s.drop_last().push(s.last()) =~= s);
        assert(pieces(s, separator) =~= seq![s]);
    }
}

proof fn first_line_reads_back(a: Text, b: Text)
    requires
        is_clean(a),
    ensures
        lines_of(a.push('\n') + b) == seq![a] + lines_of(b),
{
    pieces_concat(a, b, '\n');
    pieces_of_one(a, '\n');
    pieces_nonempty(b, '\n');
    let all = pieces(a.push('\n') + b, '\n');
    let rest = pieces(b, '\n');
    let of = |line: Text| without_return(line);
    assert(all =~= seq![a] + rest);
    assert(all.last() == rest.last());
    assert(all.drop_last() =~= seq![a] + rest.drop_last());
    assert(without_return(a) == a);
    assert(all.drop_last().map_values(of) =~= seq![a] + rest.drop_last().map_values(of));
    assert(lines_of(a.push('\n') + b) =~= seq![a] + lines_of(b));
}

proof fn terminated_from_the_front(lines: Seq<Text>)
    requires
        lines.len() > 0,
    ensures
        terminated(lines) == lines[0].push('\n') + terminated(lines.drop_first()),
    decreases lines.len(),
{
    reveal_strlit("\n");
    let feed = "\n"@;
    assert(feed =~= seq!['\n']);
    if lines.len() == 1 {
        assert(lines.drop_last() =~= Seq::empty());
        assert(lines.drop_first() =~= Seq::empty());
        assert(terminated(lines.drop_last()) =~= Seq::empty());
        assert(terminated(lines.drop_first()) =~= Seq::empty());
        assert(terminated(lines) =~= lines[0].push('\n') + terminated(lines.drop_first()));
    } else {
        terminated_from_the_front(lines.drop_last());
        assert(lines.drop_last().drop_first() =~= lines.drop_first().drop_last());
        assert(terminated(lines) =~= lines[0].push('\n') + terminated(
            lines.drop_first().drop_last(),
        ) + lines.last() + feed);
        assert(terminated(lines.drop_first()) =~= terminated(lines.drop_first().drop_last())
            + lines.last() + feed);
        assert(terminated(lines) =~= lines[0].push('\n') + terminated(lines.drop_first()));
    }
}

/// Lines with a line feed behind each read back as the lines.
pub proof fn lines_read_back(lines: Seq<Text>)
    requires
        forall|i: int| 0 <= i < lines.len() ==> is_clean(#[trigger] lines[i]),
    ensures
        lines_of(terminated(lines)) == lines,
    decreases lines.len(),
{
    if lines.len() == 0 {
        assert(lines =~= Seq::empty());
        assert(pieces(terminated(lines), '\n') =~= seq![Seq::<char>::empty()]);
        assert(lines_of(terminated(lines)) =~= lines);
    } else {
        let rest = lines.drop_first();
        assert forall|i: int| 0 <= i < rest.len() implies is_clean(#[trigger] rest[i]) by {
            assert(is_clean(lines[i + 1]));
        }
        lines_read_back(rest);
        terminated_from_the_front(lines);
        assert(is_clean(lines[0]));
        first_line_reads_back(lines[0], terminated(rest));
        assert(seq![lines[0]] + rest =~= lines);
    }
}

// ---------------------------------------------------------------------------
// Words
// ---------------------------------------------------------------------------
proof fn gaps_nonempty(s: Text)
    ensures
        gaps(s).len() >= 1,
    decreases s.len(),
{
    if s.len() > 0 {
        gaps_nonempty(s.drop_last());
    }
}

proof fn gaps_concat(x: Text, y: Text)
    ensures
        gaps(x.push(' ') + y) == gaps(x) + gaps(y),
    decreases y.len(),
{
    let s = x.push(' ') + y;
    if y.len() == 0 {
        assert(s =~= x.push(' '));
        assert(s.drop_last() =~= x);
        assert(gaps(y) =~= seq![Seq::<char>::empty()]) by {
            assert(y =~= Seq::empty());
        }
        assert(gaps(s) =~= gaps(x) + gaps(y));
    } else {
        gaps_concat(x, y.drop_last());
        gaps_nonempty(y.drop_last());
        assert(s.drop_last() =~= x.push(' ') + y.drop_last());
        let earlier = gaps(s.drop_last());
        let tail = gaps(y.drop_last());
        assert(earlier == gaps(x) + tail);
        assert(earlier.drop_last() =~= gaps(x) + tail.drop_last());
        assert(earlier.last() == tail.last());
        assert(gaps(s) =~= gaps(x) + gaps(y));
    }
}

proof fn gaps_of_word(s: Text)
    requires
        forall|i: int| 0 <= i < s.len() ==> !is_space(#[trigger] s[i]),
    ensures
        gaps(s) == seq![s],
    decreases s.len(),
{
    if s.len() == 0 {
        assert(s =~= Seq::empty());
    } else {
        assert forall|i: int| 0 <= i < s.len() - 1 implies !is_space(
            #[trigger] s.drop_last()[i],
        ) by {
            assert(!is_space(s[i]));
        }
        assert(!is_space(s[s.len() - 1]));
        gaps_of_word(s.drop_last());
        assert(s.drop_last().push(s.last()) =~= s);
        assert(gaps(s) =~= seq![s]);
    }
}

proof fn three_words(a: Text, b: Text, c: Text)
    requires
        is_word(a),
        is_word(b),
        is_word(c),
    ensures
        words_of(a + " "@ + b + " "@ + c) == seq![a, b, c],
{
    reveal_strlit(" ");
    assert(" "@ =~= seq![' ']);
    let s = a + " "@ + b + " "@ + c;
    let tail = b.push(' ') + c;
    assert(s =~= a.push(' ') + tail);
    gaps_concat(a, tail);
    gaps_concat(b, c);
    gaps_of_word(a);
    gaps_of_word(b);
    gaps_of_word(c);
    let all = seq![a, b, c];
    assert(gaps(s) =~= all);
    let filled = |piece: Text| piece.len() > 0;
    assert(all.filter(filled) =~= all) by {
        assert(all.drop_last() =~= seq![a, b]);
        assert(seq![a, b].drop_last() =~= seq![a]);
        assert(seq![a].drop_last() =~= Seq::empty());
        reveal(Seq::filter);
        reveal_with_fuel(Seq::filter, 4);
        assert(Seq::<Text>::empty().filter(filled) =~= Seq::empty());
        assert(seq![a].filter(filled) =~= seq![a]);
        assert(seq![a, b].filter(filled) =~= seq![a, b]);
        assert(all.filter(filled) =~= seq![a, b].push(c));
    }
}

proof fn trimming_keeps(s: Text)
    requires
        s.len() > 0,
        !is_space(s[0]),
        !is_space(s.last()),
    ensures
        trimmed(s) == s,
{
    assert(trimmed_end(s) == s);
    assert(trimmed_start(s) == s);
}

proof fn trimming_keeps_the_first(s: Text)
    requires
        s.len() > 0,
        !is_space(s[0]),
    ensures
        trimmed(s).len() > 0,
        trimmed(s)[0] == s[0],
    decreases s.len(),
{
    if is_space(s.last()) {
        assert(s.len() > 1);
        assert(s.drop_last()[0] == s[0]);
        trimming_keeps_the_first(s.drop_last());
        assert(trimmed_end(s) == trimmed_end(s.drop_last()));
    } else {
        trimming_keeps(s);
    }
}

// ---------------------------------------------------------------------------
// The lines of a record
// ---------------------------------------------------------------------------
/// Whether none of the first `n` characters ends a line.
spec fn plain_up_to(s: Text, n: int) -> bool
    decreases n,
{
    n <= 0 || (s[n - 1] != '\n' && s[n - 1] != '\r' && plain_up_to(s, n - 1))
}

proof fn plain_everywhere(s: Text, n: int)
    requires
        0 <= n <= s.len(),
        plain_up_to(s, n),
    ensures
        forall|i: int| 0 <= i < n ==> s[i] != '\n' && s[i] != '\r',
    decreases n,
{
    if n > 0 {
        plain_everywhere(s, n - 1);
    }
}

/// Whether a text is one line that begins as a comment.
spec fn is_comment(s: Text) -> bool {
    s.len() > 0 && s[0] == '#' && forall|i: int|
        0 <= i < s.len() ==> s[i] != '\n' && s[i] != '\r'
}

proof fn bare_comment_is_clean()
    ensures
        is_comment("#"@),
{
    reveal_strlit("#");
    reveal_with_fuel(plain_up_to, 90);
    plain_everywhere("#"@, "#"@.len() as int);
}

proof fn first_comment_is_clean()
    ensures
        is_comment("# Each line below is a complete `git update-ref` argument list — put one ref"@),
{
    reveal_strlit("# Each line below is a complete `git update-ref` argument list — put one ref");
    reveal_with_fuel(plain_up_to, 90);
    plain_everywhere("# Each line below is a complete `git update-ref` argument list — put one ref"@, "# Each line below is a complete `git update-ref` argument list — put one ref"@.len() as int);
}

proof fn second_comment_is_clean()
    ensures
        is_comment("# back by hand with a copy and a paste:"@),
{
    reveal_strlit("# back by hand with a copy and a paste:");
    reveal_with_fuel(plain_up_to, 90);
    plain_everywhere("# back by hand with a copy and a paste:"@, "# back by hand with a copy and a paste:"@.len() as int);
}

proof fn fourth_comment_is_clean()
    ensures
        is_comment("#     git update-ref refs/heads/main <where it was> <where the apply left it>"@),
{
    reveal_strlit("#     git update-ref refs/heads/main <where it was> <where the apply left it>");
    reveal_with_fuel(plain_up_to, 90);
    plain_everywhere("#     git update-ref refs/heads/main <where it was> <where the apply left it>"@, "#     git update-ref refs/heads/main <where it was> <where the apply left it>"@.len() as int);
}

proof fn sixth_comment_is_clean()
    ensures
        is_comment("# git refuses the update unless the ref is still where the apply left it, so a"@),
{
    reveal_strlit("# git refuses the update unless the ref is still where the apply left it, so a");
    reveal_with_fuel(plain_up_to, 90);
    plain_everywhere("# git refuses the update unless the ref is still where the apply left it, so a"@, "# git refuses the update unless the ref is still where the apply left it, so a"@.len() as int);
}

proof fn seventh_comment_is_clean()
    ensures
        is_comment("# hand restore cannot quietly discard work committed since. An all-zero object"@),
{
    reveal_strlit("# hand restore cannot quietly discard work committed since. An all-zero object");
    reveal_with_fuel(plain_up_to, 90);
    plain_everywhere("# hand restore cannot quietly discard work committed since. An all-zero object"@, "# hand restore cannot quietly discard work committed since. An all-zero object"@.len() as int);
}

proof fn eighth_comment_is_clean()
    ensures
        is_comment("# name is git's own \"does not exist\": as the second field it deletes a branch"@),
{
    reveal_strlit("# name is git's own \"does not exist\": as the second field it deletes a branch");
    reveal_with_fuel(plain_up_to, 90);
    plain_everywhere("# name is git's own \"does not exist\": as the second field it deletes a branch"@, "# name is git's own \"does not exist\": as the second field it deletes a branch"@.len() as int);
}

proof fn ninth_comment_is_clean()
    ensures
        is_comment("# the apply created, as the third it insists a branch the apply deleted is"@),
{
    reveal_strlit("# the apply created, as the third it insists a branch the apply deleted is");
    reveal_with_fuel(plain_up_to, 90);
    plain_everywhere("# the apply created, as the third it insists a branch the apply deleted is"@, "# the apply created, as the third it insists a branch the apply deleted is"@.len() as int);
}

proof fn tenth_comment_is_clean()
    ensures
        is_comment("# still absent."@),
{
    reveal_strlit("# still absent.");
    reveal_with_fuel(plain_up_to, 90);
    plain_everywhere("# still absent."@, "# still absent."@.len() as int);
}

proof fn twelfth_comment_is_clean()
    ensures
        is_comment("# HEAD is not listed. It follows whichever branch is checked out, so restoring"@),
{
    reveal_strlit("# HEAD is not listed. It follows whichever branch is checked out, so restoring");
    reveal_with_fuel(plain_up_to, 90);
    plain_everywhere("# HEAD is not listed. It follows whichever branch is checked out, so restoring"@, "# HEAD is not listed. It follows whichever branch is checked out, so restoring"@.len() as int);
}

proof fn thirteenth_comment_is_clean()
    ensures
        is_comment("# the branches restores it, and updating it directly would detach it."@),
{
    reveal_strlit("# the branches restores it, and updating it directly would detach it.");
    reveal_with_fuel(plain_up_to, 90);
    plain_everywhere("# the branches restores it, and updating it directly would detach it."@, "# the branches restores it, and updating it directly would detach it."@.len() as int);
}

proof fn title_comment_is_clean()
    ensures
        is_comment("# git-rehearse undo record — where `git rehearse apply` found this repository."@),
{
    reveal_strlit("# git-rehearse undo record — where `git rehearse apply` found this repository.");
    reveal_with_fuel(plain_up_to, 90);
    plain_everywhere("# git-rehearse undo record — where `git rehearse apply` found this repository."@, "# git-rehearse undo record — where `git rehearse apply` found this repository."@.len() as int);
}


proof fn comments_are_clean()
    ensures
        forall|i: int| 0 <= i < comment_lines().len() ==> is_comment(#[trigger] comment_lines()[i]),
        comment_lines().len() == 14,
{
    bare_comment_is_clean();
    first_comment_is_clean();
    second_comment_is_clean();
    fourth_comment_is_clean();
    sixth_comment_is_clean();
    seventh_comment_is_clean();
    eighth_comment_is_clean();
    ninth_comment_is_clean();
    tenth_comment_is_clean();
    twelfth_comment_is_clean();
    thirteenth_comment_is_clean();
}

proof fn comment_is_no_body(s: Text)
    requires
        is_comment(s),
    ensures
        is_clean(s),
        !is_body(trimmed(s)),
{
    trimming_keeps_the_first(s);
    reveal_strlit("#");
    assert("#"@ =~= seq!['#']);
    assert(trimmed(s).subrange(0, 1) =~= "#"@);
    if s.contains('\n') {
        let i = choose|i: int| 0 <= i < s.len() && s[i] == '\n';
        assert(s[i] != '\n');
    }
}

proof fn digits_are_plain(n: nat)
    ensures
        decimal(n).len() > 0,
        forall|i: int|
            0 <= i < decimal(n).len() ==> !is_space(#[trigger] decimal(n)[i]) && decimal(n)[i]
                != '\n' && decimal(n)[i] != '\r',
{
    decimal_value(n);
    assert forall|i: int| 0 <= i < decimal(n).len() implies !is_space(#[trigger] decimal(n)[i])
        && decimal(n)[i] != '\n' && decimal(n)[i] != '\r' by {
        assert(is_digit(decimal(n)[i]));
    }
}

/// A header line: a key, a space, and a value with no white space around it.
proof fn header_reads_back(key: Text, value: Text)
    requires
        is_word(key),
        !key.contains('\n'),
        value.len() > 0,
        !is_space(value[0]),
        !is_space(value.last()),
        !value.contains('\n'),
    ensures
        is_clean(key + " "@ + value),
        trimmed(key + " "@ + value) == key + " "@ + value,
        (key + " "@).is_prefix_of(key + " "@ + value),
        trimmed((key + " "@ + value).skip((key.len() + 1) as int)) == value,
{
    reveal_strlit(" ");
    assert(" "@ =~= seq![' ']);
    let s = key + " "@ + value;
    assert(s[0] == key[0]);
    assert(s.last() == value.last());
    assert(!is_space(key[0]));
    trimming_keeps(s);
    trimming_keeps(value);
    assert(s.skip((key.len() + 1) as int) =~= value);
    assert(s.subrange(0, (key + " "@).len() as int) =~= key + " "@);
    if s.contains('\n') {
        let i = choose|i: int| 0 <= i < s.len() && s[i] == '\n';
        if i < key.len() {
            assert(key.contains(key[i]));
        } else if i > key.len() {
            assert(value.contains(value[i - key.len() - 1]));
        }
    }
}

/// A line that begins with another character does not begin with the prefix.
proof fn begins_otherwise(s: Text, prefix: Text)
    requires
        s.len() > 0,
        prefix.len() > 0,
        s[0] != prefix[0],
    ensures
        !prefix.is_prefix_of(s),
{
    if prefix.is_prefix_of(s) {
        assert(s.subrange(0, prefix.len() as int)[0] == prefix[0]);
    }
}

/// A ref line does not begin with a header key and a space, unless the key is
/// its name.
proof fn ref_line_is_no_header(name: Text, rest: Text, key: Text)
    requires
        is_word(name),
        is_word(key),
        name != key,
    ensures
        !(key + " "@).is_prefix_of(name + " "@ + rest),
{
    reveal_strlit(" ");
    assert(" "@ =~= seq![' ']);
    let s = name + " "@ + rest;
    let prefix = key + " "@;
    if prefix.is_prefix_of(s) {
        assert forall|i: int| 0 <= i < prefix.len() implies s[i] == prefix[i] by {
            assert(s.subrange(0, prefix.len() as int)[i] == prefix[i]);
        }
        if name.len() < key.len() {
            assert(s[name.len() as int] == ' ');
            assert(prefix[name.len() as int] == key[name.len() as int]);
            assert(is_space(' '));
        } else if name.len() > key.len() {
            assert(prefix[key.len() as int] == ' ');
            assert(s[key.len() as int] == name[key.len() as int]);
            assert(is_space(' '));
        } else {
            assert(name =~= key) by {
                assert forall|i: int| 0 <= i < name.len() implies name[i] == key[i] by {
                    assert(s[i] == name[i]);
                    assert(prefix[i] == key[i]);
                }
            }
        }
    }
}

proof fn absent_is_a_word()
    ensures
        is_word(ABSENT@),
{
    reveal_strlit("0000000000000000000000000000000000000000");
    let s = ABSENT@;
    assert(s.len() == 40);
    reveal_with_fuel(unspaced_up_to, 45);
    assert(unspaced_up_to(s, 40));
    unspaced_everywhere(s, 40);
}

spec fn unspaced_up_to(s: Text, n: int) -> bool
    decreases n,
{
    n <= 0 || (!is_space(s[n - 1]) && unspaced_up_to(s, n - 1))
}

proof fn unspaced_everywhere(s: Text, n: int)
    requires
        0 <= n <= s.len(),
        unspaced_up_to(s, n),
    ensures
        forall|i: int| 0 <= i < n ==> !is_space(#[trigger] s[i]),
    decreases n,
{
    if n > 0 {
        unspaced_everywhere(s, n - 1);
    }
}

proof fn keys_are_words()
    ensures
        is_word("version"@),
        is_word("rehearsal"@),
        is_word("applied-at"@),
        "version"@[0] == 'v',
        "rehearsal"@[0] == 'r',
        "applied-at"@[0] == 'a',
        "version "@ == "version"@ + " "@,
        "rehearsal "@ == "rehearsal"@ + " "@,
        "applied-at "@ == "applied-at"@ + " "@,
{
    reveal_strlit("version");
    reveal_strlit("rehearsal");
    reveal_strlit("applied-at");
    reveal_strlit("version ");
    reveal_strlit("rehearsal ");
    reveal_strlit("applied-at ");
    reveal_strlit(" ");
    reveal_with_fuel(unspaced_up_to, 12);
    assert(unspaced_up_to("version"@, 7));
    assert(unspaced_up_to("rehearsal"@, 9));
    assert(unspaced_up_to("applied-at"@, 10));
    unspaced_everywhere("version"@, 7);
    unspaced_everywhere("rehearsal"@, 9);
    unspaced_everywhere("applied-at"@, 10);
    assert("version "@ =~= "version"@ + " "@);
    assert("rehearsal "@ =~= "rehearsal"@ + " "@);
    assert("applied-at "@ =~= "applied-at"@ + " "@);
}

proof fn word_has_no_line_end(s: Text)
    requires
        is_word(s),
    ensures
        !s.contains('\n'),
        s.last() != '\r',
{
    if s.contains('\n') {
        let i = choose|i: int| 0 <= i < s.len() && s[i] == '\n';
        assert(!is_space(s[i]));
    }
    assert(!is_space(s[s.len() - 1]));
}

/// The line of a ref reads back as the ref.
proof fn ref_line_reads_back(moved: RefMoveModel)
    requires
        is_recordable(moved),
    ensures
        is_clean(ref_line(moved)),
        trimmed(ref_line(moved)) == ref_line(moved),
        is_body(ref_line(moved)),
        move_of(words_of(ref_line(moved))) == Some(moved),
{
    keys_are_words();
    absent_is_a_word();
    let before = written(moved.before);
    let after = written(moved.after);
    let s = ref_line(moved);
    assert(is_word(before));
    assert(is_word(after));
    three_words(moved.name, before, after);
    reveal_strlit(" ");
    assert(" "@ =~= seq![' ']);
    assert(s[0] == moved.name[0]);
    assert(s.last() == after.last());
    assert(!is_space(moved.name[0]));
    assert(!is_space(after[after.len() - 1]));
    trimming_keeps(s);
    let rest = before + " "@ + after;
    assert(s =~= moved.name + " "@ + rest);
    ref_line_is_no_header(moved.name, rest, "version"@);
    ref_line_is_no_header(moved.name, rest, "rehearsal"@);
    ref_line_is_no_header(moved.name, rest, "applied-at"@);
    reveal_strlit("#");
    begins_otherwise(s, "#"@);
    word_has_no_line_end(moved.name);
    word_has_no_line_end(before);
    word_has_no_line_end(after);
    if s.contains('\n') {
        let i = choose|i: int| 0 <= i < s.len() && s[i] == '\n';
        if i < moved.name.len() {
            assert(moved.name.contains(moved.name[i]));
        } else if i > moved.name.len() && i < moved.name.len() + 1 + before.len() {
            assert(before.contains(before[i - moved.name.len() - 1]));
        } else if i > moved.name.len() + 1 + before.len() {
            assert(after.contains(after[i - moved.name.len() - 2 - before.len()]));
        }
    }
    assert(side_of(before) == moved.before);
    assert(side_of(after) == moved.after);
    let words = seq![moved.name, before, after];
    assert(words_of(s) == words);
    assert(move_of(words) == Some(moved));
}

/// Lines that describe no ref do not count.
proof fn skipping(lines: Seq<Text>, n: int, done: Seq<RefMoveModel>)
    requires
        0 <= n <= lines.len(),
        forall|i: int| 0 <= i < n ==> !is_body(trimmed(#[trigger] lines[i])),
    ensures
        moves_from(lines, done) == moves_from(lines.skip(n), done),
    decreases n,
{
    if n == 0 {
        assert(lines.skip(0) =~= lines);
    } else {
        let rest = lines.drop_first();
        assert forall|i: int| 0 <= i < n - 1 implies !is_body(trimmed(#[trigger] rest[i])) by {
            assert(!is_body(trimmed(lines[i + 1])));
        }
        assert(!is_body(trimmed(lines[0])));
        skipping(rest, n - 1, done);
        assert(rest.skip(n - 1) =~= lines.skip(n));
    }
}

proof fn refs_read_back(refs: Seq<RefMoveModel>, done: Seq<RefMoveModel>)
    requires
        forall|i: int| 0 <= i < refs.len() ==> is_recordable(#[trigger] refs[i]),
    ensures
        moves_from(refs.map_values(|moved: RefMoveModel| ref_line(moved)), done) == Ok::<
            Seq<RefMoveModel>,
            Text,
        >(done + refs),
    decreases refs.len(),
{
    let of = |moved: RefMoveModel| ref_line(moved);
    let lines = refs.map_values(of);
    if refs.len() == 0 {
        assert(done + refs =~= done);
    } else {
        let rest = refs.drop_first();
        assert(is_recordable(refs[0]));
        ref_line_reads_back(refs[0]);
        assert forall|i: int| 0 <= i < rest.len() implies is_recordable(#[trigger] rest[i]) by {
            assert(is_recordable(refs[i + 1]));
        }
        refs_read_back(rest, done.push(refs[0]));
        assert(lines.drop_first() =~= rest.map_values(of));
        assert(lines[0] == ref_line(refs[0]));
        assert(done.push(refs[0]) + rest =~= done + refs);
    }
}

/// What the header of a record holds is found again.
proof fn header_holds(record: RecordModel)
    requires
        is_writable(record),
    ensures
        forall|i: int|
            0 <= i < 4 ==> is_clean(#[trigger] header_lines(record)[i]) && !is_body(
                trimmed(header_lines(record)[i]),
            ),
        forall|more: Seq<Text>|
            #![trigger header_lines(record) + more]
            field_in(header_lines(record) + more, "version"@) == Some(
                decimal(RECORD_SCHEMA as nat),
            ) && field_in(header_lines(record) + more, "rehearsal"@) == Some(record.rehearsal)
                && field_in(header_lines(record) + more, "applied-at"@) == Some(
                decimal(record.applied_at_unix as nat),
            ),
{
    let header = header_lines(record);
    let version = decimal(RECORD_SCHEMA as nat);
    let applied = decimal(record.applied_at_unix as nat);
    keys_are_words();
    title_comment_is_clean();
    comment_is_no_body(header[0]);
    digits_are_plain(RECORD_SCHEMA as nat);
    digits_are_plain(record.applied_at_unix as nat);
    word_has_no_line_end("version"@);
    word_has_no_line_end("rehearsal"@);
    word_has_no_line_end("applied-at"@);
    assert(is_word(version));
    assert(is_word(applied));
    word_has_no_line_end(version);
    word_has_no_line_end(applied);
    assert(!is_space(version[0]) && !is_space(version[version.len() - 1]));
    assert(!is_space(applied[0]) && !is_space(applied[applied.len() - 1]));
    header_reads_back("version"@, version);
    header_reads_back("rehearsal"@, record.rehearsal);
    header_reads_back("applied-at"@, applied);
    assert(header[1] == "version"@ + " "@ + version);
    assert(header[2] == "rehearsal"@ + " "@ + record.rehearsal);
    assert(header[3] == "applied-at"@ + " "@ + applied);
    assert(!is_body(trimmed(header[1])));
    assert(!is_body(trimmed(header[2])));
    assert(!is_body(trimmed(header[3])));
    assert forall|more: Seq<Text>|
        #![trigger header + more]
        field_in(header + more, "version"@) == Some(version) && field_in(
            header + more,
            "rehearsal"@,
        ) == Some(record.rehearsal) && field_in(header + more, "applied-at"@) == Some(applied) by {
        let all = header + more;
        let one = all.drop_first();
        let two = one.drop_first();
        let three = two.drop_first();
        assert(all[0] == header[0] && one[0] == header[1] && two[0] == header[2] && three[0]
            == header[3]);
        begins_otherwise(header[0], "version"@ + " "@);
        begins_otherwise(header[0], "rehearsal"@ + " "@);
        begins_otherwise(header[0], "applied-at"@ + " "@);
        begins_otherwise(header[1], "rehearsal"@ + " "@);
        begins_otherwise(header[1], "applied-at"@ + " "@);
        begins_otherwise(header[2], "applied-at"@ + " "@);
        assert(field_in(all, "version"@) == field_in(one, "version"@));
        assert(field_in(all, "rehearsal"@) == field_in(one, "rehearsal"@));
        assert(field_in(one, "rehearsal"@) == field_in(two, "rehearsal"@));
        assert(field_in(all, "applied-at"@) == field_in(one, "applied-at"@));
        assert(field_in(one, "applied-at"@) == field_in(two, "applied-at"@));
        assert(field_in(two, "applied-at"@) == field_in(three, "applied-at"@));
    }
}

/// A record reads back as it was written: the same rehearsal, the same moment,
/// the same refs in the same order with the same two sides.
pub proof fn records_read_back(record: RecordModel, path: Text)
    requires
        is_writable(record),
    ensures
        parsed(rendered(record), path) == Ok::<RecordModel, crate::error::Fault>(record),
{
    let of = |moved: RefMoveModel| ref_line(moved);
    let lines = record_lines(record);
    let header = header_lines(record);
    let comments = comment_lines();
    let refs = record.refs.map_values(of);
    header_holds(record);
    comments_are_clean();
    assert forall|i: int| 0 <= i < lines.len() implies is_clean(#[trigger] lines[i]) by {
        if i < 4 {
            assert(lines[i] == header[i]);
        } else if i < 18 {
            assert(lines[i] == comments[i - 4]);
            comment_is_no_body(comments[i - 4]);
        } else {
            assert(lines[i] == ref_line(record.refs[i - 18]));
            assert(is_recordable(record.refs[i - 18]));
            ref_line_reads_back(record.refs[i - 18]);
        }
    }
    lines_read_back(lines);
    assert forall|i: int| 0 <= i < 18 implies !is_body(trimmed(#[trigger] lines[i])) by {
        if i < 4 {
            assert(lines[i] == header[i]);
        } else {
            assert(lines[i] == comments[i - 4]);
            comment_is_no_body(comments[i - 4]);
        }
    }
    skipping(lines, 18, Seq::empty());
    assert(lines.skip(18) =~= refs);
    refs_read_back(record.refs, Seq::empty());
    assert(Seq::<RefMoveModel>::empty() + record.refs =~= record.refs);
    assert(lines =~= header + (comments + refs));
    decimal_reads_back(RECORD_SCHEMA as nat, u32::MAX as nat);
    decimal_reads_back(record.applied_at_unix as nat, u64::MAX as nat);
}

} // verus!
