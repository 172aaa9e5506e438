//! Texts and argument lists written out of a few pieces.

use vstd::prelude::*;

use crate::text::put;

verus! {

/// Two texts, one after the other.
pub fn cat2(a: &str, b: &str) -> (text: String)
    ensures
        text@ == a@ + b@,
{
    let mut text = a.to_owned();
    text.append(b);
    text
}

/// Three texts, one after the other.
pub fn cat3(a: &str, b: &str, c: &str) -> (text: String)
    ensures
        text@ == a@ + b@ + c@,
{
    let mut text = cat2(a, b);
    text.append(c);
    text
}

/// Four texts, one after the other.
pub fn cat4(a: &str, b: &str, c: &str, d: &str) -> (text: String)
    ensures
        text@ == a@ + b@ + c@ + d@,
{
    let mut text = cat3(a, b, c);
    text.append(d);
    text
}

/// Five texts, one after the other.
pub fn cat5(a: &str, b: &str, c: &str, d: &str, e: &str) -> (text: String)
    ensures
        text@ == a@ + b@ + c@ + d@ + e@,
{
    let mut text = cat4(a, b, c, d);
    text.append(e);
    text
}

/// Six texts, one after the other.
pub fn cat6(a: &str, b: &str, c: &str, d: &str, e: &str, f: &str) -> (text: String)
    ensures
        text@ == a@ + b@ + c@ + d@ + e@ + f@,
{
    let mut text = cat5(a, b, c, d, e);
    text.append(f);
    text
}

/// Seven texts, one after the other.
pub fn cat7(a: &str, b: &str, c: &str, d: &str, e: &str, f: &str, g: &str) -> (text: String)
    ensures
        text@ == a@ + b@ + c@ + d@ + e@ + f@ + g@,
{
    let mut text = cat6(a, b, c, d, e, f);
    text.append(g);
    text
}

/// A list of one text.
pub fn args1(a: &str) -> (args: Vec<String>)
    ensures
        args.deep_view() == seq![a@],
{
    let args = vec![a.to_owned()];
    assert(args.deep_view() =~= seq![a@]);
    args
}

/// A list of two texts.
pub fn args2(a: &str, b: &str) -> (args: Vec<String>)
    ensures
        args.deep_view() == seq![a@, b@],
{
    let args = vec![a.to_owned(), b.to_owned()];
    assert(args.deep_view() =~= seq![a@, b@]);
    args
}

/// A list of three texts.
pub fn args3(a: &str, b: &str, c: &str) -> (args: Vec<String>)
    ensures
        args.deep_view() == seq![a@, b@, c@],
{
    let args = vec![a.to_owned(), b.to_owned(), c.to_owned()];
    assert(args.deep_view() =~= seq![a@, b@, c@]);
    args
}

/// A list of four texts.
pub fn args4(a: &str, b: &str, c: &str, d: &str) -> (args: Vec<String>)
    ensures
        args.deep_view() == seq![a@, b@, c@, d@],
{
    let args = vec![a.to_owned(), b.to_owned(), c.to_owned(), d.to_owned()];
    assert(args.deep_view() =~= seq![a@, b@, c@, d@]);
    args
}

/// A list of five texts.
pub fn args5(a: &str, b: &str, c: &str, d: &str, e: &str) -> (args: Vec<String>)
    ensures
        args.deep_view() == seq![a@, b@, c@, d@, e@],
{
    let args = vec![a.to_owned(), b.to_owned(), c.to_owned(), d.to_owned(), e.to_owned()];
    assert(args.deep_view() =~= seq![a@, b@, c@, d@, e@]);
    args
}

/// A list of six texts.
pub fn args6(a: &str, b: &str, c: &str, d: &str, e: &str, f: &str) -> (args: Vec<String>)
    ensures
        args.deep_view() == seq![a@, b@, c@, d@, e@, f@],
{
    let args = vec![
        a.to_owned(),
        b.to_owned(),
        c.to_owned(),
        d.to_owned(),
        e.to_owned(),
        f.to_owned(),
    ];
    assert(args.deep_view() =~= seq![a@, b@, c@, d@, e@, f@]);
    args
}

/// A list of seven texts.
pub fn args7(a: &str, b: &str, c: &str, d: &str, e: &str, f: &str, g: &str) -> (args: Vec<String>)
    ensures
        args.deep_view() == seq![a@, b@, c@, d@, e@, f@, g@],
{
    let args = vec![
        a.to_owned(),
        b.to_owned(),
        c.to_owned(),
        d.to_owned(),
        e.to_owned(),
        f.to_owned(),
        g.to_owned(),
    ];
    assert(args.deep_view() =~= seq![a@, b@, c@, d@, e@, f@, g@]);
    args
}

/// A list of eight texts.
pub fn args8(
    a: &str,
    b: &str,
    c: &str,
    d: &str,
    e: &str,
    f: &str,
    g: &str,
    h: &str,
) -> (args: Vec<String>)
    ensures
        args.deep_view() == seq![a@, b@, c@, d@, e@, f@, g@, h@],
{
    let args = vec![
        a.to_owned(),
        b.to_owned(),
        c.to_owned(),
        d.to_owned(),
        e.to_owned(),
        f.to_owned(),
        g.to_owned(),
        h.to_owned(),
    ];
    assert(args.deep_view() =~= seq![a@, b@, c@, d@, e@, f@, g@, h@]);
    args
}

/// The list `head` followed by the list `tail`.
pub fn chain(head: Vec<String>, tail: &Vec<String>) -> (args: Vec<String>)
    ensures
        args.deep_view() == head.deep_view() + tail.deep_view(),
{
    let mut args = head;
    let mut i: usize = 0;
    assert(tail.deep_view().take(0) =~= Seq::empty());
    assert(args.deep_view() =~= head.deep_view() + tail.deep_view().take(0));
    while i < tail.len()
        invariant
            i <= tail@.len(),
            args.deep_view() == head.deep_view() + tail.deep_view().take(i as int),
        decreases tail@.len() - i,
    {
        put(&mut args, tail[i].clone());
        i = i + 1;
        assert(tail.deep_view().take(i as int) =~= tail.deep_view().take(i - 1).push(
            tail[i - 1]@,
        ));
        assert(args.deep_view() =~= head.deep_view() + tail.deep_view().take(i as int));
    }
    assert(tail.deep_view().take(tail@.len() as int) =~= tail.deep_view());
    args
}

} // verus!
