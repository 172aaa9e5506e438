//! Texts in order.

use vstd::prelude::*;

use crate::paths::{key_of, order_key};
use crate::text::{
    before, precedes, precedes_irreflexive, precedes_total, precedes_transitive, same, Text,
};

verus! {

/// The texts with one more among them, in order and without a second of any.
pub open spec fn placed(texts: Seq<Text>, text: Text) -> Seq<Text>
    decreases texts.len(),
{
    if texts.len() == 0 {
        seq![text]
    } else if texts.last() == text {
        texts
    } else if precedes(texts.last(), text) {
        texts.push(text)
    } else {
        placed(texts.drop_last(), text).push(texts.last())
    }
}

/// The texts with all of `more` among them, in order and without a second of
/// any.
pub open spec fn placed_all(texts: Seq<Text>, more: Seq<Text>) -> Seq<Text>
    decreases more.len(),
{
    if more.len() == 0 {
        texts
    } else {
        placed(placed_all(texts, more.drop_last()), more.last())
    }
}

/// Places `text` among the texts.
pub fn place(texts: &mut Vec<String>, text: String)
    ensures
        final(texts).deep_view() == placed(old(texts).deep_view(), text@),
{
    let ghost all = texts.deep_view();
    let mut i: usize = texts.len();
    assert(all.take(i as int) =~= all);
    assert(placed(all.take(i as int), text@) + all.skip(i as int) =~= placed(all, text@));
    while i > 0 && !same(&texts[i - 1], &text) && !before(&texts[i - 1], &text)
        invariant
            i <= texts@.len(),
            all == texts.deep_view(),
            all == old(texts).deep_view(),
            placed(all.take(i as int), text@) + all.skip(i as int) == placed(all, text@),
        decreases i,
    {
        let ghost now = all.take(i as int);
        assert(now.drop_last() =~= all.take(i - 1));
        assert(placed(now, text@) == placed(all.take(i - 1), text@).push(now.last()));
        assert(placed(all.take(i - 1), text@) + all.skip(i - 1) =~= placed(now, text@) + all.skip(
            i as int,
        ));
        i = i - 1;
    }
    let ghost now = all.take(i as int);
    if i > 0 && same(&texts[i - 1], &text) {
        assert(now + all.skip(i as int) =~= all);
    } else {
        assert(placed(now, text@) =~= now.push(text@)) by {
            if i == 0 {
                assert(now =~= Seq::empty());
            }
        }
        texts.insert(i, text);
        assert(texts.deep_view() =~= now.push(text@) + all.skip(i as int));
    }
}

/// Places all of `more` among the texts.
pub fn place_all(texts: &mut Vec<String>, more: &Vec<String>)
    ensures
        final(texts).deep_view() == placed_all(old(texts).deep_view(), more.deep_view()),
{
    let ghost given = more.deep_view();
    let mut i: usize = 0;
    assert(given.take(0) =~= Seq::empty());
    while i < more.len()
        invariant
            i <= more@.len(),
            given == more.deep_view(),
            texts.deep_view() == placed_all(old(texts).deep_view(), given.take(i as int)),
        decreases more@.len() - i,
    {
        assert(given.take(i + 1).drop_last() =~= given.take(i as int));
        assert(given.take(i + 1).last() == more[i as int]@);
        place(texts, more[i].clone());
        i = i + 1;
    }
    assert(given.take(given.len() as int) =~= given);
}

/// The paths with one more among them, in the order of their components.
pub open spec fn filed(paths: Seq<Text>, path: Text) -> Seq<Text>
    decreases paths.len(),
{
    if paths.len() > 0 && precedes(order_key(path), order_key(paths.last())) {
        filed(paths.drop_last(), path).push(paths.last())
    } else {
        paths.push(path)
    }
}

/// The paths in the order of their components.
pub open spec fn sorted_paths(paths: Seq<Text>) -> Seq<Text>
    decreases paths.len(),
{
    if paths.len() == 0 {
        paths
    } else {
        filed(sorted_paths(paths.drop_last()), paths.last())
    }
}

/// Files `path` among the paths.
fn file_path(paths: &mut Vec<String>, path: String)
    ensures
        final(paths).deep_view() == filed(old(paths).deep_view(), path@),
{
    let ghost all = paths.deep_view();
    let key = key_of(&path);
    let mut i: usize = paths.len();
    assert(all.take(i as int) =~= all);
    assert(filed(all.take(i as int), path@) + all.skip(i as int) =~= filed(all, path@));
    while i > 0 && before(&key, &key_of(&paths[i - 1]))
        invariant
            i <= paths@.len(),
            key@ == order_key(path@),
            all == paths.deep_view(),
            all == old(paths).deep_view(),
            filed(all.take(i as int), path@) + all.skip(i as int) == filed(all, path@),
        decreases i,
    {
        let ghost now = all.take(i as int);
        assert(now.drop_last() =~= all.take(i - 1));
        assert(filed(now, path@) == filed(all.take(i - 1), path@).push(now.last()));
        assert(filed(all.take(i - 1), path@) + all.skip(i - 1) =~= filed(now, path@) + all.skip(
            i as int,
        ));
        i = i - 1;
    }
    let ghost now = all.take(i as int);
    assert(filed(now, path@) =~= now.push(path@));
    paths.insert(i, path);
    assert(paths.deep_view() =~= now.push(path@) + all.skip(i as int));
}

/// The paths in the order of their components.
pub fn sort_paths(paths: &Vec<String>) -> (sorted: Vec<String>)
    ensures
        sorted.deep_view() == sorted_paths(paths.deep_view()),
{
    let ghost given = paths.deep_view();
    let mut sorted: Vec<String> = Vec::new();
    let mut i: usize = 0;
    assert(given.take(0) =~= Seq::empty());
    assert(sorted.deep_view() =~= Seq::empty());
    while i < paths.len()
        invariant
            i <= paths@.len(),
            given == paths.deep_view(),
            sorted.deep_view() == sorted_paths(given.take(i as int)),
        decreases paths@.len() - i,
    {
        assert(given.take(i + 1).drop_last() =~= given.take(i as int));
        assert(given.take(i + 1).last() == paths[i as int]@);
        file_path(&mut sorted, paths[i].clone());
        i = i + 1;
    }
    assert(given.take(given.len() as int) =~= given);
    sorted
}

/// The texts with one more among them, in order; equal ones stay in the order
/// they came.
pub open spec fn ranked(texts: Seq<Text>, text: Text) -> Seq<Text>
    decreases texts.len(),
{
    if texts.len() > 0 && precedes(text, texts.last()) {
        ranked(texts.drop_last(), text).push(texts.last())
    } else {
        texts.push(text)
    }
}

/// The texts in order.
pub open spec fn sorted_texts(texts: Seq<Text>) -> Seq<Text>
    decreases texts.len(),
{
    if texts.len() == 0 {
        texts
    } else {
        ranked(sorted_texts(texts.drop_last()), texts.last())
    }
}

/// Ranks `text` among the texts.
fn rank(texts: &mut Vec<String>, text: String)
    ensures
        final(texts).deep_view() == ranked(old(texts).deep_view(), text@),
{
    let ghost all = texts.deep_view();
    let mut i: usize = texts.len();
    assert(all.take(i as int) =~= all);
    assert(ranked(all.take(i as int), text@) + all.skip(i as int) =~= ranked(all, text@));
    while i > 0 && before(&text, &texts[i - 1])
        invariant
            i <= texts@.len(),
            all == texts.deep_view(),
            all == old(texts).deep_view(),
            ranked(all.take(i as int), text@) + all.skip(i as int) == ranked(all, text@),
        decreases i,
    {
        let ghost now = all.take(i as int);
        assert(now.drop_last() =~= all.take(i - 1));
        assert(ranked(now, text@) == ranked(all.take(i - 1), text@).push(now.last()));
        assert(ranked(all.take(i - 1), text@) + all.skip(i - 1) =~= ranked(now, text@) + all.skip(
            i as int,
        ));
        i = i - 1;
    }
    let ghost now = all.take(i as int);
    assert(ranked(now, text@) =~= now.push(text@));
    texts.insert(i, text);
    assert(texts.deep_view() =~= now.push(text@) + all.skip(i as int));
}

/// The texts in order.
pub fn sort_texts(texts: &Vec<String>) -> (sorted: Vec<String>)
    ensures
        sorted.deep_view() == sorted_texts(texts.deep_view()),
{
    let ghost given = texts.deep_view();
    let mut sorted: Vec<String> = Vec::new();
    let mut i: usize = 0;
    assert(given.take(0) =~= Seq::empty());
    assert(sorted.deep_view() =~= Seq::empty());
    while i < texts.len()
        invariant
            i <= texts@.len(),
            given == texts.deep_view(),
            sorted.deep_view() == sorted_texts(given.take(i as int)),
        decreases texts@.len() - i,
    {
        assert(given.take(i + 1).drop_last() =~= given.take(i as int));
        assert(given.take(i + 1).last() == texts[i as int]@);
        rank(&mut sorted, texts[i].clone());
        i = i + 1;
    }
    assert(given.take(given.len() as int) =~= given);
    sorted
}

proof fn ranking_orders(texts: Seq<Text>, text: Text)
    requires
        forall|i: int, j: int|
            0 <= i < j < texts.len() ==> !precedes(#[trigger] texts[j], #[trigger] texts[i]),
    ensures
        forall|i: int, j: int|
            0 <= i < j < ranked(texts, text).len() ==> !precedes(
                #[trigger] ranked(texts, text)[j],
                #[trigger] ranked(texts, text)[i],
            ),
        ranked(texts, text).to_multiset() == texts.to_multiset().insert(text),
    decreases texts.len(),
{
    broadcast use vstd::seq_lib::group_to_multiset_ensures;

    let result = ranked(texts, text);
    if texts.len() > 0 && precedes(text, texts.last()) {
        let rest = texts.drop_last();
        let below = ranked(rest, text);
        assert forall|i: int, j: int| 0 <= i < j < rest.len() implies !precedes(
            #[trigger] rest[j],
            #[trigger] rest[i],
        ) by {
            assert(rest[i] == texts[i] && rest[j] == texts[j]);
        }
        ranking_orders(rest, text);
        assert(texts =~= rest.push(texts.last()));
        assert forall|i: int, j: int| 0 <= i < j < result.len() implies !precedes(
            #[trigger] result[j],
            #[trigger] result[i],
        ) by {
            if j < below.len() {
                assert(result[i] == below[i] && result[j] == below[j]);
            } else {
                assert(result[i] == below[i]);
                assert(below.to_multiset().count(below[i]) > 0);
                if below[i] == text {
                    if precedes(texts.last(), text) {
                        precedes_transitive(text, texts.last(), text);
                        precedes_irreflexive(text);
                    }
                } else {
                    assert(rest.to_multiset().count(below[i]) > 0);
                    let k = choose|k: int| 0 <= k < rest.len() && rest[k] == below[i];
                    assert(!precedes(texts[texts.len() - 1], texts[k]));
                }
            }
        }
        assert(result.to_multiset() =~= texts.to_multiset().insert(text));
    } else {
        assert forall|i: int, j: int| 0 <= i < j < result.len() implies !precedes(
            #[trigger] result[j],
            #[trigger] result[i],
        ) by {
            if j < texts.len() {
                assert(result[i] == texts[i] && result[j] == texts[j]);
            } else {
                assert(result[i] == texts[i]);
                if precedes(text, texts[i]) {
                    if i < texts.len() - 1 {
                        assert(!precedes(texts[texts.len() - 1], texts[i]));
                        precedes_total(texts[i], texts.last());
                        if texts[i] != texts.last() {
                            precedes_transitive(text, texts[i], texts.last());
                        }
                    }
                }
            }
        }
    }
}

/// Sorting puts texts in order and neither loses nor adds any.
pub proof fn sorting_orders_the_texts(texts: Seq<Text>)
    ensures
        forall|i: int, j: int|
            0 <= i < j < sorted_texts(texts).len() ==> !precedes(
                #[trigger] sorted_texts(texts)[j],
                #[trigger] sorted_texts(texts)[i],
            ),
        sorted_texts(texts).to_multiset() == texts.to_multiset(),
    decreases texts.len(),
{
    broadcast use vstd::seq_lib::group_to_multiset_ensures;

    if texts.len() > 0 {
        let rest = texts.drop_last();
        sorting_orders_the_texts(rest);
        ranking_orders(sorted_texts(rest), texts.last());
        assert(texts =~= rest.push(texts.last()));
    }
}

proof fn filing_orders(paths: Seq<Text>, path: Text)
    requires
        forall|i: int, j: int|
            0 <= i < j < paths.len() ==> !precedes(
                order_key(#[trigger] paths[j]),
                order_key(#[trigger] paths[i]),
            ),
    ensures
        forall|i: int, j: int|
            0 <= i < j < filed(paths, path).len() ==> !precedes(
                order_key(#[trigger] filed(paths, path)[j]),
                order_key(#[trigger] filed(paths, path)[i]),
            ),
        filed(paths, path).to_multiset() == paths.to_multiset().insert(path),
    decreases paths.len(),
{
    broadcast use vstd::seq_lib::group_to_multiset_ensures;

    let result = filed(paths, path);
    if paths.len() > 0 && precedes(order_key(path), order_key(paths.last())) {
        let rest = paths.drop_last();
        let below = filed(rest, path);
        assert forall|i: int, j: int| 0 <= i < j < rest.len() implies !precedes(
            order_key(#[trigger] rest[j]),
            order_key(#[trigger] rest[i]),
        ) by {
            assert(rest[i] == paths[i] && rest[j] == paths[j]);
        }
        filing_orders(rest, path);
        assert(paths =~= rest.push(paths.last()));
        assert forall|i: int, j: int| 0 <= i < j < result.len() implies !precedes(
            order_key(#[trigger] result[j]),
            order_key(#[trigger] result[i]),
        ) by {
            if j < below.len() {
                assert(result[i] == below[i] && result[j] == below[j]);
            } else {
                assert(result[i] == below[i]);
                assert(below.to_multiset().count(below[i]) > 0);
                if below[i] == path {
                    if precedes(order_key(paths.last()), order_key(path)) {
                        precedes_transitive(order_key(path), order_key(paths.last()), order_key(path));
                        precedes_irreflexive(order_key(path));
                    }
                } else {
                    assert(rest.to_multiset().count(below[i]) > 0);
                    let k = choose|k: int| 0 <= k < rest.len() && rest[k] == below[i];
                    assert(!precedes(order_key(paths[paths.len() - 1]), order_key(paths[k])));
                }
            }
        }
        assert(result.to_multiset() =~= paths.to_multiset().insert(path));
    } else {
        assert forall|i: int, j: int| 0 <= i < j < result.len() implies !precedes(
            order_key(#[trigger] result[j]),
            order_key(#[trigger] result[i]),
        ) by {
            if j < paths.len() {
                assert(result[i] == paths[i] && result[j] == paths[j]);
            } else {
                assert(result[i] == paths[i]);
                if precedes(order_key(path), order_key(paths[i])) {
                    if i < paths.len() - 1 {
                        assert(!precedes(order_key(paths[paths.len() - 1]), order_key(paths[i])));
                        precedes_total(order_key(paths[i]), order_key(paths.last()));
                        if order_key(paths[i]) != order_key(paths.last()) {
                            precedes_transitive(
                                order_key(path),
                                order_key(paths[i]),
                                order_key(paths.last()),
                            );
                        }
                    }
                }
            }
        }
    }
}

/// Sorting puts paths in the order of their components and neither loses nor
/// adds any.
pub proof fn sorting_orders_the_paths(paths: Seq<Text>)
    ensures
        forall|i: int, j: int|
            0 <= i < j < sorted_paths(paths).len() ==> !precedes(
                order_key(#[trigger] sorted_paths(paths)[j]),
                order_key(#[trigger] sorted_paths(paths)[i]),
            ),
        sorted_paths(paths).to_multiset() == paths.to_multiset(),
    decreases paths.len(),
{
    broadcast use vstd::seq_lib::group_to_multiset_ensures;

    if paths.len() > 0 {
        let rest = paths.drop_last();
        sorting_orders_the_paths(rest);
        filing_orders(sorted_paths(rest), paths.last());
        assert(paths =~= rest.push(paths.last()));
    }
}

} // verus!
