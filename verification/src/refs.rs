//! Ref names and the objects they point to, in the order of the names.

use vstd::prelude::*;

use crate::text::{
    before, precedes, precedes_irreflexive, precedes_total, precedes_transitive, put, same, Text,
};

verus! {

/// The model of a [`RefMap`]: its entries in the order of their names.
pub type Entries = Seq<(Text, Text)>;

/// Whether the names come in strictly ascending order.
pub open spec fn ascending(entries: Entries) -> bool {
    forall|i: int, j: int|
        0 <= i < j < entries.len() ==> precedes(#[trigger] entries[i].0, #[trigger] entries[j].0)
}

/// What a name points to.
pub open spec fn lookup(entries: Entries, name: Text) -> Option<Text>
    decreases entries.len(),
{
    if entries.len() == 0 {
        None
    } else if entries.last().0 == name {
        Some(entries.last().1)
    } else {
        lookup(entries.drop_last(), name)
    }
}

/// The entries with `name` pointing to `value`.
pub open spec fn inserted(entries: Entries, name: Text, value: Text) -> Entries
    decreases entries.len(),
{
    if entries.len() == 0 {
        seq![(name, value)]
    } else if entries.last().0 == name {
        entries.drop_last().push((name, value))
    } else if precedes(entries.last().0, name) {
        entries.push((name, value))
    } else {
        inserted(entries.drop_last(), name, value).push(entries.last())
    }
}

/// The names, in order.
pub open spec fn names_of(entries: Entries) -> Seq<Text> {
    entries.map_values(|entry: (Text, Text)| entry.0)
}

/// An entry is found under its name, and a name is found only where there is
/// an entry for it.
pub proof fn lookup_is_entry(entries: Entries, name: Text)
    requires
        ascending(entries),
    ensures
        forall|i: int|
            0 <= i < entries.len() && (#[trigger] entries[i]).0 == name ==> lookup(entries, name)
                == Some(entries[i].1),
        lookup(entries, name) is Some ==> exists|i: int|
            0 <= i < entries.len() && #[trigger] entries[i] == (
                name,
                lookup(entries, name)->0,
            ),
    decreases entries.len(),
{
    if entries.len() > 0 {
        let rest = entries.drop_last();
        lookup_is_entry(rest, name);
        let last = entries.len() - 1;
        if entries[last].0 == name {
            assert forall|i: int|
                0 <= i < entries.len() && (#[trigger] entries[i]).0 == name implies lookup(
                entries,
                name,
            ) == Some(entries[i].1) by {
                if i < last {
                    precedes_irreflexive(name);
                }
            }
            assert(entries[last] == (name, lookup(entries, name)->0));
        } else {
            assert forall|i: int|
                0 <= i < entries.len() && (#[trigger] entries[i]).0 == name implies lookup(
                entries,
                name,
            ) == Some(entries[i].1) by {
                assert(rest[i] == entries[i]);
            }
            if lookup(entries, name) is Some {
                let i = choose|i: int|
                    0 <= i < rest.len() && #[trigger] rest[i] == (name, lookup(rest, name)->0);
                assert(entries[i] == rest[i]);
            }
        }
    }
}

/// Insertion keeps the order, and changes what its own name points to and
/// nothing else.
#[verifier::spinoff_prover]
#[verifier::rlimit(50)]
pub proof fn inserted_points(entries: Entries, name: Text, value: Text)
    requires
        ascending(entries),
    ensures
        ascending(inserted(entries, name, value)),
        forall|other: Text|
            #![trigger lookup(inserted(entries, name, value), other)]
            lookup(inserted(entries, name, value), other) == if other == name {
                Some(value)
            } else {
                lookup(entries, other)
            },
        forall|i: int|
            0 <= i < inserted(entries, name, value).len() ==> (#[trigger] inserted(
                entries,
                name,
                value,
            )[i]).0 == name || (exists|j: int|
                0 <= j < entries.len() && #[trigger] entries[j].0 == inserted(entries, name, value)[i].0),
    decreases entries.len(),
{
    let all = inserted(entries, name, value);
    if entries.len() == 0 {
        assert(all.drop_last() =~= entries);
    } else {
        let last = entries.last();
        let rest = entries.drop_last();
        if last.0 == name {
            assert(all.drop_last() =~= rest);
            assert forall|i: int| 0 <= i < all.len() implies (#[trigger] all[i]).0 == name || (
            exists|j: int| 0 <= j < entries.len() && #[trigger] entries[j].0 == all[i].0) by {
                assert(entries[i].0 == all[i].0);
            }
        } else if precedes(last.0, name) {
            assert(all.drop_last() =~= entries);
            assert forall|i: int, j: int| 0 <= i < j < all.len() implies precedes(
                #[trigger] all[i].0,
                #[trigger] all[j].0,
            ) by {
                if j == entries.len() && i < entries.len() - 1 {
                    precedes_transitive(entries[i].0, last.0, name);
                }
            }
            assert forall|other: Text| lookup(all, other) == if other == name {
                Some(value)
            } else {
                lookup(entries, other)
            } by {
                assert(all.last() == (name, value));
            }
            assert forall|i: int| 0 <= i < all.len() implies (#[trigger] all[i]).0 == name || (
            exists|j: int| 0 <= j < entries.len() && #[trigger] entries[j].0 == all[i].0) by {
                if i < entries.len() {
                    assert(entries[i].0 == all[i].0);
                }
            }
        } else {
            precedes_total(name, last.0);
            inserted_points(rest, name, value);
            let low = inserted(rest, name, value);
            assert(all.drop_last() =~= low);
            assert forall|i: int, j: int| 0 <= i < j < all.len() implies precedes(
                #[trigger] all[i].0,
                #[trigger] all[j].0,
            ) by {
                if j == low.len() {
                    assert(low[i] == all[i]);
                    if all[i].0 != name {
                        let k = choose|k: int|
                            0 <= k < rest.len() && #[trigger] rest[k].0 == low[i].0;
                        assert(entries[k] == rest[k]);
                        assert(precedes(entries[k].0, entries[entries.len() - 1].0));
                    }
                } else {
                    assert(low[i] == all[i] && low[j] == all[j]);
                }
            }
            assert forall|other: Text| lookup(all, other) == if other == name {
                Some(value)
            } else {
                lookup(entries, other)
            } by {
                assert(all.last() == last);
                assert(lookup(inserted(rest, name, value), other) == if other == name {
                    Some(value)
                } else {
                    lookup(rest, other)
                });
                if other != last.0 {
                    assert(lookup(all, other) == lookup(low, other));
                    assert(lookup(entries, other) == lookup(rest, other));
                }
            }
            assert forall|i: int| 0 <= i < all.len() implies (#[trigger] all[i]).0 == name || (
            exists|j: int| 0 <= j < entries.len() && #[trigger] entries[j].0 == all[i].0) by {
                if i < low.len() {
                    assert(low[i] == all[i]);
                    if low[i].0 != name {
                        let k = choose|k: int|
                            0 <= k < rest.len() && #[trigger] rest[k].0 == low[i].0;
                        assert(entries[k].0 == all[i].0);
                    }
                } else {
                    assert(entries[entries.len() - 1].0 == all[i].0);
                }
            }
        }
    }
}

/// Ref names and the objects they point to.
#[derive(Debug)]
pub struct RefMap {
    entries: Vec<(String, String)>,
}

impl DeepView for RefMap {
    type V = Entries;

    closed spec fn deep_view(&self) -> Entries {
        self.entries.deep_view()
    }
}

impl RefMap {
    #[verifier::type_invariant]
    spec fn well_formed(self) -> bool {
        ascending(self.entries.deep_view())
    }

    /// No refs at all.
    pub fn new() -> (map: RefMap)
        ensures
            map.deep_view() == Seq::<(Text, Text)>::empty(),
    {
        let entries: Vec<(String, String)> = Vec::new();
        assert(entries.deep_view() =~= Seq::empty());
        RefMap { entries }
    }

    /// The names are in order.
    pub fn in_order(&self)
        ensures
            ascending(self.deep_view()),
    {
        proof {
            use_type_invariant(self);
        }
    }

    pub fn len(&self) -> (len: usize)
        ensures
            len == self.deep_view().len(),
    {
        self.entries.len()
    }

    /// The name of the entry at `i`.
    pub fn name(&self, i: usize) -> (name: &String)
        requires
            i < self.deep_view().len(),
        ensures
            name@ == self.deep_view()[i as int].0,
    {
        &self.entries[i].0
    }

    /// What the entry at `i` points to.
    pub fn value(&self, i: usize) -> (value: &String)
        requires
            i < self.deep_view().len(),
        ensures
            value@ == self.deep_view()[i as int].1,
    {
        &self.entries[i].1
    }

    /// What `name` points to.
    pub fn get(&self, name: &str) -> (value: Option<String>)
        ensures
            value.deep_view() == lookup(self.deep_view(), name@),
    {
        let mut i: usize = self.entries.len();
        let ghost all = self.entries.deep_view();
        assert(all.take(i as int) =~= all);
        while i > 0
            invariant
                i <= self.entries@.len(),
                all == self.entries.deep_view(),
                lookup(all, name@) == lookup(all.take(i as int), name@),
            decreases i,
        {
            i = i - 1;
            assert(all.take(i + 1).drop_last() =~= all.take(i as int));
            if same(&self.entries[i].0, name) {
                return Some(self.entries[i].1.clone());
            }
        }
        None
    }

    /// Makes `name` point to `value`.
    pub fn insert(&mut self, name: String, value: String)
        ensures
            final(self).deep_view() == inserted(old(self).deep_view(), name@, value@),
            ascending(old(self).deep_view()),
    {
        proof {
            use_type_invariant(&*self);
        }
        let ghost all = self.entries.deep_view();
        let mut i: usize = self.entries.len();
        assert(all.take(i as int) =~= all);
        assert(all.skip(i as int) =~= Seq::empty());
        assert(inserted(all, name@, value@) =~= inserted(all.take(i as int), name@, value@)
            + all.skip(i as int));
        while i > 0 && !before(&self.entries[i - 1].0, &name) && !same(
            &self.entries[i - 1].0,
            &name,
        )
            invariant
                i <= self.entries@.len(),
                all == self.entries.deep_view(),
                inserted(all, name@, value@) == inserted(all.take(i as int), name@, value@)
                    + all.skip(i as int),
            decreases i,
        {
            let ghost now = all.take(i as int);
            assert(now.drop_last() =~= all.take(i - 1));
            assert(inserted(now, name@, value@) == inserted(all.take(i - 1), name@, value@).push(
                now.last(),
            ));
            assert(inserted(all.take(i - 1), name@, value@).push(now.last()) + all.skip(i as int)
                =~= inserted(all.take(i - 1), name@, value@) + all.skip(i - 1));
            i = i - 1;
        }
        let replaces = i > 0 && same(&self.entries[i - 1].0, &name);
        let ghost now = all.take(i as int);
        let mut entries: Vec<(String, String)> = Vec::new();
        let keep: usize = if replaces {
            i - 1
        } else {
            i
        };
        let mut k: usize = 0;
        while k < keep
            invariant
                k <= keep <= self.entries@.len(),
                all == self.entries.deep_view(),
                entries.deep_view() == all.take(k as int),
            decreases keep - k,
        {
            let entry = (self.entries[k].0.clone(), self.entries[k].1.clone());
            put(&mut entries, entry);
            k = k + 1;
            assert(all.take(k as int) =~= all.take(k - 1).push(all[k - 1]));
        }
        let ghost given = (name@, value@);
        put(&mut entries, (name, value));
        assert(entries.deep_view() == all.take(keep as int).push(given));
        assert(entries.deep_view() =~= inserted(now, given.0, given.1)) by {
            if replaces {
                assert(now.drop_last() =~= all.take(keep as int));
            } else if i == 0 {
                assert(now =~= Seq::empty());
            }
        }
        let ghost head = entries.deep_view();
        k = i;
        assert(head + all.subrange(i as int, i as int) =~= head);
        while k < self.entries.len()
            invariant
                i <= k <= self.entries@.len(),
                all == self.entries.deep_view(),
                entries.deep_view() == head + all.subrange(i as int, k as int),
            decreases self.entries@.len() - k,
        {
            let entry = (self.entries[k].0.clone(), self.entries[k].1.clone());
            put(&mut entries, entry);
            k = k + 1;
            assert(entries.deep_view() =~= head + all.subrange(i as int, k as int));
        }
        assert(all.subrange(i as int, all.len() as int) =~= all.skip(i as int));
        proof {
            inserted_points(all, given.0, given.1);
        }
        self.entries = entries;
    }

    /// The same refs in a map of their own.
    pub fn copy(&self) -> (map: RefMap)
        ensures
            map.deep_view() == self.deep_view(),
    {
        proof {
            use_type_invariant(self);
        }
        let ghost all = self.entries.deep_view();
        let mut entries: Vec<(String, String)> = Vec::new();
        let mut k: usize = 0;
        while k < self.entries.len()
            invariant
                k <= self.entries@.len(),
                all == self.entries.deep_view(),
                entries.deep_view() == all.take(k as int),
            decreases self.entries@.len() - k,
        {
            let entry = (self.entries[k].0.clone(), self.entries[k].1.clone());
            put(&mut entries, entry);
            k = k + 1;
            assert(all.take(k as int) =~= all.take(k - 1).push(all[k - 1]));
        }
        assert(all.take(all.len() as int) =~= all);
        RefMap { entries }
    }
}

} // verus!
