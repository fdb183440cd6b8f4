//! Name-keyed tables: the variable store and the function table.

use crate::text::str_equal;
use crate::value::{find_from, lemma_find_from, lookup};
use vstd::prelude::*;

verus! {

/// The keyed models that a vector of named items stands for.
pub open spec fn pairs_view<T: View>(entries: Seq<(String, T)>) -> Seq<(Seq<char>, T::V)> {
    Seq::new(entries.len(), |i: int| (entries[i].0@, entries[i].1@))
}

/// The mapping that an entry list stands for: each key to the value of its
/// first entry.
pub open spec fn bindings<V>(entries: Seq<(Seq<char>, V)>) -> Map<Seq<char>, V> {
    Map::new(|k: Seq<char>| lookup(entries, k) is Some, |k: Seq<char>| lookup(entries, k)->0)
}

/// The entries with `value` under `key`: in place of the value of the first
/// entry with that key, or in a new entry at the end.
pub open spec fn upserted<V>(entries: Seq<(Seq<char>, V)>, key: Seq<char>, value: V) -> Seq<
    (Seq<char>, V),
> {
    match find_from(entries, key, 0) {
        Some(i) => entries.update(i, (key, value)),
        None => entries.push((key, value)),
    }
}

/// An index at which `key` stands with no earlier match is what `find_from`
/// returns.
pub proof fn lemma_first_match<V>(entries: Seq<(Seq<char>, V)>, key: Seq<char>, i: int)
    requires
        0 <= i < entries.len(),
        entries[i].0 == key,
        forall|j: int| 0 <= j < i ==> entries[j].0 != key,
    ensures
        find_from(entries, key, 0) == Some(i),
{
    lemma_find_from(entries, key, 0);
}

/// Where no entry has the key, `find_from` finds none.
pub proof fn lemma_no_match<V>(entries: Seq<(Seq<char>, V)>, key: Seq<char>)
    requires
        forall|j: int| 0 <= j < entries.len() ==> entries[j].0 != key,
    ensures
        find_from(entries, key, 0) is None,
{
    lemma_find_from(entries, key, 0);
}

/// Replacing the value of a key's first entry rebinds that key and no other.
pub proof fn lemma_bindings_update<V>(entries: Seq<(Seq<char>, V)>, key: Seq<char>, i: int, v: V)
    requires
        find_from(entries, key, 0) == Some(i),
    ensures
        bindings(entries.update(i, (key, v))) == bindings(entries).insert(key, v),
{
    let after = entries.update(i, (key, v));
    lemma_find_from(entries, key, 0);
    lemma_first_match(after, key, i);
    assert forall|k: Seq<char>| lookup(after, k) == (if k == key {
        Some(v)
    } else {
        lookup(entries, k)
    }) by {
        if k != key {
            lemma_find_from(entries, k, 0);
            match find_from(entries, k, 0) {
                Some(j) => {
                    lemma_first_match(after, k, j);
                },
                None => {
                    lemma_no_match(after, k);
                },
            }
        }
    }
    assert(bindings(after) =~= bindings(entries).insert(key, v));
}

/// Appending an entry for a key that no entry has binds that key and
/// changes no other.
pub proof fn lemma_bindings_push<V>(entries: Seq<(Seq<char>, V)>, key: Seq<char>, v: V)
    requires
        find_from(entries, key, 0) is None,
    ensures
        bindings(entries.push((key, v))) == bindings(entries).insert(key, v),
{
    let after = entries.push((key, v));
    lemma_find_from(entries, key, 0);
    lemma_first_match(after, key, entries.len() as int);
    assert forall|k: Seq<char>| lookup(after, k) == (if k == key {
        Some(v)
    } else {
        lookup(entries, k)
    }) by {
        if k != key {
            lemma_find_from(entries, k, 0);
            match find_from(entries, k, 0) {
                Some(j) => {
                    lemma_first_match(after, k, j);
                },
                None => {
                    lemma_no_match(after, k);
                },
            }
        }
    }
    assert(bindings(after) =~= bindings(entries).insert(key, v));
}

/// Position of the first item named `key`, if there is one.
pub fn find_key<T: View>(entries: &Vec<(String, T)>, key: &str) -> (r: Option<usize>)
    ensures
        match r {
            Some(i) => find_from(pairs_view(entries@), key@, 0) == Some(i as int) && i
                < entries.len(),
            None => find_from(pairs_view(entries@), key@, 0) is None,
        },
{
    let mut i: usize = 0;
    while i < entries.len()
        invariant
            i <= entries.len(),
            find_from(pairs_view(entries@), key@, 0) == find_from(
                pairs_view(entries@),
                key@,
                i as int,
            ),
        decreases entries.len() - i,
    {
        if str_equal(entries[i].0.as_str(), key) {
            return Some(i);
        }
        i += 1;
    }
    None
}

/// A table from names to items. A name is bound to the item that was last
/// inserted under it.
#[derive(Debug)]
pub struct Table<T> {
    /// The bindings, in the order in which their names were first inserted.
    pub entries: Vec<(String, T)>,
}

impl<T: View> View for Table<T> {
    type V = Map<Seq<char>, T::V>;

    open spec fn view(&self) -> Map<Seq<char>, T::V> {
        bindings(pairs_view(self.entries@))
    }
}

impl<T: View> Table<T> {
    /// The empty table.
    pub fn new() -> (r: Table<T>)
        ensures
            r@ == Map::<Seq<char>, T::V>::empty(),
            r.entries.len() == 0,
    {
        let r = Table { entries: Vec::new() };
        assert(r@ =~= Map::<Seq<char>, T::V>::empty());
        r
    }

    /// The item bound to `key`.
    pub fn get(&self, key: &str) -> (r: Option<&T>)
        ensures
            match r {
                Some(item) => self@.contains_key(key@) && self@[key@] == item@,
                None => !self@.contains_key(key@),
            },
    {
        match find_key(&self.entries, key) {
            Some(i) => Some(&self.entries[i].1),
            None => None,
        }
    }

    /// Whether `key` is bound.
    pub fn contains_key(&self, key: &str) -> (r: bool)
        ensures
            r == self@.contains_key(key@),
    {
        find_key(&self.entries, key).is_some()
    }

    /// Binds `key` to `item`, in place of what it was bound to. A name that
    /// was bound keeps its place among the entries; a new name goes to the
    /// end.
    pub fn insert(&mut self, key: String, item: T)
        ensures
            final(self)@ == old(self)@.insert(key@, item@),
            pairs_view(final(self).entries@) == upserted(
                pairs_view(old(self).entries@),
                key@,
                item@,
            ),
    {
        let ghost before = pairs_view(self.entries@);
        match find_key(&self.entries, key.as_str()) {
            Some(i) => {
                self.entries.set(i, (key, item));
                proof {
                    assert(pairs_view(self.entries@) =~= before.update(
                        i as int,
                        (key@, item@),
                    ));
                    lemma_bindings_update(before, key@, i as int, item@);
                }
            },
            None => {
                self.entries.push((key, item));
                proof {
                    assert(pairs_view(self.entries@) =~= before.push((key@, item@)));
                    lemma_bindings_push(before, key@, item@);
                }
            },
        }
    }

    /// The number of bound names.
    pub fn len(&self) -> (r: usize)
        ensures
            r == self.entries.len(),
    {
        self.entries.len()
    }
}

} // verus!
