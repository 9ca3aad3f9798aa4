//! Keyed sequences: the first element satisfying a predicate.
//!
//! The durable collections are vectors whose elements are found by key.
//! Lookup always means the first element with the key, and insertion
//! replaces that element or appends when there is none, so no key is ever
//! held twice.

use vstd::prelude::*;

use crate::model::{Duplicate, SameView};

verus! {

/// Index of the first element of `items` satisfying `matches`, or -1.
pub open spec fn first_index<T>(items: Seq<T>, matches: spec_fn(T) -> bool) -> int
    decreases items.len(),
{
    if items.len() == 0 {
        -1
    } else {
        let earlier = first_index(items.drop_last(), matches);
        if earlier >= 0 {
            earlier
        } else if matches(items.last()) {
            items.len() - 1
        } else {
            -1
        }
    }
}

/// The first element satisfying `matches`, if any.
pub open spec fn first_match<T>(items: Seq<T>, matches: spec_fn(T) -> bool) -> Option<T> {
    let index = first_index(items, matches);
    if index >= 0 {
        Some(items[index])
    } else {
        None
    }
}

/// `first_index` is the least index whose element matches, or -1 when no
/// element matches.
pub proof fn lemma_first_index<T>(items: Seq<T>, matches: spec_fn(T) -> bool)
    ensures
        -1 <= first_index(items, matches) < items.len(),
        first_index(items, matches) == -1 <==> forall|k: int| 0 <= k < items.len() ==> !matches(#[trigger] items[k]),
        first_index(items, matches) >= 0 ==> matches(items[first_index(items, matches)]),
        forall|k: int| 0 <= k < first_index(items, matches) ==> !matches(#[trigger] items[k]),
    decreases items.len(),
{
    if items.len() > 0 {
        lemma_first_index(items.drop_last(), matches);
        let earlier = first_index(items.drop_last(), matches);
        assert forall|k: int| 0 <= k < items.len() - 1 implies items[k] == #[trigger] items.drop_last()[k] by {}
        assert forall|k: int| 0 <= k < first_index(items, matches) implies !matches(#[trigger] items[k]) by {
            assert(items[k] == items.drop_last()[k]);
        }
        if earlier < 0 && !matches(items.last()) {
            assert forall|k: int| 0 <= k < items.len() implies !matches(#[trigger] items[k]) by {
                if k < items.len() - 1 {
                    assert(items[k] == items.drop_last()[k]);
                }
            }
        }
    }
}

/// The index found by a forward scan is `first_index`.
pub proof fn lemma_first_index_is<T>(items: Seq<T>, matches: spec_fn(T) -> bool, index: int)
    requires
        0 <= index < items.len(),
        matches(items[index]),
        forall|k: int| 0 <= k < index ==> !matches(#[trigger] items[k]),
    ensures
        first_index(items, matches) == index,
{
    lemma_first_index(items, matches);
    let found = first_index(items, matches);
    if found == -1 {
        assert(!matches(items[index]));
    } else if found < index {
        assert(!matches(items[found]));
    } else if found > index {
        assert(!matches(items[index]));
    }
}

/// No element matches, so `first_index` is -1.
pub proof fn lemma_first_index_none<T>(items: Seq<T>, matches: spec_fn(T) -> bool)
    requires
        forall|k: int| 0 <= k < items.len() ==> !matches(#[trigger] items[k]),
    ensures
        first_index(items, matches) == -1,
{
    lemma_first_index(items, matches);
}

/// Replace the first element satisfying `matches` with `item`, or append
/// `item` when none does.
pub open spec fn upsert<T>(items: Seq<T>, matches: spec_fn(T) -> bool, item: T) -> Seq<T> {
    let index = first_index(items, matches);
    if index >= 0 {
        items.update(index, item)
    } else {
        items.push(item)
    }
}

/// Whether an entry of a keyed sequence carries `key`.
pub open spec fn keyed<K, V>(key: K) -> spec_fn((K, V)) -> bool {
    |entry: (K, V)| entry.0 == key
}

/// The value stored under `key`: that of the first entry with the key.
pub open spec fn lookup<K, V>(items: Seq<(K, V)>, key: K) -> Option<V> {
    let index = first_index(items, keyed(key));
    if index >= 0 {
        Some(items[index].1)
    } else {
        None
    }
}

/// The views of the entries of a keyed vector.
pub open spec fn entry_views<K: View, V: View>(items: Seq<(K, V)>) -> Seq<(K::V, V::V)> {
    items.map_values(|entry: (K, V)| entry@)
}

/// Position of the first entry of `items` whose key has the view of `key`.
pub fn find_key<K: SameView, V: View>(items: &Vec<(K, V)>, key: &K) -> (found: Option<usize>)
    ensures
        match found {
            Some(index) => index < items.len() && index as int == first_index(entry_views(items@), keyed(key@)),
            None => first_index(entry_views(items@), keyed(key@)) == -1,
        },
{
    let ghost entries = entry_views(items@);
    let mut index: usize = 0;
    while index < items.len()
        invariant
            index <= items.len(),
            entries == entry_views(items@),
            forall|k: int| 0 <= k < index ==> !keyed(key@)(#[trigger] entries[k]),
        decreases items.len() - index,
    {
        if items[index].0.same_view(key) {
            proof {
                lemma_first_index_is(entries, keyed(key@), index as int);
            }
            return Some(index);
        }
        index += 1;
    }
    proof {
        lemma_first_index_none(entries, keyed(key@));
    }
    None
}

/// Whether an entry does not carry `key`.
pub open spec fn unkeyed<K, V>(key: K) -> spec_fn((K, V)) -> bool {
    |entry: (K, V)| entry.0 != key
}

/// The entries without `key`.
pub open spec fn without_key<K, V>(items: Seq<(K, V)>, key: K) -> Seq<(K, V)> {
    items.filter(unkeyed(key))
}

/// Store `value` under `key`: replace the entry with the key, or append.
pub fn put_key<K: SameView, V: View>(items: &mut Vec<(K, V)>, key: K, value: V)
    ensures
        entry_views(final(items)@) == upsert(entry_views(old(items)@), keyed(key@), (key@, value@)),
{
    let ghost before = entry_views(items@);
    match find_key(items, &key) {
        Some(index) => {
            items.set(index, (key, value));
            assert(entry_views(items@) =~= before.update(index as int, (key@, value@)));
        },
        None => {
            items.push((key, value));
            assert(entry_views(items@) =~= before.push((key@, value@)));
        },
    }
}

/// Remove every entry with `key`.
#[verifier::loop_isolation(false)]
pub fn remove_key<K: SameView + Duplicate, V: Duplicate>(items: &mut Vec<(K, V)>, key: &K)
    ensures
        entry_views(final(items)@) == without_key(entry_views(old(items)@), key@),
{
    let ghost before = entry_views(items@);
    let mut kept: Vec<(K, V)> = Vec::new();
    let mut index: usize = 0;
    while index < items.len()
        invariant
            index <= items.len(),
            before == entry_views(items@),
            entry_views(kept@) == before.subrange(0, index as int).filter(unkeyed(key@)),
        decreases items.len() - index,
    {
        proof {
            reveal(Seq::filter);
            assert(before.subrange(0, index as int + 1).drop_last() =~= before.subrange(0, index as int));
        }
        assert(before[index as int] == items@[index as int]@);
        if !items[index].0.same_view(key) {
            let copy = items[index].duplicate();
            let ghost prior = entry_views(kept@);
            kept.push(copy);
            assert(entry_views(kept@) =~= prior.push(before[index as int]));
        }
        index += 1;
    }
    assert(before.subrange(0, before.len() as int) =~= before);
    *items = kept;
}

} // verus!
