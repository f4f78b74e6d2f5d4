//! Insertion-ordered hash collections of the `indexmap` crate, as far as the
//! library reads and fills them: sets of integer keys, and maps from integer
//! keys to amounts. Each is described by the sequence of what it holds, in
//! the order of insertion.

use crate::decimal::Decimal;
use crate::decimal::PreciseDecimal;
use scrypto::prelude::IndexMap;
use scrypto::prelude::IndexSet;
use std::hash::RandomState;
use vstd::prelude::*;

verus! {

/// `indexmap::IndexSet`, a hash set that keeps its keys in the order of
/// insertion. Nothing of its inside is known here.
#[verifier::external_type_specification]
#[verifier::external_body]
#[verifier::reject_recursive_types(T)]
#[verifier::reject_recursive_types(S)]
pub struct ExIndexSet<T, S>(IndexSet<T, S>);

/// `indexmap::IndexMap`, a hash map that keeps its entries in the order of
/// insertion. Nothing of its inside is known here.
#[verifier::external_type_specification]
#[verifier::external_body]
#[verifier::reject_recursive_types(K)]
#[verifier::reject_recursive_types(V)]
#[verifier::reject_recursive_types(S)]
pub struct ExIndexMap<K, V, S>(IndexMap<K, V, S>);

/// The keys an `IndexSet` holds, oldest first: what iterating over it
/// yields.
pub uninterp spec fn index_set_keys(set: IndexSet<u64, RandomState>) -> Seq<u64>;

/// The entries an `IndexMap` holds, oldest first: what iterating over it
/// yields.
pub uninterp spec fn index_map_entries(map: IndexMap<u64, Decimal, RandomState>) -> Seq<
    (u64, Decimal),
>;

/// The entries an `IndexMap` of amounts with 36 decimal places holds,
/// oldest first: what iterating over it yields.
pub uninterp spec fn precise_map_entries(map: IndexMap<u64, PreciseDecimal, RandomState>) -> Seq<
    (u64, PreciseDecimal),
>;

/// Whether some entry of `entries` has the key `key`.
pub open spec fn has_key<V>(entries: Seq<(u64, V)>, key: u64) -> bool {
    exists|i: int| 0 <= i < entries.len() && (#[trigger] entries[i]).0 == key
}

/// The amount of the first entry of `entries` under `key`, if there is one.
pub open spec fn value_of<V>(entries: Seq<(u64, V)>, key: u64) -> Option<V>
    decreases entries.len(),
{
    if entries.len() == 0 {
        None
    } else if entries[0].0 == key {
        Some(entries[0].1)
    } else {
        value_of(entries.subrange(1, entries.len() as int), key)
    }
}

/// `entries` with `value` under `key`: in the place of the entry under
/// `key` where there is one, behind all entries where there is none.
pub open spec fn with_entry<V>(entries: Seq<(u64, V)>, key: u64, value: V) -> Seq<(u64, V)>
    decreases entries.len(),
{
    if entries.len() == 0 {
        seq![(key, value)]
    } else if entries[0].0 == key {
        seq![(key, value)] + entries.subrange(1, entries.len() as int)
    } else {
        seq![entries[0]] + with_entry(entries.subrange(1, entries.len() as int), key, value)
    }
}

/// `keys` without `key`, the others in their old order.
pub open spec fn without(keys: Seq<u64>, key: u64) -> Seq<u64>
    decreases keys.len(),
{
    if keys.len() == 0 {
        keys
    } else if keys.last() == key {
        without(keys.drop_last(), key)
    } else {
        without(keys.drop_last(), key).push(keys.last())
    }
}

/// Calls `index_set_new`: a set that holds nothing.
#[verifier::external_body]
pub(crate) fn index_set_new() -> (set: IndexSet<u64, RandomState>)
    ensures
        index_set_keys(set) == Seq::<u64>::empty(),
{
    scrypto::prelude::index_set_new()
}

/// Calls `IndexSet::len`: the number of keys held.
#[verifier::external_body]
pub(crate) fn index_set_len(set: &IndexSet<u64, RandomState>) -> (len: usize)
    ensures
        len == index_set_keys(*set).len(),
{
    set.len()
}

/// Calls `IndexSet::contains`: whether `key` is held.
#[verifier::external_body]
pub(crate) fn index_set_contains(set: &IndexSet<u64, RandomState>, key: u64) -> (found: bool)
    ensures
        found == index_set_keys(*set).contains(key),
{
    set.contains(&key)
}

/// Calls `IndexSet::insert`: a key already held changes nothing; a new key
/// goes behind the others. The answer is whether it was new.
#[verifier::external_body]
pub(crate) fn index_set_insert(set: &mut IndexSet<u64, RandomState>, key: u64) -> (fresh: bool)
    ensures
        fresh == !index_set_keys(*old(set)).contains(key),
        index_set_keys(*final(set)) == (if index_set_keys(*old(set)).contains(key) {
            index_set_keys(*old(set))
        } else {
            index_set_keys(*old(set)).push(key)
        }),
{
    set.insert(key)
}

/// Calls `IndexSet::shift_remove`: afterwards `key` is gone and the other
/// keys keep their order. The answer is whether it was held.
#[verifier::external_body]
pub(crate) fn index_set_shift_remove(set: &mut IndexSet<u64, RandomState>, key: u64) -> (found:
    bool)
    ensures
        found == index_set_keys(*old(set)).contains(key),
        index_set_keys(*final(set)) == without(index_set_keys(*old(set)), key),
{
    set.shift_remove(&key)
}

/// Calls `index_map_new`: a map that holds nothing.
#[verifier::external_body]
pub(crate) fn index_map_new() -> (map: IndexMap<u64, Decimal, RandomState>)
    ensures
        index_map_entries(map) == Seq::<(u64, Decimal)>::empty(),
{
    scrypto::prelude::index_map_new()
}

/// Calls `IndexMap::insert`: a key already held keeps its place and gets
/// the new amount; a new key goes behind the others. The answer is the
/// amount that was held under the key.
#[verifier::external_body]
pub(crate) fn index_map_insert(map: &mut IndexMap<u64, Decimal, RandomState>, key: u64, value: Decimal)
    -> (replaced: Option<Decimal>)
    ensures
        replaced == value_of(index_map_entries(*old(map)), key),
        index_map_entries(*final(map)) == with_entry(index_map_entries(*old(map)), key, value),
{
    map.insert(key, value)
}

/// Calls `IndexMap::len`: the number of entries held.
#[verifier::external_body]
pub(crate) fn index_map_len(map: &IndexMap<u64, Decimal, RandomState>) -> (len: usize)
    ensures
        len == index_map_entries(*map).len(),
{
    map.len()
}

/// Calls `IndexMap::contains_key`: whether an entry for `key` is held.
#[verifier::external_body]
pub(crate) fn index_map_contains_key(map: &IndexMap<u64, Decimal, RandomState>, key: u64) -> (found:
    bool)
    ensures
        found == has_key(index_map_entries(*map), key),
{
    map.contains_key(&key)
}

/// Calls `IndexMap::get`: the amount held for `key`, if there is an entry.
#[verifier::external_body]
pub(crate) fn index_map_get(map: &IndexMap<u64, Decimal, RandomState>, key: u64) -> (value: Option<
    Decimal,
>)
    ensures
        value == value_of(index_map_entries(*map), key),
{
    map.get(&key).copied()
}

/// Calls `index_map_new` for a map of amounts with 36 decimal places: a
/// map that holds nothing.
#[verifier::external_body]
pub(crate) fn precise_map_new() -> (map: IndexMap<u64, PreciseDecimal, RandomState>)
    ensures
        precise_map_entries(map) == Seq::<(u64, PreciseDecimal)>::empty(),
{
    scrypto::prelude::index_map_new()
}

/// Calls `IndexMap::insert` on a map of amounts with 36 decimal places: a
/// key already held keeps its place and gets the new amount; a new key
/// goes behind the others. The answer is the amount that was held under
/// the key.
#[verifier::external_body]
pub(crate) fn precise_map_insert(
    map: &mut IndexMap<u64, PreciseDecimal, RandomState>,
    key: u64,
    value: PreciseDecimal,
) -> (replaced: Option<PreciseDecimal>)
    ensures
        replaced == value_of(precise_map_entries(*old(map)), key),
        precise_map_entries(*final(map)) == with_entry(precise_map_entries(*old(map)), key, value),
{
    map.insert(key, value)
}

/// Calls `IndexMap::len` on a map of amounts with 36 decimal places: the
/// number of entries held.
#[verifier::external_body]
pub(crate) fn precise_map_len(map: &IndexMap<u64, PreciseDecimal, RandomState>) -> (len: usize)
    ensures
        len == precise_map_entries(*map).len(),
{
    map.len()
}

/// Calls `IndexMap::contains_key` on a map of amounts with 36 decimal
/// places: whether an entry for `key` is held.
#[verifier::external_body]
pub(crate) fn precise_map_contains_key(map: &IndexMap<u64, PreciseDecimal, RandomState>, key: u64) -> (found:
    bool)
    ensures
        found == has_key(precise_map_entries(*map), key),
{
    map.contains_key(&key)
}

/// Calls `IndexMap::get` on a map of amounts with 36 decimal places: the
/// amount held for `key`, if there is an entry.
#[verifier::external_body]
pub(crate) fn precise_map_get(map: &IndexMap<u64, PreciseDecimal, RandomState>, key: u64) -> (value: Option<
    PreciseDecimal,
>)
    ensures
        value == value_of(precise_map_entries(*map), key),
{
    map.get(&key).copied()
}

/// After an amount was put under a key, that amount is found under the
/// key, what was under another key is still found there, and the list
/// is longer by one if the key is new.
pub proof fn lemma_with_entry<V>(entries: Seq<(u64, V)>, key: u64, value: V, other: u64)
    ensures
        value_of(with_entry(entries, key, value), key) == Some(value),
        other != key ==> value_of(with_entry(entries, key, value), other) == value_of(entries, other),
        has_key(with_entry(entries, key, value), key),
        with_entry(entries, key, value).len() == (if has_key(entries, key) {
            entries.len()
        } else {
            entries.len() + 1
        }),
    decreases entries.len(),
{
    let put = with_entry(entries, key, value);
    if entries.len() == 0 {
        assert(put[0].0 == key);
        assert(put.subrange(1, put.len() as int) =~= entries);
    } else {
        let rest = entries.subrange(1, entries.len() as int);
        if entries[0].0 == key {
            assert(put[0].0 == key);
            assert(put.subrange(1, put.len() as int) =~= rest);
            assert(entries[0].0 == key);
        } else {
            lemma_with_entry(rest, key, value, other);
            let put_rest = with_entry(rest, key, value);
            assert(put.subrange(1, put.len() as int) =~= put_rest);
            assert(put[0] == entries[0]);
            let i = choose|i: int| 0 <= i < put_rest.len() && (#[trigger] put_rest[i]).0 == key;
            assert(put[i + 1] == put_rest[i]);
            if has_key(entries, key) {
                let j = choose|j: int| 0 <= j < entries.len() && (#[trigger] entries[j]).0 == key;
                if j > 0 {
                    assert(rest[j - 1] == entries[j]);
                }
            }
            if has_key(rest, key) {
                let j = choose|j: int| 0 <= j < rest.len() && (#[trigger] rest[j]).0 == key;
                assert(entries[j + 1] == rest[j]);
            }
        }
    }
}

/// After `key` is taken out, exactly the other keys are left.
pub proof fn lemma_without_contains(keys: Seq<u64>, key: u64, other: u64)
    ensures
        without(keys, key).contains(other) == (keys.contains(other) && other != key),
    decreases keys.len(),
{
    if keys.len() > 0 {
        let front = keys.drop_last();
        lemma_without_contains(front, key, other);
        assert(keys == front.push(keys.last()));
        if keys.contains(other) {
            let i = choose|i: int| 0 <= i < keys.len() && keys[i] == other;
            if i < front.len() {
                assert(front[i] == other);
            }
        }
        if front.contains(other) {
            let i = choose|i: int| 0 <= i < front.len() && front[i] == other;
            assert(keys[i] == other);
        }
        if keys.last() != key {
            let kept = without(front, key);
            let all = kept.push(keys.last());
            if kept.contains(other) {
                let i = choose|i: int| 0 <= i < kept.len() && kept[i] == other;
                assert(all[i] == other);
            }
            if all.contains(other) {
                let i = choose|i: int| 0 <= i < all.len() && all[i] == other;
                if i < kept.len() {
                    assert(kept[i] == other);
                }
            }
            if other == keys.last() {
                assert(all[kept.len() as int] == other);
            }
        }
    }
}

/// Taking a key out of a list without repetitions leaves a list without
/// repetitions, shorter by one if the key was in it.
pub proof fn lemma_without_distinct(keys: Seq<u64>, key: u64)
    requires
        keys.no_duplicates(),
    ensures
        without(keys, key).no_duplicates(),
        without(keys, key).len() == (if keys.contains(key) {
            keys.len() - 1
        } else {
            keys.len() as int
        }),
    decreases keys.len(),
{
    if keys.len() > 0 {
        let front = keys.drop_last();
        let last = keys.last();
        assert(front.no_duplicates());
        lemma_without_distinct(front, key);
        assert(keys == front.push(last));
        assert(!front.contains(last)) by {
            if front.contains(last) {
                let i = choose|i: int| 0 <= i < front.len() && front[i] == last;
                assert(keys[i] == keys[keys.len() - 1]);
            }
        }
        if front.contains(key) {
            let i = choose|i: int| 0 <= i < front.len() && front[i] == key;
            assert(keys[i] == key);
        }
        if keys.contains(key) && last != key {
            let i = choose|i: int| 0 <= i < keys.len() && keys[i] == key;
            assert(front[i] == key);
        }
        if last == key {
            assert(keys[keys.len() - 1] == key);
        } else {
            let kept = without(front, key);
            lemma_without_contains(front, key, last);
            assert(!kept.contains(last));
            assert forall|i: int, j: int|
                0 <= i < kept.push(last).len() && 0 <= j < kept.push(last).len() && i != j implies kept.push(
                last,
            )[i] != kept.push(last)[j] by {
                if i < kept.len() && j < kept.len() {
                } else if i < kept.len() {
                    assert(kept.contains(kept[i]));
                } else {
                    assert(kept.contains(kept[j]));
                }
            }
        }
    }
}

} // verus!