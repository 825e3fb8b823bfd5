//! The model of an insertion-ordered map: its entries in order, oldest first.
use linked_hash_map::LinkedHashMap;
use vstd::prelude::*;

verus! {

/// `LinkedHashMap` of the `linked-hash-map` crate: a hash map that remembers the order in which
/// its keys were (last) inserted.
#[verifier::external_type_specification]
#[verifier::external_body]
#[verifier::reject_recursive_types(K)]
#[verifier::reject_recursive_types(V)]
#[verifier::reject_recursive_types(S)]
pub struct ExLinkedHashMap<K, V, S>(LinkedHashMap<K, V, S>);

/// The entries whose key differs from `k`, in their order.
pub open spec fn entries_without<K, V>(entries: Seq<(K, V)>, k: K) -> Seq<(K, V)>
    decreases entries.len(),
{
    if entries.len() == 0 {
        entries
    } else {
        let rest = entries_without(entries.drop_last(), k);
        if entries.last().0 == k {
            rest
        } else {
            rest.push(entries.last())
        }
    }
}

/// Inserting into an insertion-ordered map: an entry with the same key is dropped and the new
/// entry is placed last.
pub open spec fn entries_insert<K, V>(entries: Seq<(K, V)>, k: K, v: V) -> Seq<(K, V)> {
    entries_without(entries, k).push((k, v))
}

/// The value of the last entry with key `k`, if any.
pub open spec fn entries_lookup<K, V>(entries: Seq<(K, V)>, k: K) -> Option<V>
    decreases entries.len(),
{
    if entries.len() == 0 {
        None
    } else if entries.last().0 == k {
        Some(entries.last().1)
    } else {
        entries_lookup(entries.drop_last(), k)
    }
}

/// No key occurs twice.
pub open spec fn entries_keys_distinct<K, V>(entries: Seq<(K, V)>) -> bool {
    forall|i: int, j: int|
        0 <= i < entries.len() && 0 <= j < entries.len() && i != j ==> entries[i].0 != entries[j].0
}

/// The keys, in order.
pub open spec fn entries_keys<K, V>(entries: Seq<(K, V)>) -> Seq<K> {
    entries.map_values(|e: (K, V)| e.0)
}

/// Removing a key removes exactly that key from the lookups.
pub proof fn lemma_lookup_without<K, V>(entries: Seq<(K, V)>, k: K, k2: K)
    ensures
        entries_lookup(entries_without(entries, k), k2) == (if k2 == k {
            None
        } else {
            entries_lookup(entries, k2)
        }),
    decreases entries.len(),
{
    if entries.len() > 0 {
        lemma_lookup_without(entries.drop_last(), k, k2);
        let rest = entries_without(entries.drop_last(), k);
        if entries.last().0 != k {
            assert(rest.push(entries.last()).drop_last() =~= rest);
        }
    }
}

/// What a lookup gives back after an insert: the inserted value for the inserted key, and the
/// earlier value for every other key.
pub proof fn lemma_lookup_insert<K, V>(entries: Seq<(K, V)>, k: K, v: V, k2: K)
    ensures
        entries_lookup(entries_insert(entries, k, v), k2) == (if k2 == k {
            Some(v)
        } else {
            entries_lookup(entries, k2)
        }),
{
    let w = entries_without(entries, k);
    assert(w.push((k, v)).drop_last() =~= w);
    lemma_lookup_without(entries, k, k2);
}

/// A lookup finds a key exactly when some entry has it.
pub proof fn lemma_lookup_some_iff_key<K, V>(entries: Seq<(K, V)>, k: K)
    ensures
        entries_lookup(entries, k) is Some <==> exists|i: int|
            0 <= i < entries.len() && #[trigger] entries[i].0 == k,
    decreases entries.len(),
{
    if entries.len() > 0 {
        lemma_lookup_some_iff_key(entries.drop_last(), k);
        if entries_lookup(entries.drop_last(), k) is Some {
            let i = choose|i: int| 0 <= i < entries.drop_last().len() && #[trigger] entries.drop_last()[i].0 == k;
            assert(entries[i].0 == k);
        }
        if exists|i: int| 0 <= i < entries.len() && #[trigger] entries[i].0 == k {
            let i = choose|i: int| 0 <= i < entries.len() && #[trigger] entries[i].0 == k;
            if i < entries.len() - 1 {
                assert(entries.drop_last()[i].0 == k);
            }
        }
    }
}

} // verus!

verus! {

/// A lookup finds a key exactly when the keys contain it.
pub proof fn lemma_lookup_some_iff_keys_contain<K, V>(entries: Seq<(K, V)>, k: K)
    ensures
        entries_lookup(entries, k) is Some <==> entries_keys(entries).contains(k),
{
    lemma_lookup_some_iff_key(entries, k);
    if entries_lookup(entries, k) is Some {
        let i = choose|i: int| 0 <= i < entries.len() && #[trigger] entries[i].0 == k;
        assert(entries_keys(entries)[i] == k);
    }
    if entries_keys(entries).contains(k) {
        let i = choose|i: int| 0 <= i < entries_keys(entries).len() && entries_keys(entries)[i] == k;
        assert(entries[i].0 == k);
    }
}

/// The entries left after removing a key are entries of the given ones, and none has that key.
pub proof fn lemma_without_entries<K, V>(entries: Seq<(K, V)>, k: K)
    ensures
        forall|i: int|
            0 <= i < entries_without(entries, k).len() ==> (#[trigger] entries_without(entries, k)[i]).0
                != k && entries.contains(entries_without(entries, k)[i]),
    decreases entries.len(),
{
    if entries.len() > 0 {
        let rest = entries_without(entries.drop_last(), k);
        lemma_without_entries(entries.drop_last(), k);
        assert forall|i: int| 0 <= i < entries_without(entries, k).len() implies (
        #[trigger] entries_without(entries, k)[i]).0 != k && entries.contains(
            entries_without(entries, k)[i],
        ) by {
            if i < rest.len() {
                assert(entries_without(entries, k)[i] == rest[i]);
                let j = choose|j: int| 0 <= j < entries.drop_last().len() && entries.drop_last()[j] == rest[i];
                assert(entries[j] == rest[i]);
            } else {
                assert(entries_without(entries, k)[i] == entries.last());
                assert(entries[entries.len() - 1] == entries.last());
            }
        }
    }
}

/// Removing a key keeps the keys distinct.
pub proof fn lemma_without_distinct<K, V>(entries: Seq<(K, V)>, k: K)
    requires
        entries_keys_distinct(entries),
    ensures
        entries_keys_distinct(entries_without(entries, k)),
    decreases entries.len(),
{
    if entries.len() > 0 {
        let init = entries.drop_last();
        assert(entries_keys_distinct(init)) by {
            assert forall|i: int, j: int|
                0 <= i < init.len() && 0 <= j < init.len() && i != j implies init[i].0 != init[j].0 by {
                assert(init[i] == entries[i] && init[j] == entries[j]);
            }
        }
        lemma_without_distinct(init, k);
        lemma_without_entries(init, k);
        let rest = entries_without(init, k);
        if entries.last().0 != k {
            assert forall|i: int| 0 <= i < rest.len() implies (#[trigger] rest[i]).0 != entries.last().0 by {
                let j = choose|j: int| 0 <= j < init.len() && init[j] == rest[i];
                assert(entries[j] == rest[i]);
                assert(entries[entries.len() - 1] == entries.last());
            }
            let w = rest.push(entries.last());
            assert forall|i: int, j: int|
                0 <= i < w.len() && 0 <= j < w.len() && i != j implies w[i].0 != w[j].0 by {
                if i < rest.len() && j < rest.len() {
                    assert(w[i] == rest[i] && w[j] == rest[j]);
                } else if i < rest.len() {
                    assert(w[i] == rest[i]);
                } else {
                    assert(w[j] == rest[j]);
                }
            }
        }
    }
}

/// Inserting keeps the keys distinct.
pub proof fn lemma_insert_distinct<K, V>(entries: Seq<(K, V)>, k: K, v: V)
    requires
        entries_keys_distinct(entries),
    ensures
        entries_keys_distinct(entries_insert(entries, k, v)),
{
    lemma_without_distinct(entries, k);
    lemma_without_entries(entries, k);
    let rest = entries_without(entries, k);
    let w = rest.push((k, v));
    assert forall|i: int, j: int| 0 <= i < w.len() && 0 <= j < w.len() && i != j implies w[i].0 != w[j].0 by {
        if i < rest.len() && j < rest.len() {
            assert(w[i] == rest[i] && w[j] == rest[j]);
        } else if i < rest.len() {
            assert(w[i] == rest[i]);
            assert(rest[i].0 != k);
        } else {
            assert(w[j] == rest[j]);
            assert(rest[j].0 != k);
        }
    }
}

} // verus!
