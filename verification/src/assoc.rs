//! Association lists: a sequence of key and value pairs read as a map, in
//! which the first entry of a key is the one that counts.

use vstd::prelude::*;

verus! {

/// Some entry of `entries` has the key `k`.
pub open spec fn has_key<K, V>(entries: Seq<(K, V)>, k: K) -> bool {
    exists|i: int| 0 <= i < entries.len() && (#[trigger] entries[i]).0 == k
}

/// The entry at `i` is the first of `entries` with the key `k`.
pub open spec fn is_first<K, V>(entries: Seq<(K, V)>, k: K, i: int) -> bool {
    &&& 0 <= i < entries.len()
    &&& entries[i].0 == k
    &&& forall|j: int| 0 <= j < i ==> (#[trigger] entries[j]).0 != k
}

/// The place of the first entry with the key `k`.
pub open spec fn first_place<K, V>(entries: Seq<(K, V)>, k: K) -> int {
    choose|i: int| is_first(entries, k, i)
}

/// The map that `entries` stands for: each key to the value of its first
/// entry.
pub open spec fn as_map<K, V>(entries: Seq<(K, V)>) -> Map<K, V> {
    Map::new(|k: K| has_key(entries, k), |k: K| entries[first_place(entries, k)].1)
}

/// Where an entry at `p` has the key `k`, some entry is the first with it.
proof fn lemma_first_exists<K, V>(entries: Seq<(K, V)>, k: K, p: int)
    requires
        0 <= p < entries.len(),
        entries[p].0 == k,
    ensures
        is_first(entries, k, first_place(entries, k)),
        first_place(entries, k) <= p,
    decreases p,
{
    if forall|j: int| 0 <= j < p ==> (#[trigger] entries[j]).0 != k {
        assert(is_first(entries, k, p));
    } else {
        let j = choose|j: int| 0 <= j < p && (#[trigger] entries[j]).0 == k;
        lemma_first_exists(entries, k, j);
    }
}

/// The first entry of a key is what the map holds for it.
pub proof fn lemma_first_is_mapped<K, V>(entries: Seq<(K, V)>, k: K, i: int)
    requires
        is_first(entries, k, i),
    ensures
        as_map(entries).contains_key(k),
        as_map(entries)[k] == entries[i].1,
        first_place(entries, k) == i,
{
    lemma_first_exists(entries, k, i);
}

/// A key that no entry has is not in the map.
pub proof fn lemma_absent_is_unmapped<K, V>(entries: Seq<(K, V)>, k: K)
    requires
        !has_key(entries, k),
    ensures
        !as_map(entries).contains_key(k),
{
}

/// The empty list stands for the empty map.
pub proof fn lemma_empty_map<K, V>()
    ensures
        as_map(Seq::<(K, V)>::empty()) == Map::<K, V>::empty(),
{
}

/// Appending an entry with a key that no entry has inserts it into the map.
pub proof fn lemma_push_inserts<K, V>(entries: Seq<(K, V)>, k: K, v: V)
    requires
        !has_key(entries, k),
    ensures
        as_map(entries.push((k, v))) == as_map(entries).insert(k, v),
{
    let after = entries.push((k, v));
    let n = entries.len() as int;
    assert(after[n].0 == k);
    assert forall|q: K| #[trigger]
        as_map(after).contains_key(q) == as_map(entries).insert(k, v).contains_key(q) by {
        if has_key(entries, q) {
            let p = choose|p: int| 0 <= p < entries.len() && (#[trigger] entries[p]).0 == q;
            assert(after[p].0 == q);
        }
    }
    assert forall|q: K| #[trigger] as_map(after).contains_key(q) implies as_map(after)[q]
        == as_map(entries).insert(k, v)[q] by {
        if q == k {
            lemma_first_is_mapped(after, k, n);
        } else {
            let w = choose|p: int| 0 <= p < entries.len() && (#[trigger] entries[p]).0 == q;
            lemma_first_exists(entries, q, w);
            let p = first_place(entries, q);
            lemma_first_is_mapped(after, q, p);
        }
    }
}

/// Replacing the value of a key's first entry replaces what the map holds for
/// that key.
pub proof fn lemma_update_inserts<K, V>(entries: Seq<(K, V)>, i: int, v: V)
    requires
        0 <= i < entries.len(),
        is_first(entries, entries[i].0, i),
    ensures
        as_map(entries.update(i, (entries[i].0, v))) == as_map(entries).insert(entries[i].0, v),
{
    let k = entries[i].0;
    let after = entries.update(i, (k, v));
    assert forall|q: K| #[trigger]
        as_map(after).contains_key(q) == as_map(entries).insert(k, v).contains_key(q) by {
        if has_key(entries, q) {
            let p = choose|p: int| 0 <= p < entries.len() && (#[trigger] entries[p]).0 == q;
            assert(after[p].0 == q);
        }
    }
    assert forall|q: K| #[trigger] as_map(after).contains_key(q) implies as_map(after)[q]
        == as_map(entries).insert(k, v)[q] by {
        if q == k {
            lemma_first_is_mapped(after, k, i);
        } else {
            let w = choose|p: int| 0 <= p < after.len() && (#[trigger] after[p]).0 == q;
            lemma_first_exists(entries, q, w);
            let p = first_place(entries, q);
            lemma_first_is_mapped(after, q, p);
        }
    }
}

/// The maps `a` and `b` hold the same under every key but `k`.
pub open spec fn same_but_for<K, V>(a: Map<K, V>, b: Map<K, V>, k: K) -> bool {
    forall|q: K|
        q != k ==> (#[trigger] a.contains_key(q)) == b.contains_key(q) && (b.contains_key(q)
            ==> a[q] == b[q])
}

/// Taking one entry out leaves what the map holds for every other key.
pub proof fn lemma_remove_keeps_others<K, V>(entries: Seq<(K, V)>, i: int)
    requires
        0 <= i < entries.len(),
    ensures
        same_but_for(as_map(entries.remove(i)), as_map(entries), entries[i].0),
{
    assert forall|q: K| q != entries[i].0 implies (#[trigger] as_map(
        entries.remove(i),
    ).contains_key(q)) == as_map(entries).contains_key(q) && (as_map(entries).contains_key(q)
        ==> as_map(entries.remove(i))[q] == as_map(entries)[q]) by {
        lemma_remove_keeps_key(entries, i, q);
    }
}

proof fn lemma_remove_keeps_key<K, V>(entries: Seq<(K, V)>, i: int, q: K)
    requires
        0 <= i < entries.len(),
        q != entries[i].0,
    ensures
        as_map(entries.remove(i)).contains_key(q) == as_map(entries).contains_key(q),
        as_map(entries).contains_key(q) ==> as_map(entries.remove(i))[q] == as_map(entries)[q],
{
    let after = entries.remove(i);
    assert forall|a: int| 0 <= a < after.len() implies #[trigger] after[a] == entries[if a < i {
        a
    } else {
        a + 1
    }] by {}
    if has_key(entries, q) {
        let w = choose|p: int| 0 <= p < entries.len() && (#[trigger] entries[p]).0 == q;
        lemma_first_exists(entries, q, w);
        let p = first_place(entries, q);
        let target = if p < i { p } else { p - 1 };
        lemma_first_is_mapped(after, q, target);
    }
}

} // verus!
