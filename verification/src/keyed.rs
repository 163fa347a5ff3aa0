//! Sequences of key-value pairs with distinct keys, read as maps.
//!
//! The registry and the escrow ledger keep their entries in a vector.  This
//! module says which map such a sequence stands for and how pushing,
//! overwriting and removing an entry change that map.

use vstd::prelude::*;

verus! {

/// No key occurs twice in `s`.
pub open spec fn keys_distinct<K, V>(s: Seq<(K, V)>) -> bool {
    forall|i: int, j: int| 0 <= i < j < s.len() ==> (#[trigger] s[i]).0 != (#[trigger] s[j]).0
}

/// Some entry of `s` has the key `k`.
pub open spec fn has_key<K, V>(s: Seq<(K, V)>, k: K) -> bool {
    exists|i: int| 0 <= i < s.len() && (#[trigger] s[i]).0 == k
}

/// The index of an entry of `s` with the key `k`, where there is one.
pub open spec fn index_of_key<K, V>(s: Seq<(K, V)>, k: K) -> int {
    choose|i: int| 0 <= i < s.len() && (#[trigger] s[i]).0 == k
}

/// The map that `s` stands for: its keys are the keys of the entries, and
/// each key leads to the value it is paired with.
pub open spec fn as_map<K, V>(s: Seq<(K, V)>) -> Map<K, V> {
    Map::new(|k: K| has_key(s, k), |k: K| s[index_of_key(s, k)].1)
}

/// The entry at index `i` is in the map.
pub proof fn lemma_as_map_at<K, V>(s: Seq<(K, V)>, i: int)
    requires
        keys_distinct(s),
        0 <= i < s.len(),
    ensures
        as_map(s).contains_key(s[i].0),
        as_map(s)[s[i].0] == s[i].1,
{
    // The index chosen for the key of `s[i]` can only be `i`.
    assert(has_key(s, s[i].0));
    assert(index_of_key(s, s[i].0) == i);
}

/// A key that no entry has is not in the map.
pub proof fn lemma_as_map_absent<K, V>(s: Seq<(K, V)>, k: K)
    requires
        forall|i: int| 0 <= i < s.len() ==> (#[trigger] s[i]).0 != k,
    ensures
        !as_map(s).contains_key(k),
{
}

/// Pushing an entry with a new key inserts it into the map.
pub proof fn lemma_as_map_push<K, V>(s: Seq<(K, V)>, k: K, v: V)
    requires
        keys_distinct(s),
        !has_key(s, k),
    ensures
        keys_distinct(s.push((k, v))),
        as_map(s.push((k, v))) == as_map(s).insert(k, v),
{
    let t = s.push((k, v));
    assert(keys_distinct(t));
    lemma_as_map_at(t, s.len() as int);
    assert forall|key: K| as_map(t).contains_key(key) <==> as_map(s).insert(
        k,
        v,
    ).contains_key(key) by {
        if as_map(t).contains_key(key) && key != k {
            assert(s[index_of_key(t, key)].0 == key);
        }
        if as_map(s).contains_key(key) {
            assert(t[index_of_key(s, key)].0 == key);
        }
    }
    assert forall|key: K| as_map(t).contains_key(key) implies as_map(t)[key] == as_map(s).insert(
        k,
        v,
    )[key] by {
        if key != k {
            let j = index_of_key(s, key);
            assert(t[j] == s[j]);
            lemma_as_map_at(t, j);
            lemma_as_map_at(s, j);
        }
    }
    assert(as_map(t) =~= as_map(s).insert(k, v));
}

/// Overwriting the value of the entry at index `i` overwrites it in the map.
pub proof fn lemma_as_map_update<K, V>(s: Seq<(K, V)>, i: int, v: V)
    requires
        keys_distinct(s),
        0 <= i < s.len(),
    ensures
        keys_distinct(s.update(i, (s[i].0, v))),
        as_map(s.update(i, (s[i].0, v))) == as_map(s).insert(s[i].0, v),
{
    let k = s[i].0;
    let t = s.update(i, (k, v));
    assert forall|a: int, b: int| 0 <= a < b < t.len() implies (#[trigger] t[a]).0 != (
    #[trigger] t[b]).0 by {
        assert(t[a].0 == s[a].0 && t[b].0 == s[b].0);
    }
    lemma_as_map_at(t, i);
    lemma_as_map_at(s, i);
    assert forall|key: K| as_map(t).contains_key(key) <==> as_map(s).insert(
        k,
        v,
    ).contains_key(key) by {
        if as_map(t).contains_key(key) {
            assert(s[index_of_key(t, key)].0 == key);
        }
        if as_map(s).contains_key(key) {
            assert(t[index_of_key(s, key)].0 == key);
        }
    }
    assert forall|key: K| as_map(t).contains_key(key) implies as_map(t)[key] == as_map(s).insert(
        k,
        v,
    )[key] by {
        if key != k {
            let j = index_of_key(s, key);
            assert(t[j] == s[j]);
            lemma_as_map_at(t, j);
            lemma_as_map_at(s, j);
        }
    }
    assert(as_map(t) =~= as_map(s).insert(k, v));
}

/// Removing the entry at index `i` removes its key from the map.
pub proof fn lemma_as_map_remove<K, V>(s: Seq<(K, V)>, i: int)
    requires
        keys_distinct(s),
        0 <= i < s.len(),
    ensures
        keys_distinct(s.remove(i)),
        as_map(s.remove(i)) == as_map(s).remove(s[i].0),
{
    let k = s[i].0;
    let t = s.remove(i);
    // Where the entry at index `a` of `t` stood in `s`.
    let origin = |a: int| if a < i { a } else { a + 1 };
    assert forall|a: int| 0 <= a < t.len() implies #[trigger] t[a] == s[origin(a)] by {}
    assert forall|a: int, b: int| 0 <= a < b < t.len() implies (#[trigger] t[a]).0 != (
    #[trigger] t[b]).0 by {
        assert(t[a] == s[origin(a)] && t[b] == s[origin(b)]);
    }
    assert forall|key: K| as_map(t).contains_key(key) <==> as_map(s).remove(k).contains_key(
        key,
    ) by {
        if as_map(t).contains_key(key) {
            let j = index_of_key(t, key);
            assert(t[j] == s[origin(j)]);
            assert(s[origin(j)].0 == key && origin(j) != i);
        }
        if as_map(s).contains_key(key) && key != k {
            let j = index_of_key(s, key);
            let moved = if j < i { j } else { j - 1 };
            assert(t[moved] == s[j]);
        }
    }
    assert forall|key: K| as_map(t).contains_key(key) implies as_map(t)[key] == as_map(s).remove(
        k,
    )[key] by {
        let j = index_of_key(t, key);
        assert(t[j] == s[origin(j)]);
        lemma_as_map_at(t, j);
        lemma_as_map_at(s, origin(j));
    }
    assert(as_map(t) =~= as_map(s).remove(k));
}

} // verus!
