//! Keyed tables kept as vectors: a sequence of entries whose keys are pairwise
//! distinct stands for the map from each entry's key to its value.

use vstd::prelude::*;

verus! {

/// No two entries of `s` have the same key.
pub open spec fn unique_keys<T, K>(s: Seq<T>, key: spec_fn(T) -> K) -> bool {
    forall|i: int, j: int|
        0 <= i < s.len() && 0 <= j < s.len() && i != j ==> key(s[i]) != key(s[j])
}

/// Some entry of `s` has key `k`.
pub open spec fn has_key<T, K>(s: Seq<T>, key: spec_fn(T) -> K, k: K) -> bool {
    exists|i: int| 0 <= i < s.len() && key(s[i]) == k
}

/// The map that `s` stands for: each key to the value of its entry.
pub open spec fn table_map<T, K, V>(s: Seq<T>, key: spec_fn(T) -> K, val: spec_fn(T) -> V) -> Map<
    K,
    V,
> {
    Map::new(
        |k: K| has_key(s, key, k),
        |k: K| val(s[choose|i: int| 0 <= i < s.len() && key(s[i]) == k]),
    )
}

/// The entry at `i` is what the map holds for its key.
pub proof fn lemma_table_get<T, K, V>(
    s: Seq<T>,
    key: spec_fn(T) -> K,
    val: spec_fn(T) -> V,
    i: int,
)
    requires
        unique_keys(s, key),
        0 <= i < s.len(),
    ensures
        table_map(s, key, val).contains_key(key(s[i])),
        table_map(s, key, val)[key(s[i])] == val(s[i]),
{
    let k = key(s[i]);
    assert(has_key(s, key, k));
    let j = choose|j: int| 0 <= j < s.len() && key(s[j]) == k;
    assert(j == i);
}

/// A key that no entry has is not in the map.
pub proof fn lemma_table_absent<T, K, V>(s: Seq<T>, key: spec_fn(T) -> K, val: spec_fn(T) -> V, k: K)
    requires
        forall|i: int| 0 <= i < s.len() ==> key(s[i]) != k,
    ensures
        !table_map(s, key, val).contains_key(k),
{
}

/// Replacing an entry by one with the same key updates the map at that key.
pub proof fn lemma_table_update<T, K, V>(
    s: Seq<T>,
    key: spec_fn(T) -> K,
    val: spec_fn(T) -> V,
    i: int,
    x: T,
)
    requires
        unique_keys(s, key),
        0 <= i < s.len(),
        key(x) == key(s[i]),
    ensures
        unique_keys(s.update(i, x), key),
        table_map(s.update(i, x), key, val) == table_map(s, key, val).insert(key(x), val(x)),
{
    let t = s.update(i, x);
    assert(unique_keys(t, key)) by {
        assert forall|a: int, b: int|
            0 <= a < t.len() && 0 <= b < t.len() && a != b implies key(t[a]) != key(t[b]) by {
            assert(key(t[a]) == key(s[a]));
            assert(key(t[b]) == key(s[b]));
        }
    }
    let m1 = table_map(t, key, val);
    let m2 = table_map(s, key, val).insert(key(x), val(x));
    assert forall|k: K| #[trigger] m1.contains_key(k) == m2.contains_key(k) by {
        if has_key(t, key, k) {
            let j = choose|j: int| 0 <= j < t.len() && key(t[j]) == k;
            assert(key(s[j]) == k);
        }
        if has_key(s, key, k) {
            let j = choose|j: int| 0 <= j < s.len() && key(s[j]) == k;
            assert(key(t[j]) == k);
        }
    }
    assert forall|k: K| #[trigger] m1.contains_key(k) implies m1[k] == m2[k] by {
        let j = choose|j: int| 0 <= j < t.len() && key(t[j]) == k;
        if j == i {
            lemma_table_get(t, key, val, i);
        } else {
            lemma_table_get(t, key, val, j);
            lemma_table_get(s, key, val, j);
        }
    }
    assert(m1 =~= m2);
}

/// Appending an entry with a new key inserts it into the map.
pub proof fn lemma_table_push<T, K, V>(s: Seq<T>, key: spec_fn(T) -> K, val: spec_fn(T) -> V, x: T)
    requires
        unique_keys(s, key),
        forall|i: int| 0 <= i < s.len() ==> key(s[i]) != key(x),
    ensures
        unique_keys(s.push(x), key),
        table_map(s.push(x), key, val) == table_map(s, key, val).insert(key(x), val(x)),
{
    let t = s.push(x);
    assert(unique_keys(t, key)) by {
        assert forall|a: int, b: int|
            0 <= a < t.len() && 0 <= b < t.len() && a != b implies key(t[a]) != key(t[b]) by {
            if a < s.len() {
                assert(t[a] == s[a]);
            }
            if b < s.len() {
                assert(t[b] == s[b]);
            }
        }
    }
    let m1 = table_map(t, key, val);
    let m2 = table_map(s, key, val).insert(key(x), val(x));
    assert forall|k: K| #[trigger] m1.contains_key(k) == m2.contains_key(k) by {
        if has_key(t, key, k) {
            let j = choose|j: int| 0 <= j < t.len() && key(t[j]) == k;
            if j < s.len() {
                assert(key(s[j]) == k);
            }
        }
        if has_key(s, key, k) {
            let j = choose|j: int| 0 <= j < s.len() && key(s[j]) == k;
            assert(key(t[j]) == k);
        }
        if k == key(x) {
            assert(key(t[s.len() as int]) == k);
        }
    }
    assert forall|k: K| #[trigger] m1.contains_key(k) implies m1[k] == m2[k] by {
        let j = choose|j: int| 0 <= j < t.len() && key(t[j]) == k;
        lemma_table_get(t, key, val, j);
        if j < s.len() {
            assert(t[j] == s[j]);
            lemma_table_get(s, key, val, j);
        }
    }
    assert(m1 =~= m2);
}

} // verus!
