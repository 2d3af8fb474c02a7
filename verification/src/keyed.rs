//! Sequences of records in which each record has its own key, read as maps
//! from keys to records.
use vstd::prelude::*;

verus! {

/// The map from each key of `s` to the last record of `s` with that key.
pub open spec fn index_map<K, V>(s: Seq<V>, key: spec_fn(V) -> K) -> Map<K, V>
    decreases s.len(),
{
    if s.len() == 0 {
        Map::empty()
    } else {
        index_map(s.drop_last(), key).insert(key(s.last()), s.last())
    }
}

/// Whether no two records of `s` have the same key.
pub open spec fn keys_unique<K, V>(s: Seq<V>, key: spec_fn(V) -> K) -> bool {
    forall|i: int, j: int|
        #![trigger key(s[i]), key(s[j])]
        0 <= i < s.len() && 0 <= j < s.len() && i != j ==> key(s[i]) != key(s[j])
}

/// A key is in the map exactly when some record has it.
pub proof fn lemma_index_map_dom<K, V>(s: Seq<V>, key: spec_fn(V) -> K, k: K)
    ensures
        index_map(s, key).contains_key(k) <==> exists|i: int|
            0 <= i < s.len() && #[trigger] key(s[i]) == k,
    decreases s.len(),
{
    if s.len() > 0 {
        let t = s.drop_last();
        lemma_index_map_dom(t, key, k);
        if index_map(s, key).contains_key(k) {
            if key(s.last()) == k {
                assert(key(s[s.len() - 1]) == k);
            } else {
                let i = choose|i: int| 0 <= i < t.len() && #[trigger] key(t[i]) == k;
                assert(key(s[i]) == k);
            }
        }
        if exists|i: int| 0 <= i < s.len() && #[trigger] key(s[i]) == k {
            let i = choose|i: int| 0 <= i < s.len() && #[trigger] key(s[i]) == k;
            if i < s.len() - 1 {
                assert(key(t[i]) == k);
            }
        }
    }
}

/// With unique keys, the map sends each record's key to that record.
pub proof fn lemma_index_map_value<K, V>(s: Seq<V>, key: spec_fn(V) -> K, i: int)
    requires
        keys_unique(s, key),
        0 <= i < s.len(),
    ensures
        index_map(s, key).contains_key(key(s[i])),
        index_map(s, key)[key(s[i])] == s[i],
    decreases s.len(),
{
    if i < s.len() - 1 {
        let t = s.drop_last();
        assert(keys_unique(t, key)) by {
            assert forall|a: int, b: int|
                0 <= a < t.len() && 0 <= b < t.len() && a != b implies key(t[a]) != key(t[b]) by {
                assert(t[a] == s[a] && t[b] == s[b]);
            }
        }
        assert(t[i] == s[i]);
        assert(key(s[i]) != key(s[s.len() - 1]));
        lemma_index_map_value(t, key, i);
    }
}

/// Appending a record whose key is new keeps the keys unique.
pub proof fn lemma_keys_unique_push<K, V>(s: Seq<V>, key: spec_fn(V) -> K, v: V)
    requires
        keys_unique(s, key),
        !index_map(s, key).contains_key(key(v)),
    ensures
        keys_unique(s.push(v), key),
{
    let u = s.push(v);
    assert forall|a: int, b: int|
        0 <= a < u.len() && 0 <= b < u.len() && a != b implies key(u[a]) != key(u[b]) by {
        if a == s.len() {
            lemma_index_map_dom(s, key, key(v));
            assert(u[b] == s[b]);
        } else if b == s.len() {
            lemma_index_map_dom(s, key, key(v));
            assert(u[a] == s[a]);
        } else {
            assert(u[a] == s[a] && u[b] == s[b]);
        }
    }
}

/// Removing a record keeps the keys unique and removes its key from the map.
pub proof fn lemma_index_map_remove<K, V>(s: Seq<V>, key: spec_fn(V) -> K, i: int)
    requires
        keys_unique(s, key),
        0 <= i < s.len(),
    ensures
        keys_unique(s.remove(i), key),
        index_map(s.remove(i), key) == index_map(s, key).remove(key(s[i])),
    decreases s.len(),
{
    let r = s.remove(i);
    assert forall|a: int, b: int|
        0 <= a < r.len() && 0 <= b < r.len() && a != b implies key(r[a]) != key(r[b]) by {
        let a2 = if a < i { a } else { a + 1 };
        let b2 = if b < i { b } else { b + 1 };
        assert(r[a] == s[a2] && r[b] == s[b2]);
    }
    let t = s.drop_last();
    assert(keys_unique(t, key)) by {
        assert forall|a: int, b: int|
            0 <= a < t.len() && 0 <= b < t.len() && a != b implies key(t[a]) != key(t[b]) by {
            assert(t[a] == s[a] && t[b] == s[b]);
        }
    }
    if i == s.len() - 1 {
        assert(r =~= t);
        assert(!index_map(t, key).contains_key(key(s.last()))) by {
            lemma_index_map_dom(t, key, key(s.last()));
            if exists|j: int| 0 <= j < t.len() && #[trigger] key(t[j]) == key(s.last()) {
                let j = choose|j: int| 0 <= j < t.len() && #[trigger] key(t[j]) == key(s.last());
                assert(t[j] == s[j]);
                assert(key(s[j]) == key(s[s.len() - 1]));
            }
        }
        assert(index_map(r, key) =~= index_map(s, key).remove(key(s[i])));
    } else {
        lemma_index_map_remove(t, key, i);
        assert(r =~= t.remove(i).push(s.last()));
        assert(r.drop_last() =~= t.remove(i));
        assert(t[i] == s[i]);
        assert(key(s[i]) != key(s[s.len() - 1]));
        assert(index_map(r, key) =~= index_map(s, key).remove(key(s[i])));
    }
}

} // verus!
