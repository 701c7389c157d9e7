//! Sequences of pairs with distinct keys, and the maps that they stand for.

use vstd::prelude::*;

verus! {

/// Whether the pair at position `i` of `s` has the key `key`.
pub open spec fn has_key<K, V>(s: Seq<(K, V)>, i: int, key: K) -> bool {
    0 <= i < s.len() && s[i].0 == key
}

/// No key occurs twice in `s`.
pub open spec fn distinct_keys<K, V>(s: Seq<(K, V)>) -> bool {
    forall|i: int, j: int| 0 <= i < j < s.len() ==> (#[trigger] s[i]).0 != (#[trigger] s[j]).0
}

/// The map that takes each key of `s` to the value beside it.
pub open spec fn to_map<K, V>(s: Seq<(K, V)>) -> Map<K, V> {
    Map::new(
        |key: K| exists|i: int| has_key(s, i, key),
        |key: K| s[choose|i: int| has_key(s, i, key)].1,
    )
}

/// Each pair of `s` is a pair of its map.
pub proof fn lemma_entry<K, V>(s: Seq<(K, V)>, i: int)
    requires
        distinct_keys(s),
        0 <= i < s.len(),
    ensures
        to_map(s).dom().contains(s[i].0),
        to_map(s)[s[i].0] == s[i].1,
{
    assert(has_key(s, i, s[i].0));
    let j = choose|j: int| has_key(s, j, s[i].0);
    assert(has_key(s, j, s[i].0));
    if j < i {
        assert(s[j].0 != s[i].0);
    } else if i < j {
        assert(s[i].0 != s[j].0);
    }
}

/// A key of the map is the key of some pair of `s`.
pub proof fn lemma_position<K, V>(s: Seq<(K, V)>, key: K) -> (i: int)
    requires
        to_map(s).dom().contains(key),
    ensures
        has_key(s, i, key),
{
    choose|i: int| has_key(s, i, key)
}

/// A key that no pair of `s` has is no key of its map.
pub proof fn lemma_absent<K, V>(s: Seq<(K, V)>, key: K)
    requires
        forall|i: int| 0 <= i < s.len() ==> (#[trigger] s[i]).0 != key,
    ensures
        !to_map(s).dom().contains(key),
{
    if to_map(s).dom().contains(key) {
        let i = lemma_position(s, key);
        assert(s[i].0 == key);
    }
}

/// Replacing the value of the pair at position `i` replaces the value of its key in the map.
pub proof fn lemma_update<K, V>(s: Seq<(K, V)>, i: int, value: V)
    requires
        distinct_keys(s),
        0 <= i < s.len(),
    ensures
        distinct_keys(s.update(i, (s[i].0, value))),
        to_map(s.update(i, (s[i].0, value))) == to_map(s).insert(s[i].0, value),
{
    let t = s.update(i, (s[i].0, value));
    assert forall|a: int, b: int| 0 <= a < b < t.len() implies (#[trigger] t[a]).0 != (
    #[trigger] t[b]).0 by {
        assert(t[a].0 == s[a].0);
        assert(t[b].0 == s[b].0);
    }
    let m = to_map(s).insert(s[i].0, value);
    assert forall|key: K| to_map(t).dom().contains(key) <==> m.dom().contains(key) by {
        if to_map(t).dom().contains(key) {
            let p = lemma_position(t, key);
            assert(has_key(s, p, key));
        }
        if m.dom().contains(key) && key != s[i].0 {
            let p = lemma_position(s, key);
            assert(has_key(t, p, key));
        }
        if key == s[i].0 {
            assert(has_key(t, i, key));
        }
    }
    assert forall|key: K| to_map(t).dom().contains(key) implies to_map(t)[key] == m[key] by {
        let p = lemma_position(t, key);
        lemma_entry(t, p);
        if p != i {
            assert(t[p] == s[p]);
            lemma_entry(s, p);
        }
    }
    assert(to_map(t) =~= m);
}

/// Appending a pair with a new key adds the pair to the map.
pub proof fn lemma_push<K, V>(s: Seq<(K, V)>, key: K, value: V)
    requires
        distinct_keys(s),
        forall|i: int| 0 <= i < s.len() ==> (#[trigger] s[i]).0 != key,
    ensures
        distinct_keys(s.push((key, value))),
        to_map(s.push((key, value))) == to_map(s).insert(key, value),
{
    let t = s.push((key, value));
    assert forall|a: int, b: int| 0 <= a < b < t.len() implies (#[trigger] t[a]).0 != (
    #[trigger] t[b]).0 by {
        if b < s.len() {
            assert(t[a] == s[a] && t[b] == s[b]);
        } else {
            assert(t[a] == s[a]);
        }
    }
    let m = to_map(s).insert(key, value);
    assert forall|k: K| to_map(t).dom().contains(k) <==> m.dom().contains(k) by {
        if to_map(t).dom().contains(k) {
            let p = lemma_position(t, k);
            if p < s.len() {
                assert(has_key(s, p, k));
            }
        }
        if m.dom().contains(k) && k != key {
            let p = lemma_position(s, k);
            assert(has_key(t, p, k));
        }
        if k == key {
            assert(has_key(t, s.len() as int, k));
        }
    }
    assert forall|k: K| to_map(t).dom().contains(k) implies to_map(t)[k] == m[k] by {
        let p = lemma_position(t, k);
        lemma_entry(t, p);
        if p < s.len() {
            assert(t[p] == s[p]);
            lemma_entry(s, p);
        }
    }
    assert(to_map(t) =~= m);
}

} // verus!
