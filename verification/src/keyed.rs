//! Maps kept as lists of key and value pairs whose keys are all different,
//! and the facts that tie such a list to the map it stands for.

use vstd::prelude::*;

verus! {

/// Whether some pair of `s` has the key `k`.
pub open spec fn has_key<K, V>(s: Seq<(K, V)>, k: K) -> bool {
    exists|i: int| 0 <= i < s.len() && #[trigger] s[i].0 == k
}

/// Whether no two pairs of `s` share a key.
pub open spec fn keys_distinct<K, V>(s: Seq<(K, V)>) -> bool {
    forall|i: int, j: int|
        0 <= i < s.len() && 0 <= j < s.len() && i != j ==> #[trigger] s[i].0 != #[trigger] s[j].0
}

/// The map that a list of pairs stands for.
pub open spec fn keyed_map<K, V>(s: Seq<(K, V)>) -> Map<K, V> {
    Map::new(
        |k: K| has_key(s, k),
        |k: K| s[choose|i: int| 0 <= i < s.len() && #[trigger] s[i].0 == k].1,
    )
}

/// With distinct keys, the pair at `i` is what the map holds for its key.
pub proof fn lemma_keyed_at<K, V>(s: Seq<(K, V)>, i: int)
    requires
        keys_distinct(s),
        0 <= i < s.len(),
    ensures
        keyed_map(s).contains_key(s[i].0),
        keyed_map(s)[s[i].0] == s[i].1,
{
    assert(has_key(s, s[i].0));
    let j = choose|j: int| 0 <= j < s.len() && #[trigger] s[j].0 == s[i].0;
    assert(s[j].0 == s[i].0);
}

/// The empty list stands for the empty map.
pub proof fn lemma_keyed_empty<K, V>()
    ensures
        keyed_map(Seq::<(K, V)>::empty()) == Map::<K, V>::empty(),
        keys_distinct(Seq::<(K, V)>::empty()),
{
    assert(keyed_map(Seq::<(K, V)>::empty()) =~= Map::<K, V>::empty());
}

/// Giving the pair at `i` a new value gives its key that value in the map.
pub proof fn lemma_keyed_update<K, V>(s: Seq<(K, V)>, i: int, v: V)
    requires
        keys_distinct(s),
        0 <= i < s.len(),
    ensures
        keys_distinct(s.update(i, (s[i].0, v))),
        keyed_map(s.update(i, (s[i].0, v))) == keyed_map(s).insert(s[i].0, v),
{
    let t = s.update(i, (s[i].0, v));
    assert forall|a: int, b: int| 0 <= a < t.len() && 0 <= b < t.len() && a != b implies #[trigger] t[a].0
        != #[trigger] t[b].0 by {
        assert(t[a].0 == s[a].0 && t[b].0 == s[b].0);
    }
    let m = keyed_map(s).insert(s[i].0, v);
    assert forall|k: K| #[trigger] keyed_map(t).contains_key(k) <==> m.contains_key(k) by {
        if has_key(s, k) {
            let a = choose|a: int| 0 <= a < s.len() && #[trigger] s[a].0 == k;
            assert(t[a].0 == k);
        }
        if has_key(t, k) {
            let a = choose|a: int| 0 <= a < t.len() && #[trigger] t[a].0 == k;
            assert(s[a].0 == k);
        }
    }
    assert forall|k: K| #[trigger] keyed_map(t).contains_key(k) implies keyed_map(t)[k] == m[k] by {
        let a = choose|a: int| 0 <= a < t.len() && #[trigger] t[a].0 == k;
        lemma_keyed_at(t, a);
        if a == i {
        } else {
            assert(t[a] == s[a]);
            lemma_keyed_at(s, a);
            assert(s[a].0 != s[i].0);
        }
    }
    assert(keyed_map(t) =~= m);
}

/// Adding a pair with a new key gives the map that key.
pub proof fn lemma_keyed_push<K, V>(s: Seq<(K, V)>, k: K, v: V)
    requires
        keys_distinct(s),
        !has_key(s, k),
    ensures
        keys_distinct(s.push((k, v))),
        keyed_map(s.push((k, v))) == keyed_map(s).insert(k, v),
{
    let t = s.push((k, v));
    assert forall|a: int, b: int| 0 <= a < t.len() && 0 <= b < t.len() && a != b implies #[trigger] t[a].0
        != #[trigger] t[b].0 by {
        if a < s.len() && b < s.len() {
            assert(t[a] == s[a] && t[b] == s[b]);
        } else if a == s.len() {
            assert(t[b] == s[b]);
        } else {
            assert(t[a] == s[a]);
        }
    }
    let m = keyed_map(s).insert(k, v);
    assert forall|x: K| #[trigger] keyed_map(t).contains_key(x) <==> m.contains_key(x) by {
        if has_key(s, x) {
            let a = choose|a: int| 0 <= a < s.len() && #[trigger] s[a].0 == x;
            assert(t[a].0 == x);
        }
        if x == k {
            assert(t[s.len() as int].0 == k);
        }
        if has_key(t, x) && x != k {
            let a = choose|a: int| 0 <= a < t.len() && #[trigger] t[a].0 == x;
            assert(a < s.len());
            assert(s[a].0 == x);
        }
    }
    assert forall|x: K| #[trigger] keyed_map(t).contains_key(x) implies keyed_map(t)[x] == m[x] by {
        let a = choose|a: int| 0 <= a < t.len() && #[trigger] t[a].0 == x;
        lemma_keyed_at(t, a);
        if a < s.len() {
            assert(t[a] == s[a]);
            lemma_keyed_at(s, a);
        }
    }
    assert(keyed_map(t) =~= m);
}

} // verus!
