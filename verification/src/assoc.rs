use vstd::prelude::*;

verus! {

/// `key` names an entry of `s`.
pub open spec fn has_key<K, V>(s: Seq<(K, V)>, key: K) -> bool {
    exists|i: int| 0 <= i < s.len() && (#[trigger] s[i]).0 == key
}

/// No two entries of `s` share a key.
pub open spec fn distinct_keys<K, V>(s: Seq<(K, V)>) -> bool {
    forall|i: int, j: int| 0 <= i < j < s.len() ==> (#[trigger] s[i]).0 != (#[trigger] s[j]).0
}

/// `i` is the place of the first entry of `s` named `key`.
pub open spec fn first_at<K, V>(s: Seq<(K, V)>, key: K, i: int) -> bool {
    &&& 0 <= i < s.len()
    &&& s[i].0 == key
    &&& forall|j: int| 0 <= j < i ==> (#[trigger] s[j]).0 != key
}

/// The place of the first entry named `key`, where there is one.
pub open spec fn index_of<K, V>(s: Seq<(K, V)>, key: K) -> int {
    choose|i: int| first_at(s, key, i)
}

/// The entry named `key`, if any.
pub open spec fn find<K, V>(s: Seq<(K, V)>, key: K) -> Option<V> {
    if has_key(s, key) {
        Some(s[index_of(s, key)].1)
    } else {
        None
    }
}

/// `s` with `e` in the place of the entry that shares its key, or at the end where
/// no entry does.
pub open spec fn upsert<K, V>(s: Seq<(K, V)>, e: (K, V)) -> Seq<(K, V)> {
    if has_key(s, e.0) {
        s.update(index_of(s, e.0), e)
    } else {
        s.push(e)
    }
}

/// `s` without the entry named `key`; the others keep their order.
pub open spec fn without<K, V>(s: Seq<(K, V)>, key: K) -> Seq<(K, V)> {
    if has_key(s, key) {
        s.remove(index_of(s, key))
    } else {
        s
    }
}

/// Every place that holds `key` first is the same place.
pub proof fn lemma_first_at_unique<K, V>(s: Seq<(K, V)>, key: K, i: int)
    requires
        first_at(s, key, i),
    ensures
        has_key(s, key),
        index_of(s, key) == i,
{
    let j = index_of(s, key);
    assert(first_at(s, key, j));
    if j < i {
        assert(s[j].0 != key);
    }
    if i < j {
        assert(s[i].0 != key);
    }
}

/// Replacing or appending an entry keeps the keys distinct.
pub proof fn lemma_upsert_distinct<K, V>(s: Seq<(K, V)>, e: (K, V))
    requires
        distinct_keys(s),
    ensures
        distinct_keys(upsert(s, e)),
        has_key(upsert(s, e), e.0),
        find(upsert(s, e), e.0) == Some(e.1),
        forall|k: K| k != e.0 ==> find(upsert(s, e), k) == find(s, k),
{
    let t = upsert(s, e);
    lemma_has_key_first(s, e.0);
    if has_key(s, e.0) {
        let p = index_of(s, e.0);
        assert(first_at(s, e.0, p));
        assert forall|i: int, j: int| 0 <= i < j < t.len() implies (#[trigger] t[i]).0 != (
        #[trigger] t[j]).0 by {
            assert(s[i].0 != s[j].0);
        }
        assert(t[p].0 == e.0);
        assert(first_at(t, e.0, p)) by {
            assert forall|j: int| 0 <= j < p implies (#[trigger] t[j]).0 != e.0 by {
                assert(s[j].0 != e.0);
            }
        }
        lemma_first_at_unique(t, e.0, p);
        assert forall|k: K| k != e.0 implies find(t, k) == find(s, k) by {
            lemma_has_key_first(s, k);
            lemma_has_key_first(t, k);
            if has_key(s, k) {
                let q = index_of(s, k);
                assert(first_at(s, k, q));
                assert(q != p);
                assert(first_at(t, k, q)) by {
                    assert forall|j: int| 0 <= j < q implies (#[trigger] t[j]).0 != k by {
                        assert(s[j].0 != k);
                    }
                }
                lemma_first_at_unique(t, k, q);
            } else if has_key(t, k) {
                let q = index_of(t, k);
                assert(first_at(t, k, q));
                assert(s[q].0 == k);
            }
        }
    } else {
        let p = s.len() as int;
        assert forall|i: int, j: int| 0 <= i < j < t.len() implies (#[trigger] t[i]).0 != (
        #[trigger] t[j]).0 by {
            if j < p {
                assert(s[i].0 != s[j].0);
            } else {
                assert(s[i].0 != e.0);
            }
        }
        assert(t[p] == e);
        assert(first_at(t, e.0, p)) by {
            assert forall|j: int| 0 <= j < p implies (#[trigger] t[j]).0 != e.0 by {
                assert(s[j].0 != e.0);
            }
        }
        lemma_first_at_unique(t, e.0, p);
        assert forall|k: K| k != e.0 implies find(t, k) == find(s, k) by {
            lemma_has_key_first(s, k);
            lemma_has_key_first(t, k);
            if has_key(s, k) {
                let q = index_of(s, k);
                assert(first_at(s, k, q));
                assert(first_at(t, k, q)) by {
                    assert(t[q] == s[q]);
                    assert forall|j: int| 0 <= j < q implies (#[trigger] t[j]).0 != k by {
                        assert(s[j].0 != k);
                    }
                }
                lemma_first_at_unique(t, k, q);
            } else if has_key(t, k) {
                let q = index_of(t, k);
                assert(first_at(t, k, q));
                assert(q < p);
                assert(s[q].0 == k);
            }
        }
    }
}

/// Where a key occurs, it occurs first somewhere.
pub proof fn lemma_has_key_first<K, V>(s: Seq<(K, V)>, key: K)
    ensures
        has_key(s, key) ==> first_at(s, key, index_of(s, key)),
    decreases s.len(),
{
    if has_key(s, key) {
        let i = choose|i: int| 0 <= i < s.len() && (#[trigger] s[i]).0 == key;
        lemma_first_below(s, key, i);
    }
}

/// An occurrence at `i` gives a first occurrence at or before `i`.
pub proof fn lemma_first_below<K, V>(s: Seq<(K, V)>, key: K, i: int)
    requires
        0 <= i < s.len(),
        s[i].0 == key,
    ensures
        exists|p: int| first_at(s, key, p),
        first_at(s, key, index_of(s, key)),
    decreases i,
{
    if exists|j: int| 0 <= j < i && (#[trigger] s[j]).0 == key {
        let j = choose|j: int| 0 <= j < i && (#[trigger] s[j]).0 == key;
        lemma_first_below(s, key, j);
    } else {
        assert(first_at(s, key, i));
    }
}

/// Removing an entry keeps the keys distinct and leaves no entry of that name.
pub proof fn lemma_without_distinct<K, V>(s: Seq<(K, V)>, key: K)
    requires
        distinct_keys(s),
    ensures
        distinct_keys(without(s, key)),
        !has_key(without(s, key), key),
        forall|k: K| k != key ==> find(without(s, key), k) == find(s, k),
{
    let t = without(s, key);
    lemma_has_key_first(s, key);
    if has_key(s, key) {
        let p = index_of(s, key);
        assert(first_at(s, key, p));
        assert forall|i: int| 0 <= i < t.len() implies (#[trigger] t[i]) == s[if i < p {
            i
        } else {
            i + 1
        }] by {}
        assert forall|i: int, j: int| 0 <= i < j < t.len() implies (#[trigger] t[i]).0 != (
        #[trigger] t[j]).0 by {
            let a = if i < p { i } else { i + 1 };
            let b = if j < p { j } else { j + 1 };
            assert(s[a].0 != s[b].0);
        }
        if has_key(t, key) {
            let q = choose|q: int| 0 <= q < t.len() && (#[trigger] t[q]).0 == key;
            let a = if q < p { q } else { q + 1 };
            assert(s[a].0 == key);
            if a < p {
                assert(s[a].0 != s[p].0);
            } else {
                assert(s[p].0 != s[a].0);
            }
        }
        assert forall|k: K| k != key implies find(t, k) == find(s, k) by {
            lemma_has_key_first(s, k);
            lemma_has_key_first(t, k);
            if has_key(s, k) {
                let q = index_of(s, k);
                assert(first_at(s, k, q));
                let r = if q < p { q } else { q - 1 };
                assert(t[r] == s[q]);
                assert(first_at(t, k, r)) by {
                    assert forall|j: int| 0 <= j < r implies (#[trigger] t[j]).0 != k by {
                        let a = if j < p { j } else { j + 1 };
                        assert(s[a].0 != k);
                    }
                }
                lemma_first_at_unique(t, k, r);
            } else if has_key(t, k) {
                let q = index_of(t, k);
                assert(first_at(t, k, q));
                let a = if q < p { q } else { q + 1 };
                assert(s[a].0 == k);
            }
        }
    }
}

} // verus!
