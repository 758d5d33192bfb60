//! Association lists: a sequence of distinct keys beside a sequence of values,
//! read as a finite map.

use vstd::prelude::*;

verus! {

/// The map that sends `keys[i]` to `vals[i]`.
pub open spec fn assoc_map<K, V>(keys: Seq<K>, vals: Seq<V>) -> Map<K, V> {
    Map::new(|k: K| keys.contains(k), |k: K| vals[keys.index_of(k)])
}

/// The map holds each listed key with the value beside it.
pub proof fn lemma_assoc_at<K, V>(keys: Seq<K>, vals: Seq<V>, i: int)
    requires
        keys.no_duplicates(),
        keys.len() == vals.len(),
        0 <= i < keys.len(),
    ensures
        assoc_map(keys, vals).dom().contains(keys[i]),
        assoc_map(keys, vals)[keys[i]] == vals[i],
{
    assert(keys.contains(keys[i]));
    assert(keys.index_of(keys[i]) == i);
}

/// A key found at no index is not in the map.
pub proof fn lemma_assoc_absent<K, V>(keys: Seq<K>, vals: Seq<V>, k: K)
    requires
        forall|i: int| 0 <= i < keys.len() ==> keys[i] != k,
    ensures
        !assoc_map(keys, vals).dom().contains(k),
{
}

/// Replacing the value beside `keys[i]` is an insert at that key.
pub proof fn lemma_assoc_update<K, V>(keys: Seq<K>, vals: Seq<V>, i: int, v: V)
    requires
        keys.no_duplicates(),
        keys.len() == vals.len(),
        0 <= i < keys.len(),
    ensures
        assoc_map(keys, vals.update(i, v)) == assoc_map(keys, vals).insert(keys[i], v),
{
    let before = assoc_map(keys, vals);
    let after = assoc_map(keys, vals.update(i, v));
    assert forall|k: K| after.dom().contains(k) implies #[trigger] after[k] == before.insert(
        keys[i],
        v,
    )[k] by {
        let j = keys.index_of(k);
        assert(0 <= j < keys.len() && keys[j] == k);
        if k == keys[i] {
            assert(j == i);
        }
    }
    assert(keys.contains(keys[i]));
    assert(after =~= before.insert(keys[i], v));
}

/// Appending a fresh key with its value is an insert at that key.
pub proof fn lemma_assoc_push<K, V>(keys: Seq<K>, vals: Seq<V>, k: K, v: V)
    requires
        keys.no_duplicates(),
        keys.len() == vals.len(),
        !keys.contains(k),
    ensures
        keys.push(k).no_duplicates(),
        assoc_map(keys.push(k), vals.push(v)) == assoc_map(keys, vals).insert(k, v),
{
    let keys2 = keys.push(k);
    let vals2 = vals.push(v);
    let before = assoc_map(keys, vals);
    let after = assoc_map(keys2, vals2);
    assert(keys2.no_duplicates()) by {
        assert forall|i: int, j: int|
            0 <= i < keys2.len() && 0 <= j < keys2.len() && i != j implies keys2[i] != keys2[j] by {
            if i < keys.len() && j < keys.len() {
                assert(keys[i] != keys[j]);
            } else if i < keys.len() {
                assert(keys.contains(keys[i]));
            } else {
                assert(keys.contains(keys[j]));
            }
        }
    }
    assert(keys2[keys.len() as int] == k);
    assert forall|x: K| after.dom().contains(x) <==> before.insert(k, v).dom().contains(x) by {
        if keys2.contains(x) {
            let j = keys2.index_of(x);
            if j < keys.len() {
                assert(keys[j] == x);
            }
        }
        if keys.contains(x) {
            let j = keys.index_of(x);
            assert(keys2[j] == x);
        }
    }
    assert forall|x: K| after.dom().contains(x) implies #[trigger] after[x] == before.insert(
        k,
        v,
    )[x] by {
        let j = keys2.index_of(x);
        assert(0 <= j < keys2.len() && keys2[j] == x);
        if j < keys.len() {
            assert(keys[j] == x);
            let j0 = keys.index_of(x);
            assert(0 <= j0 < keys.len() && keys[j0] == x);
            assert(keys2[j0] == x);
            assert(j0 == j);
        } else {
            assert(x == k);
        }
    }
    assert(after =~= before.insert(k, v));
}

/// Dropping the pair at index `i` removes `keys[i]` from the map.
pub proof fn lemma_assoc_remove<K, V>(keys: Seq<K>, vals: Seq<V>, i: int)
    requires
        keys.no_duplicates(),
        keys.len() == vals.len(),
        0 <= i < keys.len(),
    ensures
        keys.remove(i).no_duplicates(),
        assoc_map(keys.remove(i), vals.remove(i)) == assoc_map(keys, vals).remove(keys[i]),
{
    let keys2 = keys.remove(i);
    let vals2 = vals.remove(i);
    let before = assoc_map(keys, vals);
    let after = assoc_map(keys2, vals2);
    assert(keys2.len() == keys.len() - 1);
    assert forall|j: int| 0 <= j < keys2.len() implies #[trigger] keys2[j] == keys[if j < i {
        j
    } else {
        j + 1
    }] && vals2[j] == vals[if j < i {
        j
    } else {
        j + 1
    }] by {}
    assert(keys2.no_duplicates());
    assert forall|x: K| after.dom().contains(x) <==> before.remove(keys[i]).dom().contains(x) by {
        if keys2.contains(x) {
            let j = keys2.index_of(x);
            let j0 = if j < i { j } else { j + 1 };
            assert(keys[j0] == x);
        }
        if keys.contains(x) && x != keys[i] {
            let j0 = keys.index_of(x);
            let j = if j0 < i { j0 } else { j0 - 1 };
            assert(keys2[j] == x);
        }
    }
    assert forall|x: K| after.dom().contains(x) implies #[trigger] after[x] == before.remove(
        keys[i],
    )[x] by {
        let j = keys2.index_of(x);
        assert(0 <= j < keys2.len() && keys2[j] == x);
        let j0 = if j < i { j } else { j + 1 };
        assert(keys[j0] == x);
        let j1 = keys.index_of(x);
        assert(0 <= j1 < keys.len() && keys[j1] == x);
        assert(j1 == j0);
    }
    assert(after =~= before.remove(keys[i]));
}

} // verus!
