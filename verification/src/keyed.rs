//! Sequences of rows with a key that no two rows share, seen as maps from key
//! to row. The three settings tables are such sequences.

use vstd::prelude::*;

verus! {

/// No two rows of `rows` share a key.
pub open spec fn unique_keys<R, K>(rows: Seq<R>, key: spec_fn(R) -> K) -> bool {
    forall|i: int, j: int|
        0 <= i < rows.len() && 0 <= j < rows.len() && i != j ==> key(#[trigger] rows[i]) != key(
            #[trigger] rows[j],
        )
}

/// Some row of `rows` has key `k`.
pub open spec fn has_key<R, K>(rows: Seq<R>, key: spec_fn(R) -> K, k: K) -> bool {
    exists|i: int| 0 <= i < rows.len() && key(#[trigger] rows[i]) == k
}

/// The position of the row with key `k` (meaningful where [`has_key`] holds).
pub open spec fn index_of_key<R, K>(rows: Seq<R>, key: spec_fn(R) -> K, k: K) -> int {
    choose|i: int| 0 <= i < rows.len() && key(#[trigger] rows[i]) == k
}

/// The rows as a map from key to row.
pub open spec fn keyed_map<R, K>(rows: Seq<R>, key: spec_fn(R) -> K) -> Map<K, R> {
    Map::new(|k: K| has_key(rows, key, k), |k: K| rows[index_of_key(rows, key, k)])
}

/// A row of a key-unique sequence is what the map gives for its key.
pub proof fn lemma_keyed_map_at<R, K>(rows: Seq<R>, key: spec_fn(R) -> K, i: int)
    requires
        unique_keys(rows, key),
        0 <= i < rows.len(),
    ensures
        has_key(rows, key, key(rows[i])),
        index_of_key(rows, key, key(rows[i])) == i,
        keyed_map(rows, key).contains_key(key(rows[i])),
        keyed_map(rows, key)[key(rows[i])] == rows[i],
{
    assert(has_key(rows, key, key(rows[i])));
    let j = index_of_key(rows, key, key(rows[i]));
    assert(key(rows[j]) == key(rows[i]));
}

/// Replacing a row by one with the same key replaces the map entry.
pub proof fn lemma_keyed_map_update<R, K>(rows: Seq<R>, key: spec_fn(R) -> K, i: int, r: R)
    requires
        unique_keys(rows, key),
        0 <= i < rows.len(),
        key(r) == key(rows[i]),
    ensures
        unique_keys(rows.update(i, r), key),
        keyed_map(rows.update(i, r), key) == keyed_map(rows, key).insert(key(r), r),
{
    let new_rows = rows.update(i, r);
    assert forall|a: int, b: int|
        0 <= a < new_rows.len() && 0 <= b < new_rows.len() && a != b implies key(
        #[trigger] new_rows[a],
    ) != key(#[trigger] new_rows[b]) by {
        assert(key(new_rows[a]) == key(rows[a]));
        assert(key(new_rows[b]) == key(rows[b]));
    }
    let m_old = keyed_map(rows, key);
    let m_new = keyed_map(new_rows, key);
    assert forall|k: K| #[trigger] m_new.contains_key(k) <==> m_old.insert(key(r), r).contains_key(k) by {
        if has_key(new_rows, key, k) {
            let j = index_of_key(new_rows, key, k);
            if j != i {
                assert(key(rows[j]) == k);
            }
        }
        if has_key(rows, key, k) {
            let j = index_of_key(rows, key, k);
            assert(key(new_rows[j]) == key(rows[j]));
        }
    }
    assert forall|k: K| #[trigger] m_new.contains_key(k) implies m_new[k] == m_old.insert(key(r), r)[k] by {
        let j = index_of_key(new_rows, key, k);
        lemma_keyed_map_at(new_rows, key, j);
        if j == i {
        } else {
            assert(new_rows[j] == rows[j]);
            lemma_keyed_map_at(rows, key, j);
            lemma_keyed_map_at(rows, key, i);
        }
    }
    assert(m_new =~= m_old.insert(key(r), r));
}

/// Appending a row with a fresh key adds a map entry.
pub proof fn lemma_keyed_map_push<R, K>(rows: Seq<R>, key: spec_fn(R) -> K, r: R)
    requires
        unique_keys(rows, key),
        !has_key(rows, key, key(r)),
    ensures
        unique_keys(rows.push(r), key),
        keyed_map(rows.push(r), key) == keyed_map(rows, key).insert(key(r), r),
{
    let new_rows = rows.push(r);
    let n = rows.len() as int;
    assert forall|a: int, b: int|
        0 <= a < new_rows.len() && 0 <= b < new_rows.len() && a != b implies key(
        #[trigger] new_rows[a],
    ) != key(#[trigger] new_rows[b]) by {
        if a < n && b < n {
            assert(new_rows[a] == rows[a]);
            assert(new_rows[b] == rows[b]);
        } else if a < n {
            assert(new_rows[a] == rows[a]);
        } else {
            assert(new_rows[b] == rows[b]);
        }
    }
    let m_old = keyed_map(rows, key);
    let m_new = keyed_map(new_rows, key);
    assert forall|k: K| #[trigger] m_new.contains_key(k) <==> m_old.insert(key(r), r).contains_key(k) by {
        if has_key(new_rows, key, k) {
            let j = index_of_key(new_rows, key, k);
            if j < n {
                assert(new_rows[j] == rows[j]);
            }
        }
        if has_key(rows, key, k) {
            let j = index_of_key(rows, key, k);
            assert(new_rows[j] == rows[j]);
        }
        if k == key(r) {
            assert(new_rows[n] == r);
        }
    }
    assert forall|k: K| #[trigger] m_new.contains_key(k) implies m_new[k] == m_old.insert(key(r), r)[k] by {
        let j = index_of_key(new_rows, key, k);
        lemma_keyed_map_at(new_rows, key, j);
        if j < n {
            assert(new_rows[j] == rows[j]);
            lemma_keyed_map_at(rows, key, j);
        } else {
            assert(new_rows[j] == r);
        }
    }
    assert(m_new =~= m_old.insert(key(r), r));
}

/// Removing a row removes its map entry.
pub proof fn lemma_keyed_map_remove<R, K>(rows: Seq<R>, key: spec_fn(R) -> K, i: int)
    requires
        unique_keys(rows, key),
        0 <= i < rows.len(),
    ensures
        unique_keys(rows.remove(i), key),
        keyed_map(rows.remove(i), key) == keyed_map(rows, key).remove(key(rows[i])),
{
    let new_rows = rows.remove(i);
    let old_index = |a: int| if a < i { a } else { a + 1 };
    assert forall|a: int, b: int|
        0 <= a < new_rows.len() && 0 <= b < new_rows.len() && a != b implies key(
        #[trigger] new_rows[a],
    ) != key(#[trigger] new_rows[b]) by {
        assert(new_rows[a] == rows[old_index(a)]);
        assert(new_rows[b] == rows[old_index(b)]);
    }
    let m_old = keyed_map(rows, key);
    let m_new = keyed_map(new_rows, key);
    let gone = key(rows[i]);
    assert forall|k: K| #[trigger] m_new.contains_key(k) <==> m_old.remove(gone).contains_key(k) by {
        if has_key(new_rows, key, k) {
            let j = index_of_key(new_rows, key, k);
            assert(new_rows[j] == rows[old_index(j)]);
            assert(old_index(j) != i);
        }
        if has_key(rows, key, k) && k != gone {
            let j = index_of_key(rows, key, k);
            assert(j != i);
            let a = if j < i { j } else { j - 1 };
            assert(new_rows[a] == rows[j]);
        }
    }
    assert forall|k: K| #[trigger] m_new.contains_key(k) implies m_new[k] == m_old.remove(gone)[k] by {
        let j = index_of_key(new_rows, key, k);
        lemma_keyed_map_at(new_rows, key, j);
        assert(new_rows[j] == rows[old_index(j)]);
        lemma_keyed_map_at(rows, key, old_index(j));
    }
    assert(m_new =~= m_old.remove(gone));
}

} // verus!
