//! Keyed rows: a sequence of rows, each filed under the key that it carries,
//! read as a map from key to row.
use vstd::prelude::*;

verus! {

/// No two rows carry the same key.
pub open spec fn keys_distinct<R>(rows: Seq<R>, key: spec_fn(R) -> Seq<char>) -> bool {
    forall|i: int, j: int|
        0 <= i < j < rows.len() ==> key(#[trigger] rows[i]) != key(#[trigger] rows[j])
}

/// Some row carries the key `k`.
pub open spec fn has_key<R>(rows: Seq<R>, key: spec_fn(R) -> Seq<char>, k: Seq<char>) -> bool {
    exists|i: int| 0 <= i < rows.len() && key(#[trigger] rows[i]) == k
}

/// The place of a row that carries the key `k`.
pub open spec fn index_of<R>(rows: Seq<R>, key: spec_fn(R) -> Seq<char>, k: Seq<char>) -> int {
    choose|i: int| 0 <= i < rows.len() && key(#[trigger] rows[i]) == k
}

/// The rows as a map from each key to what its row holds.
pub open spec fn table<R, V>(
    rows: Seq<R>,
    key: spec_fn(R) -> Seq<char>,
    val: spec_fn(R) -> V,
) -> Map<Seq<char>, V> {
    Map::new(
        |k: Seq<char>| has_key(rows, key, k),
        |k: Seq<char>| val(rows[index_of(rows, key, k)]),
    )
}

/// A row is found under its own key.
pub proof fn lemma_table_at<R, V>(
    rows: Seq<R>,
    key: spec_fn(R) -> Seq<char>,
    val: spec_fn(R) -> V,
    i: int,
)
    requires
        keys_distinct(rows, key),
        0 <= i < rows.len(),
    ensures
        table(rows, key, val).contains_key(key(rows[i])),
        table(rows, key, val)[key(rows[i])] == val(rows[i]),
{
    let k = key(rows[i]);
    assert(has_key(rows, key, k));
    let j = index_of(rows, key, k);
    assert(0 <= j < rows.len() && key(rows[j]) == k);
    if j < i {
        assert(key(rows[j]) != key(rows[i]));
    } else if i < j {
        assert(key(rows[i]) != key(rows[j]));
    }
}

/// Taking out the row at `i` takes its key out of the map and leaves the rest.
pub proof fn lemma_table_remove<R, V>(
    rows: Seq<R>,
    key: spec_fn(R) -> Seq<char>,
    val: spec_fn(R) -> V,
    i: int,
)
    requires
        keys_distinct(rows, key),
        0 <= i < rows.len(),
    ensures
        keys_distinct(rows.remove(i), key),
        table(rows.remove(i), key, val) == table(rows, key, val).remove(key(rows[i])),
{
    let rest = rows.remove(i);
    let k = key(rows[i]);
    assert forall|a: int, b: int| 0 <= a < b < rest.len() implies key(#[trigger] rest[a]) != key(
        #[trigger] rest[b],
    ) by {
        let a0 = if a < i { a } else { a + 1 };
        let b0 = if b < i { b } else { b + 1 };
        assert(rest[a] == rows[a0] && rest[b] == rows[b0]);
    }
    let small = table(rest, key, val);
    let large = table(rows, key, val).remove(k);
    assert forall|q: Seq<char>| small.contains_key(q) implies large.contains_key(q) && small[q]
        == large[q] by {
        let a = index_of(rest, key, q);
        assert(0 <= a < rest.len() && key(rest[a]) == q);
        let a0 = if a < i { a } else { a + 1 };
        assert(rest[a] == rows[a0]);
        lemma_table_at(rest, key, val, a);
        lemma_table_at(rows, key, val, a0);
        if a0 < i {
            assert(key(rows[a0]) != key(rows[i]));
        } else {
            assert(key(rows[i]) != key(rows[a0]));
        }
    }
    assert forall|q: Seq<char>| large.contains_key(q) implies small.contains_key(q) by {
        let a0 = index_of(rows, key, q);
        assert(0 <= a0 < rows.len() && key(rows[a0]) == q);
        assert(a0 != i);
        let a = if a0 < i { a0 } else { a0 - 1 };
        assert(rest[a] == rows[a0]);
        assert(has_key(rest, key, q));
    }
    assert(small =~= large);
}

/// A row under a key that no row carries yet adds that key to the map.
pub proof fn lemma_table_push<R, V>(
    rows: Seq<R>,
    key: spec_fn(R) -> Seq<char>,
    val: spec_fn(R) -> V,
    row: R,
)
    requires
        keys_distinct(rows, key),
        !has_key(rows, key, key(row)),
    ensures
        keys_distinct(rows.push(row), key),
        table(rows.push(row), key, val) == table(rows, key, val).insert(key(row), val(row)),
{
    let more = rows.push(row);
    let k = key(row);
    assert forall|a: int, b: int| 0 <= a < b < more.len() implies key(#[trigger] more[a]) != key(
        #[trigger] more[b],
    ) by {
        assert(more[a] == rows[a]);
        if b < rows.len() {
            assert(more[b] == rows[b]);
        } else {
            assert(more[b] == row);
        }
    }
    let large = table(more, key, val);
    let wanted = table(rows, key, val).insert(k, val(row));
    assert forall|q: Seq<char>| large.contains_key(q) implies wanted.contains_key(q) && large[q]
        == wanted[q] by {
        let a = index_of(more, key, q);
        assert(0 <= a < more.len() && key(more[a]) == q);
        lemma_table_at(more, key, val, a);
        if a < rows.len() {
            assert(more[a] == rows[a]);
            lemma_table_at(rows, key, val, a);
        }
    }
    assert forall|q: Seq<char>| wanted.contains_key(q) implies large.contains_key(q) by {
        if q == k {
            assert(more[rows.len() as int] == row);
        } else {
            let a = index_of(rows, key, q);
            assert(0 <= a < rows.len() && key(rows[a]) == q);
            assert(more[a] == rows[a]);
        }
        assert(has_key(more, key, q));
    }
    assert(large =~= wanted);
}

/// A row put in the place of one with the same key replaces what the map
/// holds under that key.
pub proof fn lemma_table_update<R, V>(
    rows: Seq<R>,
    key: spec_fn(R) -> Seq<char>,
    val: spec_fn(R) -> V,
    i: int,
    row: R,
)
    requires
        keys_distinct(rows, key),
        0 <= i < rows.len(),
        key(rows[i]) == key(row),
    ensures
        keys_distinct(rows.update(i, row), key),
        table(rows.update(i, row), key, val) == table(rows, key, val).insert(key(row), val(row)),
{
    let next = rows.update(i, row);
    let k = key(row);
    assert forall|a: int, b: int| 0 <= a < b < next.len() implies key(#[trigger] next[a]) != key(
        #[trigger] next[b],
    ) by {
        assert(key(next[a]) == key(rows[a]));
        assert(key(next[b]) == key(rows[b]));
    }
    let large = table(next, key, val);
    let wanted = table(rows, key, val).insert(k, val(row));
    assert forall|q: Seq<char>| large.contains_key(q) implies wanted.contains_key(q) && large[q]
        == wanted[q] by {
        let a = index_of(next, key, q);
        assert(0 <= a < next.len() && key(next[a]) == q);
        lemma_table_at(next, key, val, a);
        assert(key(next[a]) == key(rows[a]));
        lemma_table_at(rows, key, val, a);
    }
    assert forall|q: Seq<char>| wanted.contains_key(q) implies large.contains_key(q) by {
        if q == k {
            assert(key(next[i]) == q);
        } else {
            let a = index_of(rows, key, q);
            assert(0 <= a < rows.len() && key(rows[a]) == q);
            assert(key(next[a]) == key(rows[a]));
        }
        assert(has_key(next, key, q));
    }
    assert(large =~= wanted);
}

/// The map holds exactly as many keys as there are rows.
pub proof fn lemma_table_len<R, V>(
    rows: Seq<R>,
    key: spec_fn(R) -> Seq<char>,
    val: spec_fn(R) -> V,
)
    requires
        keys_distinct(rows, key),
    ensures
        table(rows, key, val).dom().finite(),
        table(rows, key, val).dom().len() == rows.len(),
    decreases rows.len(),
{
    if rows.len() == 0 {
        assert(table(rows, key, val).dom() =~= Set::<Seq<char>>::empty());
    } else {
        let prefix = rows.drop_last();
        let last = rows.last();
        assert forall|i: int, j: int| 0 <= i < j < prefix.len() implies key(#[trigger] prefix[i])
            != key(#[trigger] prefix[j]) by {
            assert(prefix[i] == rows[i] && prefix[j] == rows[j]);
        }
        if has_key(prefix, key, key(last)) {
            let i = index_of(prefix, key, key(last));
            assert(prefix[i] == rows[i]);
            assert(key(rows[i]) != key(rows[rows.len() - 1]));
        }
        lemma_table_len(prefix, key, val);
        lemma_table_push(prefix, key, val, last);
        assert(prefix.push(last) =~= rows);
        assert(table(rows, key, val).dom() =~= table(prefix, key, val).dom().insert(key(last)));
    }
}

} // verus!
