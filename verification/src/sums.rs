//! Sums over the entries of a finite map, and the map that a list of keyed
//! rows spells out.
use vstd::prelude::*;

verus! {

/// The sum of the weights of all values of `m`.
pub open spec fn total<K, V>(m: Map<K, V>, weight: spec_fn(V) -> int) -> int
    decreases m.dom().len(),
    when m.dom().finite()
{
    if m.dom().len() == 0 {
        0
    } else {
        let k = m.dom().choose();
        weight(m[k]) + total(m.remove(k), weight)
    }
}

/// Any one entry can be counted first.
pub proof fn lemma_total_remove<K, V>(m: Map<K, V>, weight: spec_fn(V) -> int, k: K)
    requires
        m.dom().finite(),
        m.contains_key(k),
    ensures
        total(m, weight) == weight(m[k]) + total(m.remove(k), weight),
    decreases m.dom().len(),
{
    let first = m.dom().choose();
    assert(m.dom().contains(first));
    if first != k {
        let rest = m.remove(first);
        lemma_total_remove(rest, weight, k);
        lemma_total_remove(m.remove(k), weight, first);
        assert(rest.remove(k) =~= m.remove(k).remove(first));
    }
}

/// Writing an entry exchanges the weight of what stood there before.
pub proof fn lemma_total_insert<K, V>(m: Map<K, V>, weight: spec_fn(V) -> int, k: K, v: V)
    requires
        m.dom().finite(),
    ensures
        total(m.insert(k, v), weight) == total(m, weight) + weight(v) - (if m.contains_key(k) {
            weight(m[k])
        } else {
            0
        }),
{
    let after = m.insert(k, v);
    lemma_total_remove(after, weight, k);
    assert(after.remove(k) =~= m.remove(k));
    if m.contains_key(k) {
        lemma_total_remove(m, weight, k);
    } else {
        assert(m.remove(k) =~= m);
    }
}

/// A sum of weights of which none is negative is at least each of them.
pub proof fn lemma_total_bounds<K, V>(m: Map<K, V>, weight: spec_fn(V) -> int)
    requires
        m.dom().finite(),
        forall|k: K| m.contains_key(k) ==> weight(#[trigger] m[k]) >= 0,
    ensures
        total(m, weight) >= 0,
        forall|k: K| m.contains_key(k) ==> weight(#[trigger] m[k]) <= total(m, weight),
    decreases m.dom().len(),
{
    if m.dom().len() != 0 {
        let first = m.dom().choose();
        assert(m.dom().contains(first));
        let rest = m.remove(first);
        assert forall|k: K| rest.contains_key(k) implies weight(#[trigger] rest[k]) >= 0 by {
            assert(rest[k] == m[k]);
        }
        lemma_total_bounds(rest, weight);
        assert forall|k: K| m.contains_key(k) implies weight(#[trigger] m[k]) <= total(m, weight) by {
            if k != first {
                assert(rest.contains_key(k) && rest[k] == m[k]);
            }
        }
    }
}

/// Where no entry weighs anything, neither does the map.
pub proof fn lemma_total_zero<K, V>(m: Map<K, V>, weight: spec_fn(V) -> int)
    requires
        m.dom().finite(),
        forall|k: K| m.contains_key(k) ==> weight(#[trigger] m[k]) == 0,
    ensures
        total(m, weight) == 0,
    decreases m.dom().len(),
{
    if m.dom().len() != 0 {
        let first = m.dom().choose();
        assert(m.dom().contains(first));
        let rest = m.remove(first);
        assert forall|k: K| rest.contains_key(k) implies weight(#[trigger] rest[k]) == 0 by {
            assert(rest[k] == m[k]);
        }
        lemma_total_zero(rest, weight);
    }
}

/// The map that keyed rows spell out.
pub open spec fn table<K, V>(rows: Seq<(K, V)>) -> Map<K, V>
    decreases rows.len(),
{
    if rows.len() == 0 {
        Map::empty()
    } else {
        table(rows.drop_last()).insert(rows.last().0, rows.last().1)
    }
}

/// Whether no two rows have the same key.
pub open spec fn distinct_keys<K, V>(rows: Seq<(K, V)>) -> bool {
    forall|i: int, j: int|
        0 <= i < j < rows.len() ==> (#[trigger] rows[i]).0 != (#[trigger] rows[j]).0
}

/// With distinct keys the map holds each row, and nothing else.
pub proof fn lemma_table<K, V>(rows: Seq<(K, V)>)
    requires
        distinct_keys(rows),
    ensures
        table(rows).dom().finite(),
        forall|i: int|
            0 <= i < rows.len() ==> table(rows).contains_key((#[trigger] rows[i]).0) && table(
                rows,
            )[rows[i].0] == rows[i].1,
        forall|k: K| #[trigger]
            table(rows).contains_key(k) ==> exists|i: int|
                0 <= i < rows.len() && (#[trigger] rows[i]).0 == k,
    decreases rows.len(),
{
    if rows.len() > 0 {
        let front = rows.drop_last();
        assert forall|i: int, j: int| 0 <= i < j < front.len() implies (#[trigger] front[i]).0 != (
        #[trigger] front[j]).0 by {
            assert(front[i] == rows[i] && front[j] == rows[j]);
        }
        lemma_table(front);
        assert forall|i: int| 0 <= i < rows.len() implies table(rows).contains_key(
            (#[trigger] rows[i]).0,
        ) && table(rows)[rows[i].0] == rows[i].1 by {
            if i < rows.len() - 1 {
                assert(front[i] == rows[i]);
            }
        }
        assert forall|k: K| #[trigger] table(rows).contains_key(k) implies exists|i: int|
            0 <= i < rows.len() && (#[trigger] rows[i]).0 == k by {
            if k == rows.last().0 {
                assert(rows[rows.len() - 1].0 == k);
            } else {
                assert(table(front).contains_key(k));
                let i = choose|i: int| 0 <= i < front.len() && (#[trigger] front[i]).0 == k;
                assert(rows[i].0 == k);
            }
        }
    }
}

/// Rewriting the value of a row rewrites the entry of its key.
pub proof fn lemma_table_update<K, V>(rows: Seq<(K, V)>, i: int, v: V)
    requires
        distinct_keys(rows),
        0 <= i < rows.len(),
    ensures
        distinct_keys(rows.update(i, (rows[i].0, v))),
        table(rows.update(i, (rows[i].0, v))) == table(rows).insert(rows[i].0, v),
{
    let after = rows.update(i, (rows[i].0, v));
    assert forall|a: int, b: int| 0 <= a < b < after.len() implies (#[trigger] after[a]).0 != (
    #[trigger] after[b]).0 by {
        assert(after[a].0 == rows[a].0 && after[b].0 == rows[b].0);
    }
    lemma_table(rows);
    lemma_table(after);
    let expected = table(rows).insert(rows[i].0, v);
    assert forall|k: K| #[trigger] table(after).contains_key(k) <==> #[trigger]
        expected.contains_key(k) by {
        if table(after).contains_key(k) {
            let j = choose|j: int| 0 <= j < after.len() && (#[trigger] after[j]).0 == k;
            assert(rows[j].0 == k);
        }
        if expected.contains_key(k) {
            if table(rows).contains_key(k) {
                let j = choose|j: int| 0 <= j < rows.len() && (#[trigger] rows[j]).0 == k;
                assert(after[j].0 == k);
            } else {
                assert(after[i].0 == k);
            }
        }
    }
    assert forall|k: K| #[trigger] table(after).contains_key(k) implies table(after)[k]
        == expected[k] by {
        let j = choose|j: int| 0 <= j < after.len() && (#[trigger] after[j]).0 == k;
        if j != i {
            assert(rows[j] == after[j]);
            assert(rows[j].0 != rows[i].0);
        }
    }
    assert(table(after) =~= expected);
}

/// A new row with a new key adds an entry.
pub proof fn lemma_table_push<K, V>(rows: Seq<(K, V)>, k: K, v: V)
    requires
        distinct_keys(rows),
        !table(rows).contains_key(k),
    ensures
        distinct_keys(rows.push((k, v))),
        table(rows.push((k, v))) == table(rows).insert(k, v),
{
    let after = rows.push((k, v));
    lemma_table(rows);
    assert forall|a: int, b: int| 0 <= a < b < after.len() implies (#[trigger] after[a]).0 != (
    #[trigger] after[b]).0 by {
        assert(after[a] == rows[a]);
        assert(table(rows).contains_key(rows[a].0));
        if b < rows.len() {
            assert(after[b] == rows[b]);
        }
    }
    assert(after.drop_last() =~= rows);
}

} // verus!
