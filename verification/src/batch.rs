//! The runtime of batch scalar functions (`batch = true`): a function that takes the whole batch
//! of rows at once sees only the non-NULL rows, must return one result per row it was given, and
//! the NULL rows are filled back in at their original positions.

use vstd::prelude::*;
use crate::error::{DuckResult, duck_error_owned};
use crate::text::{decimal_text, u64_text};

verus! {

/// The present entries of a list of optional values, in order.
pub open spec fn present_rows<T>(rows: Seq<Option<T>>) -> Seq<T>
    decreases rows.len(),
{
    if rows.len() == 0 {
        Seq::empty()
    } else {
        let p = present_rows(rows.drop_last());
        match rows.last() {
            Some(x) => p.push(x),
            None => p,
        }
    }
}

/// The positions of the absent entries of a list of optional values, in increasing order.
pub open spec fn null_positions<T>(rows: Seq<Option<T>>) -> Seq<int>
    decreases rows.len(),
{
    if rows.len() == 0 {
        Seq::empty()
    } else {
        let p = null_positions(rows.drop_last());
        match rows.last() {
            Some(_) => p,
            None => p.push(rows.len() - 1),
        }
    }
}

/// The positions as a sequence of integers.
pub open spec fn positions_model(v: Seq<usize>) -> Seq<int> {
    Seq::new(v.len(), |i: int| v[i] as int)
}

/// Strictly increasing positions, all below `total`.
pub open spec fn increasing_below(positions: Seq<int>, total: int) -> bool {
    &&& forall|a: int, b: int| 0 <= a < b < positions.len() ==> #[trigger] positions[a] < #[trigger] positions[b]
    &&& forall|a: int| 0 <= a < positions.len() ==> 0 <= #[trigger] positions[a] < total
}

/// Every list of optional values has as many present entries and NULL positions as entries, and
/// its NULL positions increase and lie within it.
pub proof fn lemma_split_counts<T>(rows: Seq<Option<T>>)
    ensures
        present_rows(rows).len() + null_positions(rows).len() == rows.len(),
        increasing_below(null_positions(rows), rows.len() as int),
    decreases rows.len(),
{
    if rows.len() > 0 {
        lemma_split_counts(rows.drop_last());
    }
}

/// A list of optional values is determined by its present entries and its NULL positions.
pub proof fn lemma_split_determines<T>(a: Seq<Option<T>>, b: Seq<Option<T>>)
    requires
        present_rows(a) == present_rows(b),
        null_positions(a) == null_positions(b),
        a.len() == b.len(),
    ensures
        a == b,
    decreases a.len(),
{
    if a.len() > 0 {
        lemma_split_counts(a.drop_last());
        lemma_split_counts(b.drop_last());
        let n = a.len() - 1;
        assert(a =~= a.drop_last().push(a.last()));
        assert(b =~= b.drop_last().push(b.last()));
        match (a.last(), b.last()) {
            (Some(x), Some(y)) => {
                assert(present_rows(a) == present_rows(a.drop_last()).push(x));
                assert(present_rows(b) == present_rows(b.drop_last()).push(y));
                assert(present_rows(a.drop_last()) =~= present_rows(a).drop_last());
                assert(present_rows(b.drop_last()) =~= present_rows(b).drop_last());
                assert(x == present_rows(a).last());
                assert(y == present_rows(b).last());
                lemma_split_determines(a.drop_last(), b.drop_last());
            },
            (None, None) => {
                assert(null_positions(a.drop_last()) =~= null_positions(a).drop_last());
                assert(null_positions(b.drop_last()) =~= null_positions(b).drop_last());
                lemma_split_determines(a.drop_last(), b.drop_last());
            },
            (Some(_), None) => {
                assert(null_positions(b).last() == n);
                assert(null_positions(a) == null_positions(a.drop_last()));
                assert(null_positions(a).len() > 0);
                assert(null_positions(a.drop_last()).last() < n);
            },
            (None, Some(_)) => {
                assert(null_positions(a).last() == n);
                assert(null_positions(b) == null_positions(b.drop_last()));
                assert(null_positions(b).len() > 0);
                assert(null_positions(b.drop_last()).last() < n);
            },
        }
    }
}

/// The reverse of a vector, by moving its entries.
pub(crate) fn reversed<T>(v: Vec<T>) -> (r: Vec<T>)
    ensures
        r@ == v@.reverse(),
{
    let ghost original = v@;
    let mut source = v;
    let mut out: Vec<T> = Vec::new();
    while source.len() > 0
        invariant
            original == source@ + out@.reverse(),
        decreases source@.len(),
    {
        let ghost before = source@;
        let ghost before_out = out@;
        let x = source.pop().unwrap();
        out.push(x);
        assert(before =~= source@.push(x));
        assert(out@.reverse() =~= seq![x] + before_out.reverse());
    }
    assert(source@ =~= Seq::<T>::empty());
    assert(out@.reverse().reverse() =~= out@);
    assert(original =~= out@.reverse());
    out
}

/// Splits a batch into its non-NULL rows (for the function) and the positions of its NULL rows
/// (to fill back in), both in order.
pub fn split_null_rows<T>(rows: Vec<Option<T>>) -> (r: (Vec<T>, Vec<usize>))
    ensures
        r.0@ == present_rows(rows@),
        positions_model(r.1@) == null_positions(rows@),
{
    let ghost all = rows@;
    let n = rows.len();
    let mut rest = reversed(rows);
    let mut present: Vec<T> = Vec::new();
    let mut nulls: Vec<usize> = Vec::new();
    let mut index: usize = 0;
    assert(all.take(0) =~= Seq::<Option<T>>::empty());
    assert(positions_model(nulls@) =~= Seq::<int>::empty());
    while rest.len() > 0
        invariant
            rest@ == all.reverse().take(all.len() - index),
            0 <= index <= all.len(),
            all.len() == n,
            rest@.len() == all.len() - index,
            present@ == present_rows(all.take(index as int)),
            positions_model(nulls@) == null_positions(all.take(index as int)),
        decreases rest@.len(),
    {
        let ghost before = rest@;
        let entry = rest.pop().unwrap();
        assert(entry == all[index as int]) by {
            assert(before.last() == all.reverse()[all.len() - index - 1]);
        }
        assert(rest@ =~= all.reverse().take(all.len() - index - 1));
        assert(all.take(index as int + 1).drop_last() =~= all.take(index as int));
        match entry {
            Some(x) => {
                present.push(x);
            },
            None => {
                let ghost before_nulls = nulls@;
                nulls.push(index);
                assert(positions_model(nulls@) =~= positions_model(before_nulls).push(index as int));
            },
        }
        index = index + 1;
    }
    assert(all.take(all.len() as int) =~= all);
    (present, nulls)
}

/// The message for a batch function that returned the wrong number of results.
pub open spec fn batch_length_message(sql_name: Seq<char>, returned: nat, expected: nat, nullable_rows: bool) -> Seq<char> {
    sql_name + ": batch function returned "@ + decimal_text(returned) + " rows, but received "@ + decimal_text(expected)
        + if nullable_rows { " input rows"@ } else { " non-NULL input rows"@ }
}

/// Checks that a batch function returned one result per row it received (all rows when it takes
/// `Vec<Option<Row>>`, the non-NULL rows when it takes `Vec<Row>`).
pub fn check_batch_length(sql_name: &str, returned: usize, expected: usize, nullable_rows: bool) -> (r: DuckResult<()>)
    ensures
        r is Ok <==> returned == expected,
        r matches Err(e) ==> e.spec_message() == batch_length_message(sql_name@, returned as nat, expected as nat, nullable_rows),
{
    if returned == expected {
        Ok(())
    } else {
        let mut m = String::from_str(sql_name);
        m.append(": batch function returned ");
        m.append(u64_text(returned as u64).as_str());
        m.append(" rows, but received ");
        m.append(u64_text(expected as u64).as_str());
        if nullable_rows {
            m.append(" input rows");
        } else {
            m.append(" non-NULL input rows");
        }
        Err(duck_error_owned(m))
    }
}

/// Increasing positions keep at least their distance: the entry `t` places further is at least
/// `t` larger.
proof fn lemma_increasing_spread(positions: Seq<int>, total: int, a: int, t: int)
    requires
        increasing_below(positions, total),
        0 <= a,
        0 <= t,
        a + t < positions.len(),
    ensures
        positions[a + t] >= positions[a] + t,
    decreases t,
{
    if t > 0 {
        lemma_increasing_spread(positions, total, a, t - 1);
        assert(positions[a + t - 1] < positions[a + t]);
    }
}

/// Fills the NULL rows back in: the results of the non-NULL rows, in order, with `None` at each of
/// the NULL positions. The results must be one per non-NULL row, and the positions increasing
/// within the whole batch (as [`split_null_rows`] gives them).
pub fn merge_null_rows<E>(results: Vec<E>, null_indexes: Vec<usize>) -> (merged: Vec<Option<E>>)
    requires
        results@.len() + null_indexes@.len() <= usize::MAX,
        increasing_below(positions_model(null_indexes@), (results@.len() + null_indexes@.len()) as int),
    ensures
        merged@.len() == results@.len() + null_indexes@.len(),
        present_rows(merged@) == results@,
        null_positions(merged@) == positions_model(null_indexes@),
{
    let ghost values = results@;
    let ghost nulls = positions_model(null_indexes@);
    let total = results.len() + null_indexes.len();
    let mut rest = reversed(results);
    let mut merged: Vec<Option<E>> = Vec::new();
    let mut j: usize = 0;
    let mut k: usize = 0;
    let mut index: usize = 0;
    assert(values.take(0) =~= Seq::<E>::empty());
    assert(nulls.take(0) =~= Seq::<int>::empty());
    while index < total
        invariant
            total == values.len() + nulls.len(),
            nulls == positions_model(null_indexes@),
            increasing_below(nulls, total as int),
            index == j + k,
            j <= values.len(),
            k <= nulls.len(),
            index <= total,
            rest@ == values.reverse().take(values.len() - j),
            merged@.len() == index,
            present_rows(merged@) == values.take(j as int),
            null_positions(merged@) == nulls.take(k as int),
            forall|a: int| 0 <= a < k ==> #[trigger] nulls[a] < index,
            k < nulls.len() ==> nulls[k as int] >= index,
        decreases total - index,
    {
        let ghost before = merged@;
        assert(before.push(None::<E>).drop_last() =~= before);
        if k < null_indexes.len() && null_indexes[k] == index {
            merged.push(None);
            assert(nulls.take(k as int + 1) =~= nulls.take(k as int).push(index as int));
            k = k + 1;
            proof {
                if k < nulls.len() {
                    assert(nulls[k - 1] < nulls[k as int]);
                }
            }
        } else {
            proof {
                if j == values.len() {
                    lemma_increasing_spread(nulls, total as int, k as int, nulls.len() - 1 - k);
                    assert(false);
                }
            }
            let ghost before_rest = rest@;
            let x = rest.pop().unwrap();
            assert(x == values[j as int]) by {
                assert(before_rest.last() == values.reverse()[values.len() - j - 1]);
            }
            assert(rest@ =~= values.reverse().take(values.len() - j - 1));
            merged.push(Some(x));
            assert(merged@.drop_last() =~= before);
            assert(values.take(j as int + 1) =~= values.take(j as int).push(x));
            j = j + 1;
        }
        index = index + 1;
    }
    assert(values.take(values.len() as int) =~= values);
    assert(nulls.take(nulls.len() as int) =~= nulls);
    merged
}

/// Filling the NULL rows back in after splitting them out gives the batch back: every row keeps
/// its position, and the NULL rows stay NULL.
pub proof fn lemma_merge_undoes_split<T>(rows: Seq<Option<T>>, merged: Seq<Option<T>>)
    requires
        merged.len() == present_rows(rows).len() + null_positions(rows).len(),
        present_rows(merged) == present_rows(rows),
        null_positions(merged) == null_positions(rows),
    ensures
        merged == rows,
{
    lemma_split_counts(rows);
    lemma_split_determines(merged, rows);
}

} // verus!
