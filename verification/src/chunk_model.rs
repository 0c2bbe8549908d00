//! What a plan of vector operations does to a data chunk, and what a chunk so written reads
//! back.
//!
//! A vector is named by its path: an output column, or a child of another vector (a `LIST`'s
//! elements, a `STRUCT` field, a `MAP`'s keys or values). Executing the operations in order leaves
//! in each row of each vector the last thing written there: a scalar, or NULL; and for a `LIST` /
//! `MAP` vector, the entry (first element and element count) of the row. Reading a row back
//! follows the column description down through those entries.

use vstd::prelude::*;
use crate::column_writer::{VectorOp, ChildLink, ScalarWrite, scalar_write_fits, ChildValues, ColumnWriter, ops_extend, flat_children, list_elements_total, map_entries_total, struct_field_values, lemma_flat_prefix, lemma_flat_step};
use crate::type_desc::{TypeDescModel, desc_accepts};
use crate::dynamic_value::value_scalar_type_id;
use crate::type_id::TypeId;
use crate::dynamic_value::ValueModel;

verus! {

/// The path of a vector: an output column, or a child of another vector.
pub enum VectorPath {
    /// The vector of output column `column`.
    Column(int),
    /// A child of a vector.
    Child(Box<VectorPath>, ChildLink),
    /// A name no operation gave.
    Dangling,
}

/// The path of the vector named `v`: operation `v` took it, as a column vector or as a child of
/// an earlier vector.
pub open spec fn path_of(ops: Seq<VectorOp>, v: int) -> VectorPath
    decreases v,
{
    if 0 <= v < ops.len() {
        match ops[v] {
            VectorOp::ColumnVector { column, .. } => VectorPath::Column(column as int),
            VectorOp::ChildVector { parent, link, .. } => if parent < v {
                VectorPath::Child(Box::new(path_of(ops, parent as int)), link)
            } else {
                VectorPath::Dangling
            },
            _ => VectorPath::Dangling,
        }
    } else {
        VectorPath::Dangling
    }
}

/// What one row of a vector holds: NULL or a scalar.
pub enum Cell {
    /// SQL NULL.
    Null,
    /// A written scalar.
    Scalar(ScalarWrite),
}

/// What operation `i` leaves in row `row` of the vector at `p`, if it writes there (the vector
/// named as the operations before it name it).
pub open spec fn op_cell(ops: Seq<VectorOp>, i: int, p: VectorPath, row: int) -> Option<Cell> {
    let pre = ops.take(i);
    match ops[i] {
        VectorOp::WriteScalar { vector, row: r, value } =>
            if path_of(pre, vector as int) == p && r == row { Some(Cell::Scalar(value)) } else { None },
        VectorOp::SetNull { vector, row: r } =>
            if path_of(pre, vector as int) == p && r == row { Some(Cell::Null) } else { None },
        VectorOp::NullEntry { vector, row: r } =>
            if path_of(pre, vector as int) == p && r == row { Some(Cell::Null) } else { None },
        _ => None,
    }
}

/// The entry (first element, element count) operation `i` gives row `row` of the `LIST` / `MAP`
/// vector at `p`, if it sets one.
pub open spec fn op_entry(ops: Seq<VectorOp>, i: int, p: VectorPath, row: int) -> Option<(int, int)> {
    let pre = ops.take(i);
    match ops[i] {
        VectorOp::SetEntry { vector, row: r, offset, length } =>
            if path_of(pre, vector as int) == p && r == row { Some((offset as int, length as int)) } else { None },
        VectorOp::NullEntry { vector, row: r } =>
            if path_of(pre, vector as int) == p && r == row { Some((0int, 0int)) } else { None },
        _ => None,
    }
}

/// Whether operation `i` writes anything into row `row` of the vector at `p`.
pub open spec fn touches(ops: Seq<VectorOp>, i: int, p: VectorPath, row: int) -> bool {
    op_cell(ops, i, p, row) is Some || op_entry(ops, i, p, row) is Some
}

/// Whether an operation writes data (a cell or an entry) at all.
pub open spec fn is_data_op(op: VectorOp) -> bool {
    op is WriteScalar || op is SetNull || op is NullEntry || op is SetEntry
}

/// The last cell the first `n` operations leave in a row.
pub open spec fn cell_upto(ops: Seq<VectorOp>, n: int, p: VectorPath, row: int) -> Option<Cell>
    decreases n,
{
    if n <= 0 {
        None
    } else {
        match op_cell(ops, n - 1, p, row) {
            Some(c) => Some(c),
            None => cell_upto(ops, n - 1, p, row),
        }
    }
}

/// The last entry the first `n` operations give a row.
pub open spec fn entry_upto(ops: Seq<VectorOp>, n: int, p: VectorPath, row: int) -> Option<(int, int)>
    decreases n,
{
    if n <= 0 {
        None
    } else {
        match op_entry(ops, n - 1, p, row) {
            Some(e) => Some(e),
            None => entry_upto(ops, n - 1, p, row),
        }
    }
}

/// What a row holds once all the operations ran.
pub open spec fn cell_at(ops: Seq<VectorOp>, p: VectorPath, row: int) -> Option<Cell> {
    cell_upto(ops, ops.len() as int, p, row)
}

/// The entry of a row once all the operations ran.
pub open spec fn entry_at(ops: Seq<VectorOp>, p: VectorPath, row: int) -> Option<(int, int)> {
    entry_upto(ops, ops.len() as int, p, row)
}

/// The value a scalar write stands for in a column of a description: a millisecond timestamp
/// in a `TIMESTAMP WITH TIME ZONE` column is one.
pub open spec fn scalar_value(w: ScalarWrite, d: TypeDescModel) -> ValueModel {
    match w {
        ScalarWrite::Boolean(a) => ValueModel::Boolean(a),
        ScalarWrite::TinyInt(a) => ValueModel::TinyInt(a),
        ScalarWrite::SmallInt(a) => ValueModel::SmallInt(a),
        ScalarWrite::Integer(a) => ValueModel::Integer(a),
        ScalarWrite::BigInt(a) => ValueModel::BigInt(a),
        ScalarWrite::HugeInt(a) => ValueModel::HugeInt(a),
        ScalarWrite::UTinyInt(a) => ValueModel::UTinyInt(a),
        ScalarWrite::USmallInt(a) => ValueModel::USmallInt(a),
        ScalarWrite::UInteger(a) => ValueModel::UInteger(a),
        ScalarWrite::UBigInt(a) => ValueModel::UBigInt(a),
        ScalarWrite::UHugeInt(a) => ValueModel::UHugeInt(a),
        ScalarWrite::Float(a) => ValueModel::Float(a),
        ScalarWrite::Double(a) => ValueModel::Double(a),
        ScalarWrite::Varchar(a) => ValueModel::Varchar(a@),
        ScalarWrite::Blob(a) => ValueModel::Blob(a@),
        ScalarWrite::Date(a) => ValueModel::Date(a),
        ScalarWrite::Time(a) => ValueModel::Time(a),
        ScalarWrite::TimeTz(a) => ValueModel::TimeTz(a),
        ScalarWrite::Timestamp(a) => ValueModel::Timestamp(a),
        ScalarWrite::TimestampS(a) => ValueModel::TimestampS(a),
        ScalarWrite::TimestampMs(a) => if d == TypeDescModel::Scalar(TypeId::TimestampTz) {
            ValueModel::TimestampTz(a)
        } else {
            ValueModel::TimestampMs(a)
        },
        ScalarWrite::TimestampNs(a) => ValueModel::TimestampNs(a),
        ScalarWrite::Uuid(a) => ValueModel::Uuid(a),
        ScalarWrite::Interval(a) => ValueModel::Interval(a),
        ScalarWrite::Decimal { width, scale, unscaled } => ValueModel::Decimal { width, scale, unscaled },
    }
}

/// The path of a child vector.
pub open spec fn child_path(p: VectorPath, link: ChildLink) -> VectorPath {
    VectorPath::Child(Box::new(p), link)
}

/// The path of the vector of `STRUCT` field `i`.
pub open spec fn field_path(p: VectorPath, i: int) -> VectorPath {
    child_path(p, ChildLink::StructField(i as usize))
}

/// A value read as a `MAP` key or value, where NULL cannot occur.
pub open spec fn present(o: Option<ValueModel>) -> ValueModel {
    match o {
        Some(v) => v,
        None => ValueModel::Boolean(false),
    }
}

/// What row `row` of the vector at `p` reads back as, for a column of description `d`: NULL when
/// its cell is NULL; a scalar from its written cell; a `LIST` / `MAP` from the elements its entry
/// spans in the child vector(s); a `STRUCT` from the same row of each field vector.
pub open spec fn read_back(ops: Seq<VectorOp>, p: VectorPath, d: TypeDescModel, row: int) -> Option<ValueModel>
    decreases d,
{
    let null = cell_at(ops, p, row) == Some(Cell::Null);
    let (offset, length) = match entry_at(ops, p, row) {
        Some(e) => e,
        None => (0int, 0int),
    };
    match d {
        TypeDescModel::Scalar(_) | TypeDescModel::Decimal { .. } => match cell_at(ops, p, row) {
            Some(Cell::Scalar(w)) => Some(scalar_value(w, d)),
            _ => None,
        },
        TypeDescModel::List(e) => if null {
            None
        } else {
            Some(ValueModel::List(Seq::new(length as nat, |j: int| read_back(ops, child_path(p, ChildLink::ListElement), *e, offset + j))))
        },
        TypeDescModel::Struct(fields) => if null {
            None
        } else {
            Some(ValueModel::Struct(Seq::new(fields.len(), |i: int| {
                if 0 <= i < fields.len() {
                    proof {
                        assert(decreases_to!(fields => fields[i]));
                    }
                    read_back(ops, field_path(p, i), fields[i].1, row)
                } else {
                    None
                }
            })))
        },
        TypeDescModel::MapOf(k, v) => if null {
            None
        } else {
            Some(ValueModel::MapOf(Seq::new(length as nat, |j: int| (
                present(read_back(ops, child_path(p, ChildLink::MapKeys), *k, offset + j)),
                present(read_back(ops, child_path(p, ChildLink::MapValues), *v, offset + j)),
            ))))
        },
    }
}

/// Whether `q` is `p` or lies below it.
pub open spec fn in_subtree(q: VectorPath, p: VectorPath) -> bool
    decreases q,
{
    if q == p {
        true
    } else {
        match q {
            VectorPath::Child(parent, _) => in_subtree(*parent, p),
            _ => false,
        }
    }
}

/// How many child links lead to a path.
pub open spec fn depth(p: VectorPath) -> nat
    decreases p,
{
    match p {
        VectorPath::Child(parent, _) => depth(*parent) + 1,
        _ => 0,
    }
}

/// Whether row `r` of the vector at `q`, below the column of description `d` at `p` whose first
/// `k` values are written, is still free: at or past the next row each vector in the column
/// writes.
pub open spec fn allowed(d: TypeDescModel, values: Seq<Option<ValueModel>>, k: int, p: VectorPath, q: VectorPath, r: int) -> bool
    decreases d,
{
    &&& in_subtree(q, p)
    &&& (q == p ==> r >= k)
    &&& match d {
        TypeDescModel::List(e) => in_subtree(q, child_path(p, ChildLink::ListElement)) ==> allowed(
            *e,
            flat_children(values, ChildValues::ListItems),
            list_elements_total(values.take(k)) as int,
            child_path(p, ChildLink::ListElement),
            q,
            r,
        ),
        TypeDescModel::Struct(fields) => forall|i: int| 0 <= i < fields.len() && #[trigger] in_subtree(q, field_path(p, i)) ==> {
            proof {
                assert(decreases_to!(fields => fields[i]));
            }
            allowed(fields[i].1, struct_field_values(values, i), k, field_path(p, i), q, r)
        },
        TypeDescModel::MapOf(kd, vd) => {
            &&& in_subtree(q, child_path(p, ChildLink::MapKeys)) ==> allowed(
                *kd,
                flat_children(values, ChildValues::MapKeys),
                map_entries_total(values.take(k)) as int,
                child_path(p, ChildLink::MapKeys),
                q,
                r,
            )
            &&& in_subtree(q, child_path(p, ChildLink::MapValues)) ==> allowed(
                *vd,
                flat_children(values, ChildValues::MapValues),
                map_entries_total(values.take(k)) as int,
                child_path(p, ChildLink::MapValues),
                q,
                r,
            )
        },
        _ => true,
    }
}

/// The path of a vector does not change as operations are added.
pub proof fn lemma_path_prefix(a: Seq<VectorOp>, b: Seq<VectorOp>, v: int)
    requires
        ops_extend(a, b),
        0 <= v < a.len(),
    ensures
        path_of(b, v) == path_of(a, v),
    decreases v,
{
    assert(b[v] == b.take(a.len() as int)[v]);
    match a[v] {
        VectorOp::ChildVector { parent, .. } => {
            if parent < v {
                lemma_path_prefix(a, b, parent as int);
            }
        },
        _ => {},
    }
}

/// What an operation writes does not change as operations are added after it.
pub proof fn lemma_op_prefix(a: Seq<VectorOp>, b: Seq<VectorOp>, i: int, p: VectorPath, row: int)
    requires
        ops_extend(a, b),
        0 <= i < a.len(),
    ensures
        op_cell(b, i, p, row) == op_cell(a, i, p, row),
        op_entry(b, i, p, row) == op_entry(a, i, p, row),
{
    assert(b[i] == b.take(a.len() as int)[i]);
    assert(b.take(i) =~= a.take(i)) by {
        assert forall|j: int| 0 <= j < i implies b.take(i)[j] == a.take(i)[j] by {
            assert(b[j] == b.take(a.len() as int)[j]);
        }
    }
}

/// The first `n` operations of a longer sequence leave what they left.
pub proof fn lemma_upto_prefix(a: Seq<VectorOp>, b: Seq<VectorOp>, n: int, p: VectorPath, row: int)
    requires
        ops_extend(a, b),
        n <= a.len(),
    ensures
        cell_upto(b, n, p, row) == cell_upto(a, n, p, row),
        entry_upto(b, n, p, row) == entry_upto(a, n, p, row),
    decreases n,
{
    if n > 0 {
        lemma_op_prefix(a, b, n - 1, p, row);
        lemma_upto_prefix(a, b, n - 1, p, row);
    }
}

/// Operations added after `a` that write nothing into a row leave it as `a` left it.
pub proof fn lemma_untouched_row(a: Seq<VectorOp>, b: Seq<VectorOp>, p: VectorPath, row: int)
    requires
        ops_extend(a, b),
        forall|i: int| a.len() <= i < b.len() ==> !touches(b, i, p, row),
    ensures
        cell_at(b, p, row) == cell_at(a, p, row),
        entry_at(b, p, row) == entry_at(a, p, row),
{
    lemma_untouched_upto(a, b, b.len() as int, p, row);
}

/// The induction behind [`lemma_untouched_row`].
proof fn lemma_untouched_upto(a: Seq<VectorOp>, b: Seq<VectorOp>, n: int, p: VectorPath, row: int)
    requires
        ops_extend(a, b),
        a.len() <= n <= b.len(),
        forall|i: int| a.len() <= i < b.len() ==> !touches(b, i, p, row),
    ensures
        cell_upto(b, n, p, row) == cell_at(a, p, row),
        entry_upto(b, n, p, row) == entry_at(a, p, row),
    decreases n,
{
    if n > a.len() {
        assert(!touches(b, n - 1, p, row));
        lemma_untouched_upto(a, b, n - 1, p, row);
    } else {
        lemma_upto_prefix(a, b, n, p, row);
    }
}

/// A path below `p` is at least as deep.
pub proof fn lemma_subtree_depth(q: VectorPath, p: VectorPath)
    requires
        in_subtree(q, p),
    ensures
        depth(q) >= depth(p),
        depth(q) == depth(p) ==> q == p,
    decreases q,
{
    if q != p {
        match q {
            VectorPath::Child(parent, _) => {
                lemma_subtree_depth(*parent, p);
            },
            _ => {},
        }
    }
}

/// Below two paths at once means below the deeper one, which lies below the other.
pub proof fn lemma_subtree_chain(q: VectorPath, a: VectorPath, b: VectorPath)
    requires
        in_subtree(q, a),
        in_subtree(q, b),
        depth(a) <= depth(b),
    ensures
        in_subtree(b, a),
    decreases q,
{
    if q == b {
    } else if q == a {
        lemma_subtree_depth(q, b);
    } else {
        match q {
            VectorPath::Child(parent, _) => {
                lemma_subtree_chain(*parent, a, b);
            },
            _ => {},
        }
    }
}

/// Nothing lies below two different children of one vector, nor below two different columns,
/// nor below a vector and its parent's other children: distinct siblings have disjoint subtrees.
pub proof fn lemma_sibling_subtrees(q: VectorPath, p: VectorPath, l1: ChildLink, l2: ChildLink)
    requires
        l1 != l2,
        in_subtree(q, child_path(p, l1)),
    ensures
        !in_subtree(q, child_path(p, l2)),
{
    if in_subtree(q, child_path(p, l2)) {
        lemma_subtree_chain(q, child_path(p, l1), child_path(p, l2));
        lemma_subtree_depth(child_path(p, l2), child_path(p, l1));
    }
}

/// The subtrees of two different columns are disjoint.
pub proof fn lemma_column_subtrees(q: VectorPath, c1: int, c2: int)
    requires
        c1 != c2,
        in_subtree(q, VectorPath::Column(c1)),
    ensures
        !in_subtree(q, VectorPath::Column(c2)),
{
    if in_subtree(q, VectorPath::Column(c2)) {
        lemma_subtree_chain(q, VectorPath::Column(c1), VectorPath::Column(c2));
    }
}

/// A child's subtree lies in its parent's.
pub proof fn lemma_child_subtree(q: VectorPath, p: VectorPath, link: ChildLink)
    requires
        in_subtree(q, child_path(p, link)),
    ensures
        in_subtree(q, p),
        q != p,
    decreases q,
{
    lemma_subtree_depth(q, child_path(p, link));
    if q != child_path(p, link) {
        match q {
            VectorPath::Child(parent, _) => {
                lemma_child_subtree(*parent, p, link);
                assert(q != p);
                assert(in_subtree(q, p));
            },
            _ => {},
        }
    } else {
        assert(in_subtree(p, p));
        assert(q != p);
    }
}


/// The `LIST` / `MAP` entries of the rows written so far: row `j` spans the elements of the rows
/// before it, as many as its value has.
pub open spec fn entries_ok(ops: Seq<VectorOp>, d: TypeDescModel, values: Seq<Option<ValueModel>>, k: int, p: VectorPath) -> bool {
    match d {
        TypeDescModel::List(_) => forall|j: int| 0 <= j < k ==> (#[trigger] values[j] matches Some(ValueModel::List(items))
            ==> entry_at(ops, p, j) == Some((list_elements_total(values.take(j)) as int, items.len() as int))),
        TypeDescModel::MapOf(_, _) => forall|j: int| 0 <= j < k ==> (#[trigger] values[j] matches Some(ValueModel::MapOf(pairs))
            ==> entry_at(ops, p, j) == Some((map_entries_total(values.take(j)) as int, pairs.len() as int))),
        _ => true,
    }
}

/// What the operations so far have done to the vectors of a column writer that has written the
/// first `k` of its values: its vector and those of its children have their paths, every row
/// written reads back as its value, nothing has been written at or past the next row of any
/// vector of the column, and the entries of the rows written are where the writer put them.
pub open spec fn content(ops: Seq<VectorOp>, w: ColumnWriter, d: TypeDescModel, values: Seq<Option<ValueModel>>, k: int, p: VectorPath) -> bool
    decreases d,
{
    &&& 0 <= k <= values.len()
    &&& w.vector < ops.len()
    &&& path_of(ops, w.vector as int) == p
    &&& forall|j: int| 0 <= j < k ==> #[trigger] read_back(ops, p, d, j) == values[j]
    &&& forall|i: int, q: VectorPath, r: int| 0 <= i < ops.len() && #[trigger] touches(ops, i, q, r) && in_subtree(q, p)
        ==> !allowed(d, values, k, p, q, r)
    &&& entries_ok(ops, d, values, k, p)
    &&& match d {
        TypeDescModel::List(e) => {
            &&& w.children@.len() == 1
            &&& content(ops, w.children@[0], *e, flat_children(values, ChildValues::ListItems),
                list_elements_total(values.take(k)) as int, child_path(p, ChildLink::ListElement))
        },
        TypeDescModel::Struct(fields) => {
            &&& w.children@.len() == fields.len()
            &&& fields.len() <= usize::MAX
            &&& forall|i: int| 0 <= i < fields.len() ==> {
                proof {
                    assert(decreases_to!(fields => fields[i]));
                }
                content(ops, #[trigger] w.children@[i], fields[i].1, struct_field_values(values, i), k, field_path(p, i))
            }
        },
        TypeDescModel::MapOf(kd, vd) => {
            &&& w.children@.len() == 2
            &&& content(ops, w.children@[0], *kd, flat_children(values, ChildValues::MapKeys),
                map_entries_total(values.take(k)) as int, child_path(p, ChildLink::MapKeys))
            &&& content(ops, w.children@[1], *vd, flat_children(values, ChildValues::MapValues),
                map_entries_total(values.take(k)) as int, child_path(p, ChildLink::MapValues))
        },
        _ => true,
    }
}

/// The elements of the first rows only grow with the rows.
pub proof fn lemma_flat_monotone(values: Seq<Option<ValueModel>>, k1: int, k2: int, x: ChildValues)
    requires
        0 <= k1 <= k2 <= values.len(),
    ensures
        flat_children(values.take(k1), x).len() <= flat_children(values.take(k2), x).len(),
        flat_children(values.take(k2), x).len() <= flat_children(values, x).len(),
{
    lemma_flat_prefix(values.take(k2), k1, x);
    assert(values.take(k2).take(k1) =~= values.take(k1));
    lemma_flat_prefix(values, k2, x);
}

/// A row free past a later next row is free past an earlier one.
pub proof fn lemma_allowed_monotone(d: TypeDescModel, values: Seq<Option<ValueModel>>, k1: int, k2: int, p: VectorPath, q: VectorPath, r: int)
    requires
        0 <= k1 <= k2 <= values.len(),
        allowed(d, values, k2, p, q, r),
    ensures
        allowed(d, values, k1, p, q, r),
    decreases d,
{
    match d {
        TypeDescModel::List(e) => {
            if in_subtree(q, child_path(p, ChildLink::ListElement)) {
                lemma_flat_monotone(values, k1, k2, ChildValues::ListItems);
                lemma_allowed_monotone(*e, flat_children(values, ChildValues::ListItems),
                    list_elements_total(values.take(k1)) as int, list_elements_total(values.take(k2)) as int,
                    child_path(p, ChildLink::ListElement), q, r);
            }
        },
        TypeDescModel::Struct(fields) => {
            assert forall|i: int| 0 <= i < fields.len() && #[trigger] in_subtree(q, field_path(p, i))
                implies allowed(fields[i].1, struct_field_values(values, i), k1, field_path(p, i), q, r) by {
                assert(decreases_to!(fields => fields[i]));
                lemma_allowed_monotone(fields[i].1, struct_field_values(values, i), k1, k2, field_path(p, i), q, r);
            }
        },
        TypeDescModel::MapOf(kd, vd) => {
            lemma_flat_monotone(values, k1, k2, ChildValues::MapKeys);
            crate::column_writer::lemma_map_children_len(values);
            if in_subtree(q, child_path(p, ChildLink::MapKeys)) {
                lemma_allowed_monotone(*kd, flat_children(values, ChildValues::MapKeys),
                    map_entries_total(values.take(k1)) as int, map_entries_total(values.take(k2)) as int,
                    child_path(p, ChildLink::MapKeys), q, r);
            }
            if in_subtree(q, child_path(p, ChildLink::MapValues)) {
                lemma_allowed_monotone(*vd, flat_children(values, ChildValues::MapValues),
                    map_entries_total(values.take(k1)) as int, map_entries_total(values.take(k2)) as int,
                    child_path(p, ChildLink::MapValues), q, r);
            }
        },
        _ => {},
    }
}


/// Operations added past the rows written so far, or outside the column, leave every written
/// row reading back as before.
pub proof fn lemma_read_back_frame(
    a: Seq<VectorOp>,
    b: Seq<VectorOp>,
    w: ColumnWriter,
    d: TypeDescModel,
    values: Seq<Option<ValueModel>>,
    k: int,
    p: VectorPath,
    j: int,
)
    requires
        ops_extend(a, b),
        content(a, w, d, values, k, p),
        forall|i: int, q: VectorPath, r: int| a.len() <= i < b.len() && #[trigger] touches(b, i, q, r)
            ==> !in_subtree(q, p) || allowed(d, values, k, p, q, r),
        0 <= j < k,
    ensures
        read_back(b, p, d, j) == read_back(a, p, d, j),
    decreases d, 1int,
{
    assert(in_subtree(p, p));
    assert forall|i: int| a.len() <= i < b.len() implies !touches(b, i, p, j) by {
        if touches(b, i, p, j) {
            assert(allowed(d, values, k, p, p, j));
        }
    }
    lemma_untouched_row(a, b, p, j);
    if cell_at(a, p, j) == Some(Cell::Null) {
        assert(read_back(a, p, d, j) == read_back(b, p, d, j));
    } else {
        match d {
            TypeDescModel::List(_) => {
                lemma_read_back_frame_list(a, b, w, d, values, k, p, j);
            },
            TypeDescModel::Struct(_) => {
                lemma_read_back_frame_struct(a, b, w, d, values, k, p, j);
            },
            TypeDescModel::MapOf(_, _) => {
                lemma_read_back_frame_map(a, b, w, d, values, k, p, j);
            },
            _ => {
                assert(read_back(a, p, d, j) == read_back(b, p, d, j));
            },
        }
    }
}

/// [`lemma_read_back_frame`] for a non-NULL `LIST` row.
proof fn lemma_read_back_frame_list(
    a: Seq<VectorOp>,
    b: Seq<VectorOp>,
    w: ColumnWriter,
    d: TypeDescModel,
    values: Seq<Option<ValueModel>>,
    k: int,
    p: VectorPath,
    j: int,
)
    requires
        d is List,
        ops_extend(a, b),
        content(a, w, d, values, k, p),
        forall|i: int, q: VectorPath, r: int| a.len() <= i < b.len() && #[trigger] touches(b, i, q, r)
            ==> !in_subtree(q, p) || allowed(d, values, k, p, q, r),
        0 <= j < k,
        cell_at(b, p, j) == cell_at(a, p, j),
        entry_at(b, p, j) == entry_at(a, p, j),
        cell_at(a, p, j) != Some(Cell::Null),
    ensures
        read_back(b, p, d, j) == read_back(a, p, d, j),
    decreases d, 0int,
{
    let e = *(d->List_0);
    assert(read_back(a, p, d, j) == values[j]);
    let items = values[j]->0->List_0;
    let cp = child_path(p, ChildLink::ListElement);
    let kids = flat_children(values, ChildValues::ListItems);
    let total = list_elements_total(values.take(k)) as int;
    let o = list_elements_total(values.take(j)) as int;
    assert(entry_at(a, p, j) == Some((o, items.len() as int)));
    lemma_flat_step(values, j, ChildValues::ListItems);
    lemma_flat_monotone(values, j + 1, k, ChildValues::ListItems);
    assert forall|i: int, q: VectorPath, r: int| a.len() <= i < b.len() && #[trigger] touches(b, i, q, r)
        implies !in_subtree(q, cp) || allowed(e, kids, total, cp, q, r) by {
        if in_subtree(q, cp) {
            lemma_child_subtree(q, p, ChildLink::ListElement);
        }
    }
    let ra = read_back(a, p, d, j);
    let rb = read_back(b, p, d, j);
    assert(ra == Some(ValueModel::List(items)));
    assert(rb->0->List_0.len() == items.len());
    assert forall|m: int| 0 <= m < items.len() implies #[trigger] rb->0->List_0[m] == items[m] by {
        assert(ra->0->List_0[m] == read_back(a, cp, e, o + m));
        assert(rb->0->List_0[m] == read_back(b, cp, e, o + m));
        lemma_read_back_frame(a, b, w.children@[0], e, kids, total, cp, o + m);
    }
    assert(rb->0->List_0 =~= items);
}

/// [`lemma_read_back_frame`] for a non-NULL `STRUCT` row.
proof fn lemma_read_back_frame_struct(
    a: Seq<VectorOp>,
    b: Seq<VectorOp>,
    w: ColumnWriter,
    d: TypeDescModel,
    values: Seq<Option<ValueModel>>,
    k: int,
    p: VectorPath,
    j: int,
)
    requires
        d is Struct,
        ops_extend(a, b),
        content(a, w, d, values, k, p),
        forall|i: int, q: VectorPath, r: int| a.len() <= i < b.len() && #[trigger] touches(b, i, q, r)
            ==> !in_subtree(q, p) || allowed(d, values, k, p, q, r),
        0 <= j < k,
        cell_at(b, p, j) == cell_at(a, p, j),
        entry_at(b, p, j) == entry_at(a, p, j),
        cell_at(a, p, j) != Some(Cell::Null),
    ensures
        read_back(b, p, d, j) == read_back(a, p, d, j),
    decreases d, 0int,
{
    let fields = d->Struct_0;
    let ra = read_back(a, p, d, j);
    let rb = read_back(b, p, d, j);
    assert(ra->0->Struct_0.len() == fields.len());
    assert(rb->0->Struct_0.len() == fields.len());
    assert forall|f: int| 0 <= f < fields.len() implies #[trigger] rb->0->Struct_0[f] == ra->0->Struct_0[f] by {
        assert(decreases_to!(d => fields));
        assert(decreases_to!(fields => fields[f]));
        assert(content(a, w.children@[f], fields[f].1, struct_field_values(values, f), k, field_path(p, f)));
        assert forall|i: int, q: VectorPath, r: int| a.len() <= i < b.len() && #[trigger] touches(b, i, q, r)
            implies !in_subtree(q, field_path(p, f)) || allowed(fields[f].1, struct_field_values(values, f), k, field_path(p, f), q, r) by {
            if in_subtree(q, field_path(p, f)) {
                lemma_child_subtree(q, p, ChildLink::StructField(#[verifier::truncate] (f as usize)));
                assert(allowed(d, values, k, p, q, r));
            }
        }
        lemma_read_back_frame(a, b, w.children@[f], fields[f].1, struct_field_values(values, f), k, field_path(p, f), j);
    }
    assert(rb->0->Struct_0 =~= ra->0->Struct_0);
}

/// [`lemma_read_back_frame`] for a non-NULL `MAP` row.
proof fn lemma_read_back_frame_map(
    a: Seq<VectorOp>,
    b: Seq<VectorOp>,
    w: ColumnWriter,
    d: TypeDescModel,
    values: Seq<Option<ValueModel>>,
    k: int,
    p: VectorPath,
    j: int,
)
    requires
        d is MapOf,
        ops_extend(a, b),
        content(a, w, d, values, k, p),
        forall|i: int, q: VectorPath, r: int| a.len() <= i < b.len() && #[trigger] touches(b, i, q, r)
            ==> !in_subtree(q, p) || allowed(d, values, k, p, q, r),
        0 <= j < k,
        cell_at(b, p, j) == cell_at(a, p, j),
        entry_at(b, p, j) == entry_at(a, p, j),
        cell_at(a, p, j) != Some(Cell::Null),
    ensures
        read_back(b, p, d, j) == read_back(a, p, d, j),
    decreases d, 0int,
{
    let kd = *(d->MapOf_0);
    let vd = *(d->MapOf_1);
    assert(read_back(a, p, d, j) == values[j]);
    let pairs = values[j]->0->MapOf_0;
    let kp = child_path(p, ChildLink::MapKeys);
    let vp = child_path(p, ChildLink::MapValues);
    let keys = flat_children(values, ChildValues::MapKeys);
    let vals = flat_children(values, ChildValues::MapValues);
    let total = map_entries_total(values.take(k)) as int;
    let o = map_entries_total(values.take(j)) as int;
    assert(entry_at(a, p, j) == Some((o, pairs.len() as int)));
    lemma_flat_step(values, j, ChildValues::MapKeys);
    lemma_flat_monotone(values, j + 1, k, ChildValues::MapKeys);
    assert forall|i: int, q: VectorPath, r: int| a.len() <= i < b.len() && #[trigger] touches(b, i, q, r)
        implies !in_subtree(q, kp) || allowed(kd, keys, total, kp, q, r) by {
        if in_subtree(q, kp) {
            lemma_child_subtree(q, p, ChildLink::MapKeys);
        }
    }
    assert forall|i: int, q: VectorPath, r: int| a.len() <= i < b.len() && #[trigger] touches(b, i, q, r)
        implies !in_subtree(q, vp) || allowed(vd, vals, total, vp, q, r) by {
        if in_subtree(q, vp) {
            lemma_child_subtree(q, p, ChildLink::MapValues);
        }
    }
    let ra = read_back(a, p, d, j);
    let rb = read_back(b, p, d, j);
    assert(ra == Some(ValueModel::MapOf(pairs)));
    assert(rb->0->MapOf_0.len() == pairs.len());
    assert forall|m: int| 0 <= m < pairs.len() implies #[trigger] rb->0->MapOf_0[m] == pairs[m] by {
        assert(ra->0->MapOf_0[m] == (present(read_back(a, kp, kd, o + m)), present(read_back(a, vp, vd, o + m))));
        assert(rb->0->MapOf_0[m] == (present(read_back(b, kp, kd, o + m)), present(read_back(b, vp, vd, o + m))));
        lemma_read_back_frame(a, b, w.children@[0], kd, keys, total, kp, o + m);
        lemma_read_back_frame(a, b, w.children@[1], vd, vals, total, vp, o + m);
    }
    assert(rb->0->MapOf_0 =~= pairs);
}

/// Operations added outside a column's vectors leave what the column's writer has written as it
/// was.
pub proof fn lemma_content_frame(
    a: Seq<VectorOp>,
    b: Seq<VectorOp>,
    w: ColumnWriter,
    d: TypeDescModel,
    values: Seq<Option<ValueModel>>,
    k: int,
    p: VectorPath,
)
    requires
        ops_extend(a, b),
        content(a, w, d, values, k, p),
        forall|i: int, q: VectorPath, r: int| a.len() <= i < b.len() && #[trigger] touches(b, i, q, r) ==> !in_subtree(q, p),
    ensures
        content(b, w, d, values, k, p),
    decreases d,
{
    lemma_path_prefix(a, b, w.vector as int);
    assert forall|j: int| 0 <= j < k implies #[trigger] read_back(b, p, d, j) == values[j] by {
        lemma_read_back_frame(a, b, w, d, values, k, p, j);
    }
    assert forall|i: int, q: VectorPath, r: int| 0 <= i < b.len() && #[trigger] touches(b, i, q, r) && in_subtree(q, p)
        implies !allowed(d, values, k, p, q, r) by {
        if i < a.len() {
            lemma_op_prefix(a, b, i, q, r);
            assert(touches(a, i, q, r));
        }
    }
    assert(in_subtree(p, p));
    assert forall|j: int| 0 <= j < k implies #[trigger] entry_at(b, p, j) == entry_at(a, p, j) by {
        lemma_untouched_row(a, b, p, j);
    }
    match d {
        TypeDescModel::List(e) => {
            let cp = child_path(p, ChildLink::ListElement);
            assert forall|i: int, q: VectorPath, r: int| a.len() <= i < b.len() && #[trigger] touches(b, i, q, r) implies !in_subtree(q, cp) by {
                if in_subtree(q, cp) {
                    lemma_child_subtree(q, p, ChildLink::ListElement);
                }
            }
            lemma_content_frame(a, b, w.children@[0], *e, flat_children(values, ChildValues::ListItems),
                list_elements_total(values.take(k)) as int, cp);
        },
        TypeDescModel::Struct(fields) => {
            assert forall|f: int| 0 <= f < fields.len() implies
                content(b, #[trigger] w.children@[f], fields[f].1, struct_field_values(values, f), k, field_path(p, f)) by {
                assert(decreases_to!(fields => fields[f]));
                assert forall|i: int, q: VectorPath, r: int| a.len() <= i < b.len() && #[trigger] touches(b, i, q, r)
                    implies !in_subtree(q, field_path(p, f)) by {
                    if in_subtree(q, field_path(p, f)) {
                        lemma_child_subtree(q, p, ChildLink::StructField(#[verifier::truncate] (f as usize)));
                    }
                }
                lemma_content_frame(a, b, w.children@[f], fields[f].1, struct_field_values(values, f), k, field_path(p, f));
            }
        },
        TypeDescModel::MapOf(kd, vd) => {
            let kp = child_path(p, ChildLink::MapKeys);
            let vp = child_path(p, ChildLink::MapValues);
            assert forall|i: int, q: VectorPath, r: int| a.len() <= i < b.len() && #[trigger] touches(b, i, q, r)
                implies !in_subtree(q, kp) && !in_subtree(q, vp) by {
                if in_subtree(q, kp) {
                    lemma_child_subtree(q, p, ChildLink::MapKeys);
                }
                if in_subtree(q, vp) {
                    lemma_child_subtree(q, p, ChildLink::MapValues);
                }
            }
            lemma_content_frame(a, b, w.children@[0], *kd, flat_children(values, ChildValues::MapKeys),
                map_entries_total(values.take(k)) as int, kp);
            lemma_content_frame(a, b, w.children@[1], *vd, flat_children(values, ChildValues::MapValues),
                map_entries_total(values.take(k)) as int, vp);
        },
        _ => {},
    }
}

/// An operation that writes no data touches no row.
pub proof fn lemma_no_data_no_touch(ops: Seq<VectorOp>)
    requires
        forall|i: int| 0 <= i < ops.len() ==> !is_data_op(#[trigger] ops[i]),
    ensures
        forall|i: int, q: VectorPath, r: int| 0 <= i < ops.len() ==> !#[trigger] touches(ops, i, q, r),
{
    assert forall|i: int, q: VectorPath, r: int| 0 <= i < ops.len() implies !#[trigger] touches(ops, i, q, r) by {
        assert(!is_data_op(ops[i]));
    }
}

/// A scalar written for a value a column accepts reads back as that value.
pub proof fn lemma_scalar_value(w: ScalarWrite, d: TypeDescModel, v: ValueModel)
    requires
        scalar_write_fits(w, v),
        desc_accepts(d, v),
    ensures
        scalar_value(w, d) == v,
{
    if w is TimestampMs {
        if v is TimestampTz {
            assert(value_scalar_type_id(v) == Some(TypeId::TimestampTz));
        } else {
            assert(value_scalar_type_id(v) == Some(TypeId::TimestampMs));
        }
    }
}

/// A row at or past the next row of a column's own vector is free.
pub proof fn lemma_allowed_own_row(d: TypeDescModel, values: Seq<Option<ValueModel>>, k: int, p: VectorPath, r: int)
    requires
        r >= k,
    ensures
        allowed(d, values, k, p, p, r),
{
    assert(in_subtree(p, p));
    match d {
        TypeDescModel::List(_) => {
            if in_subtree(p, child_path(p, ChildLink::ListElement)) {
                lemma_child_subtree(p, p, ChildLink::ListElement);
            }
        },
        TypeDescModel::Struct(fields) => {
            assert forall|i: int| 0 <= i < fields.len() && #[trigger] in_subtree(p, field_path(p, i))
                implies allowed(fields[i].1, struct_field_values(values, i), k, field_path(p, i), p, r) by {
                lemma_child_subtree(p, p, ChildLink::StructField(#[verifier::truncate] (i as usize)));
            }
        },
        TypeDescModel::MapOf(_, _) => {
            if in_subtree(p, child_path(p, ChildLink::MapKeys)) {
                lemma_child_subtree(p, p, ChildLink::MapKeys);
            }
            if in_subtree(p, child_path(p, ChildLink::MapValues)) {
                lemma_child_subtree(p, p, ChildLink::MapValues);
            }
        },
        _ => {},
    }
}

/// No operation a column's writer has decided so far writes at or past its next row.
pub proof fn lemma_next_row_untouched(ops: Seq<VectorOp>, w: ColumnWriter, d: TypeDescModel, values: Seq<Option<ValueModel>>, k: int, p: VectorPath, r: int)
    requires
        content(ops, w, d, values, k, p),
        r >= k,
    ensures
        forall|i: int| 0 <= i < ops.len() ==> !touches(ops, i, p, r),
{
    lemma_allowed_own_row(d, values, k, p, r);
    assert(in_subtree(p, p));
}

/// A row no operation writes holds nothing and has no entry.
pub proof fn lemma_never_touched(ops: Seq<VectorOp>, p: VectorPath, r: int)
    requires
        forall|i: int| 0 <= i < ops.len() ==> !touches(ops, i, p, r),
    ensures
        cell_at(ops, p, r) is None,
        entry_at(ops, p, r) is None,
{
    let empty = Seq::<VectorOp>::empty();
    assert(ops.subrange(0, 0) =~= empty);
    lemma_untouched_row(empty, ops, p, r);
}

/// The last operation decides a row it writes.
pub proof fn lemma_last_write(a: Seq<VectorOp>, op: VectorOp, p: VectorPath, r: int)
    ensures
        op_cell(a.push(op), a.len() as int, p, r) is Some ==> cell_at(a.push(op), p, r) == op_cell(a.push(op), a.len() as int, p, r),
        op_cell(a.push(op), a.len() as int, p, r) is None ==> cell_at(a.push(op), p, r) == cell_at(a, p, r),
        op_entry(a.push(op), a.len() as int, p, r) is Some ==> entry_at(a.push(op), p, r) == op_entry(a.push(op), a.len() as int, p, r),
        op_entry(a.push(op), a.len() as int, p, r) is None ==> entry_at(a.push(op), p, r) == entry_at(a, p, r),
        ops_extend(a, a.push(op)),
{
    let b = a.push(op);
    assert(b.subrange(0, a.len() as int) =~= a);
    lemma_upto_prefix(a, b, a.len() as int, p, r);
}

/// The writers below a column writer, each advanced as far as the column's first `k` values
/// take it.
pub open spec fn children_content(ops: Seq<VectorOp>, w: ColumnWriter, d: TypeDescModel, values: Seq<Option<ValueModel>>, k: int, p: VectorPath) -> bool {
    match d {
        TypeDescModel::List(e) => {
            &&& w.children@.len() == 1
            &&& content(ops, w.children@[0], *e, flat_children(values, ChildValues::ListItems),
                list_elements_total(values.take(k)) as int, child_path(p, ChildLink::ListElement))
        },
        TypeDescModel::Struct(fields) => {
            &&& w.children@.len() == fields.len()
            &&& fields.len() <= usize::MAX
            &&& forall|i: int| 0 <= i < fields.len() ==>
                content(ops, #[trigger] w.children@[i], fields[i].1, struct_field_values(values, i), k, field_path(p, i))
        },
        TypeDescModel::MapOf(kd, vd) => {
            &&& w.children@.len() == 2
            &&& content(ops, w.children@[0], *kd, flat_children(values, ChildValues::MapKeys),
                map_entries_total(values.take(k)) as int, child_path(p, ChildLink::MapKeys))
            &&& content(ops, w.children@[1], *vd, flat_children(values, ChildValues::MapValues),
                map_entries_total(values.take(k)) as int, child_path(p, ChildLink::MapValues))
        },
        _ => true,
    }
}

/// Whether row `r` of the vector at `q` is free for the writer of a child of the column at `p`,
/// once the column has written its first `k` values.
pub open spec fn child_allowed(d: TypeDescModel, values: Seq<Option<ValueModel>>, k: int, p: VectorPath, q: VectorPath, r: int) -> bool {
    match d {
        TypeDescModel::List(e) => allowed(*e, flat_children(values, ChildValues::ListItems),
            list_elements_total(values.take(k)) as int, child_path(p, ChildLink::ListElement), q, r),
        TypeDescModel::Struct(fields) => exists|i: int| 0 <= i < fields.len()
            && #[trigger] allowed(fields[i].1, struct_field_values(values, i), k, field_path(p, i), q, r),
        TypeDescModel::MapOf(kd, vd) => {
            ||| allowed(*kd, flat_children(values, ChildValues::MapKeys), map_entries_total(values.take(k)) as int,
                child_path(p, ChildLink::MapKeys), q, r)
            ||| allowed(*vd, flat_children(values, ChildValues::MapValues), map_entries_total(values.take(k)) as int,
                child_path(p, ChildLink::MapValues), q, r)
        },
        _ => false,
    }
}

/// The entry of row `k` of a `LIST` / `MAP` column holding a value: right after the elements
/// of the rows before it, as many as the value has.
pub open spec fn row_entry_ok(ops: Seq<VectorOp>, d: TypeDescModel, values: Seq<Option<ValueModel>>, k: int, p: VectorPath) -> bool {
    match d {
        TypeDescModel::List(_) => values[k] matches Some(ValueModel::List(items))
            ==> entry_at(ops, p, k) == Some((list_elements_total(values.take(k)) as int, items.len() as int)),
        TypeDescModel::MapOf(_, _) => values[k] matches Some(ValueModel::MapOf(pairs))
            ==> entry_at(ops, p, k) == Some((map_entries_total(values.take(k)) as int, pairs.len() as int)),
        _ => true,
    }
}

/// What a column's content says of its children is what [`children_content`] says.
pub proof fn lemma_children_content(ops: Seq<VectorOp>, w: ColumnWriter, d: TypeDescModel, values: Seq<Option<ValueModel>>, k: int, p: VectorPath)
    requires
        content(ops, w, d, values, k, p),
    ensures
        children_content(ops, w, d, values, k, p),
{
}

/// A child writer's free row is free for the column.
pub proof fn lemma_child_allowed(d: TypeDescModel, values: Seq<Option<ValueModel>>, k: int, p: VectorPath, q: VectorPath, r: int)
    requires
        child_allowed(d, values, k, p, q, r),
        d is Struct ==> d->Struct_0.len() <= usize::MAX,
    ensures
        allowed(d, values, k, p, q, r),
        q != p,
{
    match d {
        TypeDescModel::List(e) => {
            lemma_child_subtree(q, p, ChildLink::ListElement);
        },
        TypeDescModel::Struct(fields) => {
            let i = choose|i: int| 0 <= i < fields.len()
                && #[trigger] allowed(fields[i].1, struct_field_values(values, i), k, field_path(p, i), q, r);
            assert(in_subtree(q, field_path(p, i)));
            lemma_child_subtree(q, p, ChildLink::StructField(i as usize));
            assert forall|i2: int| 0 <= i2 < fields.len() && #[trigger] in_subtree(q, field_path(p, i2))
                implies allowed(fields[i2].1, struct_field_values(values, i2), k, field_path(p, i2), q, r) by {
                if i2 != i {
                    lemma_sibling_subtrees(q, p, ChildLink::StructField(i as usize), ChildLink::StructField(i2 as usize));
                }
            }
        },
        TypeDescModel::MapOf(kd, vd) => {
            let kp = child_path(p, ChildLink::MapKeys);
            let vp = child_path(p, ChildLink::MapValues);
            if allowed(*kd, flat_children(values, ChildValues::MapKeys), map_entries_total(values.take(k)) as int, kp, q, r) {
                lemma_child_subtree(q, p, ChildLink::MapKeys);
                lemma_sibling_subtrees(q, p, ChildLink::MapKeys, ChildLink::MapValues);
            } else {
                lemma_child_subtree(q, p, ChildLink::MapValues);
                lemma_sibling_subtrees(q, p, ChildLink::MapValues, ChildLink::MapKeys);
            }
        },
        _ => {},
    }
}

/// A row a child writer has filled, below its new next row, is filled for the column too.
pub proof fn lemma_child_filled(
    ops: Seq<VectorOp>,
    w: ColumnWriter,
    d: TypeDescModel,
    values: Seq<Option<ValueModel>>,
    k: int,
    p: VectorPath,
    i: int,
    q: VectorPath,
    r: int,
)
    requires
        children_content(ops, w, d, values, k, p),
        0 <= i < ops.len(),
        touches(ops, i, q, r),
        child_allowed(d, values, k - 1, p, q, r),
    ensures
        !allowed(d, values, k, p, q, r),
{
    match d {
        TypeDescModel::List(e) => {
            assert(in_subtree(q, child_path(p, ChildLink::ListElement)));
        },
        TypeDescModel::Struct(fields) => {
            let f = choose|f: int| 0 <= f < fields.len()
                && #[trigger] allowed(fields[f].1, struct_field_values(values, f), k - 1, field_path(p, f), q, r);
            assert(in_subtree(q, field_path(p, f)));
            assert(content(ops, w.children@[f], fields[f].1, struct_field_values(values, f), k, field_path(p, f)));
        },
        TypeDescModel::MapOf(kd, vd) => {
            if allowed(*kd, flat_children(values, ChildValues::MapKeys), map_entries_total(values.take(k - 1)) as int,
                child_path(p, ChildLink::MapKeys), q, r) {
                assert(in_subtree(q, child_path(p, ChildLink::MapKeys)));
            } else {
                assert(in_subtree(q, child_path(p, ChildLink::MapValues)));
            }
        },
        _ => {},
    }
}

/// A column writer advances by one row: its own vector is written at row `k` only, everything
/// else new was free for a child writer, the new row reads back as its value with its entry in
/// place, and the child writers (now those of `w`; before, those of `w0` with the same vector)
/// have advanced as the value takes them.
#[verifier::rlimit(60)]
pub proof fn lemma_content_advance(
    a: Seq<VectorOp>,
    b: Seq<VectorOp>,
    w0: ColumnWriter,
    w: ColumnWriter,
    d: TypeDescModel,
    values: Seq<Option<ValueModel>>,
    k: int,
    p: VectorPath,
)
    requires
        ops_extend(a, b),
        content(a, w0, d, values, k, p),
        w.vector == w0.vector,
        0 <= k < values.len(),
        forall|i: int, q: VectorPath, r: int| a.len() <= i < b.len() && #[trigger] touches(b, i, q, r)
            ==> (q == p && r == k) || child_allowed(d, values, k, p, q, r),
        read_back(b, p, d, k) == values[k],
        row_entry_ok(b, d, values, k, p),
        children_content(b, w, d, values, k + 1, p),
    ensures
        content(b, w, d, values, k + 1, p),
        forall|i: int, q: VectorPath, r: int| a.len() <= i < b.len() && #[trigger] touches(b, i, q, r)
            ==> allowed(d, values, k, p, q, r),
{
    assert forall|i: int, q: VectorPath, r: int| a.len() <= i < b.len() && #[trigger] touches(b, i, q, r)
        implies allowed(d, values, k, p, q, r) by {
        if q == p && r == k {
            lemma_allowed_own_row(d, values, k, p, k);
        } else {
            lemma_child_allowed(d, values, k, p, q, r);
        }
    }
    lemma_path_prefix(a, b, w0.vector as int);
    assert forall|j: int| 0 <= j < k + 1 implies #[trigger] read_back(b, p, d, j) == values[j] by {
        if j < k {
            lemma_read_back_frame(a, b, w0, d, values, k, p, j);
        }
    }
    lemma_advance_fresh(a, b, w0, w, d, values, k, p);
    assert forall|j: int| 0 <= j < k implies #[trigger] entry_at(b, p, j) == entry_at(a, p, j) by {
        assert forall|i: int| a.len() <= i < b.len() implies !touches(b, i, p, j) by {
            if touches(b, i, p, j) {
                if !(p == p && j == k) {
                    lemma_child_allowed(d, values, k, p, p, j);
                }
            }
        }
        lemma_untouched_row(a, b, p, j);
    }
    assert(entries_ok(b, d, values, k + 1, p));
}

/// [`lemma_content_advance`]: nothing is written yet where the advanced column would write next.
proof fn lemma_advance_fresh(
    a: Seq<VectorOp>,
    b: Seq<VectorOp>,
    w0: ColumnWriter,
    w: ColumnWriter,
    d: TypeDescModel,
    values: Seq<Option<ValueModel>>,
    k: int,
    p: VectorPath,
)
    requires
        ops_extend(a, b),
        content(a, w0, d, values, k, p),
        0 <= k < values.len(),
        forall|i: int, q: VectorPath, r: int| a.len() <= i < b.len() && #[trigger] touches(b, i, q, r)
            ==> (q == p && r == k) || child_allowed(d, values, k, p, q, r),
        children_content(b, w, d, values, k + 1, p),
    ensures
        forall|i: int, q: VectorPath, r: int| 0 <= i < b.len() && #[trigger] touches(b, i, q, r) && in_subtree(q, p)
            ==> !allowed(d, values, k + 1, p, q, r),
{
    assert forall|i: int, q: VectorPath, r: int| 0 <= i < b.len() && #[trigger] touches(b, i, q, r) && in_subtree(q, p)
        implies !allowed(d, values, k + 1, p, q, r) by {
        if i < a.len() {
            lemma_op_prefix(a, b, i, q, r);
            assert(touches(a, i, q, r));
            if allowed(d, values, k + 1, p, q, r) {
                lemma_allowed_monotone(d, values, k, k + 1, p, q, r);
            }
        } else if q == p && r == k {
        } else {
            lemma_child_filled(b, w, d, values, k + 1, p, i, q, r);
        }
    }
}

/// A row free for the writer of one `STRUCT` field is free for a child writer of the column.
pub proof fn lemma_field_child_allowed(d: TypeDescModel, values: Seq<Option<ValueModel>>, k: int, p: VectorPath, f: int, q: VectorPath, r: int)
    requires
        d is Struct,
        0 <= f < d->Struct_0.len(),
        allowed(d->Struct_0[f].1, struct_field_values(values, f), k, field_path(p, f), q, r),
    ensures
        child_allowed(d, values, k, p, q, r),
{
}

/// The vector and row a data operation writes.
pub open spec fn data_target(op: VectorOp) -> Option<(usize, usize)> {
    match op {
        VectorOp::WriteScalar { vector, row, .. } => Some((vector, row)),
        VectorOp::SetNull { vector, row } => Some((vector, row)),
        VectorOp::NullEntry { vector, row } => Some((vector, row)),
        VectorOp::SetEntry { vector, row, .. } => Some((vector, row)),
        _ => None,
    }
}

/// An operation appended to `a` writes only the row it names, of the vector it names.
pub proof fn lemma_pushed_touches(a: Seq<VectorOp>, op: VectorOp)
    ensures
        ops_extend(a, a.push(op)),
        forall|q: VectorPath, r: int| #[trigger] touches(a.push(op), a.len() as int, q, r)
            ==> (data_target(op) matches Some((v, row)) && path_of(a, v as int) == q && r == row),
{
    let b = a.push(op);
    assert(b.take(a.len() as int) =~= a);
    crate::column_writer::lemma_ops_extend_push(a, op);
}

/// New operations that write only below the children of a column leave its own rows as they
/// were.
pub proof fn lemma_children_only(a: Seq<VectorOp>, b: Seq<VectorOp>, d: TypeDescModel, values: Seq<Option<ValueModel>>, k: int, p: VectorPath, row: int)
    requires
        ops_extend(a, b),
        d is Struct ==> d->Struct_0.len() <= usize::MAX,
        forall|i: int, q: VectorPath, r: int| a.len() <= i < b.len() && #[trigger] touches(b, i, q, r)
            ==> child_allowed(d, values, k, p, q, r),
    ensures
        cell_at(b, p, row) == cell_at(a, p, row),
        entry_at(b, p, row) == entry_at(a, p, row),
{
    assert forall|i: int| a.len() <= i < b.len() implies !touches(b, i, p, row) by {
        if touches(b, i, p, row) {
            lemma_child_allowed(d, values, k, p, p, row);
        }
    }
    lemma_untouched_row(a, b, p, row);
}

/// One operation on a column's own row `k` and nothing else: what the column's writer holds
/// below it is unchanged, and the new operation is free for the column.
pub proof fn lemma_own_row_op(a: Seq<VectorOp>, w: ColumnWriter, d: TypeDescModel, values: Seq<Option<ValueModel>>, k: int, p: VectorPath, op: VectorOp)
    requires
        content(a, w, d, values, k, p),
        0 <= k < values.len(),
        data_target(op) == Some((w.vector, k as usize)),
        k <= usize::MAX,
    ensures
        ops_extend(a, a.push(op)),
        forall|i: int, q: VectorPath, r: int| a.len() <= i < a.push(op).len() && #[trigger] touches(a.push(op), i, q, r)
            ==> q == p && r == k,
        cell_at(a, p, k) is None,
        entry_at(a, p, k) is None,
        children_content(a.push(op), w, d, values, k, p),
{
    let b = a.push(op);
    lemma_pushed_touches(a, op);
    assert forall|i: int, q: VectorPath, r: int| a.len() <= i < b.len() && #[trigger] touches(b, i, q, r)
        implies q == p && r == k by {
        assert(i == a.len());
    }
    lemma_next_row_untouched(a, w, d, values, k, p, k);
    lemma_never_touched(a, p, k);
    lemma_children_content(a, w, d, values, k, p);
    lemma_children_frame(a, b, w, d, values, k, p);
}

/// Operations that write only a column's own vector leave its children's content as it was.
pub proof fn lemma_children_frame(a: Seq<VectorOp>, b: Seq<VectorOp>, w: ColumnWriter, d: TypeDescModel, values: Seq<Option<ValueModel>>, k: int, p: VectorPath)
    requires
        ops_extend(a, b),
        children_content(a, w, d, values, k, p),
        forall|i: int, q: VectorPath, r: int| a.len() <= i < b.len() && #[trigger] touches(b, i, q, r) ==> q == p,
    ensures
        children_content(b, w, d, values, k, p),
{
    match d {
        TypeDescModel::List(e) => {
            let cp = child_path(p, ChildLink::ListElement);
            assert forall|i: int, q: VectorPath, r: int| a.len() <= i < b.len() && #[trigger] touches(b, i, q, r) implies !in_subtree(q, cp) by {
                if in_subtree(q, cp) {
                    lemma_child_subtree(q, p, ChildLink::ListElement);
                }
            }
            lemma_content_frame(a, b, w.children@[0], *e, flat_children(values, ChildValues::ListItems),
                list_elements_total(values.take(k)) as int, cp);
        },
        TypeDescModel::Struct(fields) => {
            assert forall|f: int| 0 <= f < fields.len() implies
                content(b, #[trigger] w.children@[f], fields[f].1, struct_field_values(values, f), k, field_path(p, f)) by {
                assert forall|i: int, q: VectorPath, r: int| a.len() <= i < b.len() && #[trigger] touches(b, i, q, r)
                    implies !in_subtree(q, field_path(p, f)) by {
                    if in_subtree(q, field_path(p, f)) {
                        lemma_child_subtree(q, p, ChildLink::StructField(f as usize));
                    }
                }
                lemma_content_frame(a, b, w.children@[f], fields[f].1, struct_field_values(values, f), k, field_path(p, f));
            }
        },
        TypeDescModel::MapOf(kd, vd) => {
            let kp = child_path(p, ChildLink::MapKeys);
            let vp = child_path(p, ChildLink::MapValues);
            assert forall|i: int, q: VectorPath, r: int| a.len() <= i < b.len() && #[trigger] touches(b, i, q, r)
                implies !in_subtree(q, kp) && !in_subtree(q, vp) by {
                if in_subtree(q, kp) {
                    lemma_child_subtree(q, p, ChildLink::MapKeys);
                }
                if in_subtree(q, vp) {
                    lemma_child_subtree(q, p, ChildLink::MapValues);
                }
            }
            lemma_content_frame(a, b, w.children@[0], *kd, flat_children(values, ChildValues::MapKeys),
                map_entries_total(values.take(k)) as int, kp);
            lemma_content_frame(a, b, w.children@[1], *vd, flat_children(values, ChildValues::MapValues),
                map_entries_total(values.take(k)) as int, vp);
        },
        _ => {},
    }
}

/// A NULL row adds no children: the element / entry counts of the first rows stay.
pub proof fn lemma_null_row_totals(values: Seq<Option<ValueModel>>, k: int)
    requires
        0 <= k < values.len(),
        values[k] is None,
    ensures
        list_elements_total(values.take(k + 1)) == list_elements_total(values.take(k)),
        map_entries_total(values.take(k + 1)) == map_entries_total(values.take(k)),
{
    lemma_flat_step(values, k, ChildValues::ListItems);
    lemma_flat_step(values, k, ChildValues::MapKeys);
    assert(flat_children(values.take(k + 1), ChildValues::ListItems) =~= flat_children(values.take(k), ChildValues::ListItems));
    assert(flat_children(values.take(k + 1), ChildValues::MapKeys) =~= flat_children(values.take(k), ChildValues::MapKeys));
}

/// Marking the next row of a scalar, `LIST` or `MAP` column NULL (a `LIST` / `MAP` with an empty
/// entry), or writing a scalar there, advances the column by that row.
pub proof fn lemma_single_op_step(a: Seq<VectorOp>, w: ColumnWriter, d: TypeDescModel, values: Seq<Option<ValueModel>>, k: int, p: VectorPath, op: VectorOp)
    requires
        content(a, w, d, values, k, p),
        0 <= k < values.len(),
        k <= usize::MAX,
        data_target(op) == Some((w.vector, k as usize)),
        d is Scalar || d is Decimal || d is List || d is MapOf,
        op is SetNull ==> (d is Scalar || d is Decimal) && values[k] is None,
        op is NullEntry ==> (d is List || d is MapOf) && values[k] is None,
        op is WriteScalar ==> (d is Scalar || d is Decimal) && values[k] == Some(scalar_value(op->WriteScalar_value, d)),
        !(op is SetEntry),
    ensures
        content(a.push(op), w, d, values, k + 1, p),
        forall|i: int, q: VectorPath, r: int| a.len() <= i < a.push(op).len() && #[trigger] touches(a.push(op), i, q, r)
            ==> allowed(d, values, k, p, q, r),
{
    let b = a.push(op);
    lemma_own_row_op(a, w, d, values, k, p, op);
    lemma_last_write(a, op, p, k);
    lemma_pushed_touches(a, op);
    assert(path_of(a, w.vector as int) == p);
    if values[k] is None {
        lemma_null_row_totals(values, k);
    }
    assert(children_content(b, w, d, values, k + 1, p));
    assert(read_back(b, p, d, k) == values[k]);
    lemma_content_advance(a, b, w, w, d, values, k, p);
}

/// A `LIST` row written: its entry spans its elements right after those of the rows before, and
/// the element writer has written them, so it reads back as its value.
pub proof fn lemma_list_read_back(b: Seq<VectorOp>, w: ColumnWriter, d: TypeDescModel, values: Seq<Option<ValueModel>>, k: int, p: VectorPath)
    requires
        d is List,
        0 <= k < values.len(),
        values[k] is Some,
        values[k]->0 is List,
        children_content(b, w, d, values, k + 1, p),
        cell_at(b, p, k) is None,
        entry_at(b, p, k) == Some((list_elements_total(values.take(k)) as int, values[k]->0->List_0.len() as int)),
    ensures
        read_back(b, p, d, k) == values[k],
{
    let e = *(d->List_0);
    let items = values[k]->0->List_0;
    let cp = child_path(p, ChildLink::ListElement);
    let kids = flat_children(values, ChildValues::ListItems);
    let o = list_elements_total(values.take(k)) as int;
    lemma_flat_step(values, k, ChildValues::ListItems);
    lemma_flat_prefix(values, k + 1, ChildValues::ListItems);
    let rb = read_back(b, p, d, k);
    assert(content(b, w.children@[0], e, kids, list_elements_total(values.take(k + 1)) as int, cp));
    assert(rb->0->List_0.len() == items.len());
    assert forall|j: int| 0 <= j < items.len() implies #[trigger] rb->0->List_0[j] == items[j] by {
        let pre = flat_children(values.take(k + 1), ChildValues::ListItems);
        assert(rb->0->List_0[j] == read_back(b, cp, e, o + j));
        assert(read_back(b, cp, e, o + j) == kids[o + j]);
        assert(kids.take(pre.len() as int)[o + j] == pre[o + j]);
        assert(pre[o + j] == items[j]);
    }
    assert(rb->0->List_0 =~= items);
}

/// A `MAP` row written: its entry spans its entries right after those of the rows before, and the
/// key and value writers have written them, so it reads back as its value.
pub proof fn lemma_map_read_back(b: Seq<VectorOp>, w: ColumnWriter, d: TypeDescModel, values: Seq<Option<ValueModel>>, k: int, p: VectorPath)
    requires
        d is MapOf,
        0 <= k < values.len(),
        values[k] is Some,
        values[k]->0 is MapOf,
        children_content(b, w, d, values, k + 1, p),
        cell_at(b, p, k) is None,
        entry_at(b, p, k) == Some((map_entries_total(values.take(k)) as int, values[k]->0->MapOf_0.len() as int)),
    ensures
        read_back(b, p, d, k) == values[k],
{
    let pairs = values[k]->0->MapOf_0;
    let keys = flat_children(values, ChildValues::MapKeys);
    let vals = flat_children(values, ChildValues::MapValues);
    let o = map_entries_total(values.take(k)) as int;
    lemma_flat_step(values, k, ChildValues::MapKeys);
    lemma_flat_step(values, k, ChildValues::MapValues);
    lemma_flat_prefix(values, k + 1, ChildValues::MapKeys);
    lemma_flat_prefix(values, k + 1, ChildValues::MapValues);
    crate::column_writer::lemma_map_children_len(values.take(k));
    crate::column_writer::lemma_map_children_len(values.take(k + 1));
    let kd = *(d->MapOf_0);
    let vd = *(d->MapOf_1);
    let kp = child_path(p, ChildLink::MapKeys);
    let vp = child_path(p, ChildLink::MapValues);
    let rb = read_back(b, p, d, k);
    let total = map_entries_total(values.take(k + 1)) as int;
    assert(content(b, w.children@[0], kd, keys, total, kp));
    assert(content(b, w.children@[1], vd, vals, total, vp));
    assert(rb->0->MapOf_0.len() == pairs.len());
    assert forall|j: int| 0 <= j < pairs.len() implies #[trigger] rb->0->MapOf_0[j] == pairs[j] by {
        assert(rb->0->MapOf_0[j] == (present(read_back(b, kp, kd, o + j)), present(read_back(b, vp, vd, o + j))));
        assert(read_back(b, kp, kd, o + j) == keys[o + j]);
        assert(read_back(b, vp, vd, o + j) == vals[o + j]);
        let kpre = flat_children(values.take(k + 1), ChildValues::MapKeys);
        let vpre = flat_children(values.take(k + 1), ChildValues::MapValues);
        assert(keys.take(kpre.len() as int)[o + j] == kpre[o + j]);
        assert(vals.take(vpre.len() as int)[o + j] == vpre[o + j]);
        assert(kpre[o + j] == Some(pairs[j].0));
        assert(vpre[o + j] == Some(pairs[j].1));
    }
    assert(rb->0->MapOf_0 =~= pairs);
}

/// A `STRUCT` row written: each field writer has written the field, so it reads back as its
/// value.
pub proof fn lemma_struct_read_back(b: Seq<VectorOp>, w: ColumnWriter, d: TypeDescModel, values: Seq<Option<ValueModel>>, k: int, p: VectorPath)
    requires
        d is Struct,
        0 <= k < values.len(),
        values[k] is Some,
        values[k]->0 is Struct,
        values[k]->0->Struct_0.len() == d->Struct_0.len(),
        children_content(b, w, d, values, k + 1, p),
        cell_at(b, p, k) is None,
    ensures
        read_back(b, p, d, k) == values[k],
{
    let fields = d->Struct_0;
    let vm = values[k]->0->Struct_0;
    let rb = read_back(b, p, d, k);
    assert(rb->0->Struct_0.len() == fields.len());
    assert forall|f: int| 0 <= f < fields.len() implies #[trigger] rb->0->Struct_0[f] == vm[f] by {
        assert(rb->0->Struct_0[f] == read_back(b, field_path(p, f), fields[f].1, k));
        assert(content(b, w.children@[f], fields[f].1, struct_field_values(values, f), k + 1, field_path(p, f)));
        assert(struct_field_values(values, f)[k] == vm[f]);
    }
    assert(rb->0->Struct_0 =~= vm);
}

} // verus!
