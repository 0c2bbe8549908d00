//! Planning the write of a batch of dynamic rows into a DuckDB data chunk.
//!
//! Writing into DuckDB vectors goes through the C API; what to write where is decided here. A
//! batch becomes a sequence of [`VectorOp`]s: which vectors to take (a column of the chunk, or a
//! child of another vector), where to reserve room for `LIST` / `MAP` elements, which entries,
//! scalars and NULLs to write at which rows, and the final element counts. Performing the
//! operations in order, each on the vector it names, writes the batch.
//!
//! Every vector is named by the index of the operation that took it ([`VectorOp::ColumnVector`]
//! or [`VectorOp::ChildVector`]), so a vector is always taken before it is used.

use vstd::prelude::*;
use crate::dynamic_value::{DuckDynamicValue, DuckInterval, ValueModel, value_model, option_model, is_nested_value};
use crate::type_desc::{DuckTypeDesc, TypeDescModel, desc_model, desc_accepts};
use crate::error::{DuckResult, duck_error};
use crate::row::{DuckDynamicRow, batch_model, batch_error, validate_batch, lemma_valid_batch_fits};
use crate::schema::{DuckResultSchema, columns_model};
use crate::chunk_model::{VectorPath, content, path_of, is_data_op, child_path, field_path, touches, allowed, child_allowed, children_content, in_subtree, read_back, entry_at, lemma_path_prefix, lemma_allowed_monotone, lemma_children_content, lemma_next_row_untouched, lemma_never_touched, lemma_list_read_back, lemma_map_read_back, lemma_struct_read_back, lemma_scalar_value, lemma_field_child_allowed, lemma_column_subtrees, lemma_content_frame, lemma_no_data_no_touch, lemma_single_op_step, lemma_own_row_op, lemma_last_write, lemma_op_prefix, lemma_sibling_subtrees, lemma_children_only, lemma_content_advance};

verus! {

/// One physical scalar write into a vector.
#[derive(Debug)]
pub enum ScalarWrite {
    /// A `BOOLEAN`.
    Boolean(bool),
    /// A `TINYINT`.
    TinyInt(i8),
    /// A `SMALLINT`.
    SmallInt(i16),
    /// An `INTEGER`.
    Integer(i32),
    /// A `BIGINT`.
    BigInt(i64),
    /// A `HUGEINT`.
    HugeInt(i128),
    /// A `UTINYINT`.
    UTinyInt(u8),
    /// A `USMALLINT`.
    USmallInt(u16),
    /// A `UINTEGER`.
    UInteger(u32),
    /// A `UBIGINT`.
    UBigInt(u64),
    /// A `UHUGEINT`.
    UHugeInt(u128),
    /// A `FLOAT`, by its IEEE-754 bits.
    Float(u32),
    /// A `DOUBLE`, by its IEEE-754 bits.
    Double(u64),
    /// A `VARCHAR`.
    Varchar(String),
    /// A `BLOB`.
    Blob(Vec<u8>),
    /// A `DATE`.
    Date(i32),
    /// A `TIME`.
    Time(i64),
    /// A `TIME WITH TIME ZONE`.
    TimeTz(u64),
    /// A microsecond timestamp.
    Timestamp(i64),
    /// A second timestamp.
    TimestampS(i64),
    /// A millisecond timestamp (also how a `TIMESTAMP WITH TIME ZONE` value is written).
    TimestampMs(i64),
    /// A nanosecond timestamp.
    TimestampNs(i64),
    /// A `UUID`.
    Uuid(u128),
    /// An `INTERVAL`.
    Interval(DuckInterval),
    /// A `DECIMAL`: the vector takes its width and unscaled value; the scale is the column's
    /// and rides along.
    Decimal {
        /// Total number of significant digits.
        width: u8,
        /// Number of digits after the decimal point.
        scale: u8,
        /// The unscaled integer.
        unscaled: i128,
    },
}

/// How a child vector hangs off its parent.
#[derive(Debug, Clone, Copy, PartialEq, Eq, Structural)]
pub enum ChildLink {
    /// The element vector of a `LIST`.
    ListElement,
    /// The vector of one `STRUCT` field.
    StructField(usize),
    /// The key vector of a `MAP`.
    MapKeys,
    /// The value vector of a `MAP`.
    MapValues,
}

/// One operation on the vectors of a data chunk.
#[derive(Debug)]
pub enum VectorOp {
    /// Take the vector of output column `column`; it is named `vector` (this operation's index).
    ColumnVector {
        /// The name of the vector taken.
        vector: usize,
        /// The output column.
        column: usize,
    },
    /// Take a child vector of `parent`; it is named `vector` (this operation's index).
    ChildVector {
        /// The name of the vector taken.
        vector: usize,
        /// The vector it hangs off.
        parent: usize,
        /// Which child it is.
        link: ChildLink,
    },
    /// Open the value writer of a vector.
    OpenWriter {
        /// The vector.
        vector: usize,
    },
    /// Reserve room for `total` elements in the child vector of a `LIST` / `MAP` vector.
    Reserve {
        /// The `LIST` / `MAP` vector.
        vector: usize,
        /// The number of elements.
        total: usize,
    },
    /// Set the list entry of `row` to `length` elements starting at `offset`.
    SetEntry {
        /// The `LIST` / `MAP` vector.
        vector: usize,
        /// The row.
        row: usize,
        /// The first element.
        offset: usize,
        /// The number of elements.
        length: usize,
    },
    /// Write a scalar at `row`.
    WriteScalar {
        /// The vector.
        vector: usize,
        /// The row.
        row: usize,
        /// What to write.
        value: ScalarWrite,
    },
    /// Mark `row` NULL.
    SetNull {
        /// The vector.
        vector: usize,
        /// The row.
        row: usize,
    },
    /// Mark `row` of a `LIST` / `MAP` vector NULL and give it an empty entry.
    NullEntry {
        /// The `LIST` / `MAP` vector.
        vector: usize,
        /// The row.
        row: usize,
    },
    /// Set the size of the child vector of a `LIST` / `MAP` vector to the elements written.
    FinishElements {
        /// The `LIST` / `MAP` vector.
        vector: usize,
        /// The number of elements written.
        size: usize,
    },
}

/// The message for a nested value written as a scalar.
pub open spec fn nested_scalar_message() -> Seq<char> {
    "dynamic table function: a nested value must be written through its column writer, not as a scalar"@
}

/// Whether a scalar write puts exactly a given scalar value into a vector. A
/// `TIMESTAMP WITH TIME ZONE` is written through the millisecond timestamp writer, and a `DECIMAL`
/// by its width and unscaled value.
pub open spec fn scalar_write_fits(w: ScalarWrite, v: ValueModel) -> bool {
    match (w, v) {
        (ScalarWrite::Boolean(a), ValueModel::Boolean(b)) => a == b,
        (ScalarWrite::TinyInt(a), ValueModel::TinyInt(b)) => a == b,
        (ScalarWrite::SmallInt(a), ValueModel::SmallInt(b)) => a == b,
        (ScalarWrite::Integer(a), ValueModel::Integer(b)) => a == b,
        (ScalarWrite::BigInt(a), ValueModel::BigInt(b)) => a == b,
        (ScalarWrite::HugeInt(a), ValueModel::HugeInt(b)) => a == b,
        (ScalarWrite::UTinyInt(a), ValueModel::UTinyInt(b)) => a == b,
        (ScalarWrite::USmallInt(a), ValueModel::USmallInt(b)) => a == b,
        (ScalarWrite::UInteger(a), ValueModel::UInteger(b)) => a == b,
        (ScalarWrite::UBigInt(a), ValueModel::UBigInt(b)) => a == b,
        (ScalarWrite::UHugeInt(a), ValueModel::UHugeInt(b)) => a == b,
        (ScalarWrite::Float(a), ValueModel::Float(b)) => a == b,
        (ScalarWrite::Double(a), ValueModel::Double(b)) => a == b,
        (ScalarWrite::Varchar(a), ValueModel::Varchar(b)) => a@ == b,
        (ScalarWrite::Blob(a), ValueModel::Blob(b)) => a@ == b,
        (ScalarWrite::Date(a), ValueModel::Date(b)) => a == b,
        (ScalarWrite::Time(a), ValueModel::Time(b)) => a == b,
        (ScalarWrite::TimeTz(a), ValueModel::TimeTz(b)) => a == b,
        (ScalarWrite::Timestamp(a), ValueModel::Timestamp(b)) => a == b,
        (ScalarWrite::TimestampMs(a), ValueModel::TimestampTz(b)) => a == b,
        (ScalarWrite::TimestampS(a), ValueModel::TimestampS(b)) => a == b,
        (ScalarWrite::TimestampMs(a), ValueModel::TimestampMs(b)) => a == b,
        (ScalarWrite::TimestampNs(a), ValueModel::TimestampNs(b)) => a == b,
        (ScalarWrite::Uuid(a), ValueModel::Uuid(b)) => a == b,
        (ScalarWrite::Interval(a), ValueModel::Interval(b)) => a == b,
        (ScalarWrite::Decimal { width, scale, unscaled }, ValueModel::Decimal { width: vw, scale: vs, unscaled: vu }) =>
            width == vw && scale == vs && unscaled == vu,
        _ => false,
    }
}

/// A copy of a byte string.
fn copy_bytes(bytes: &Vec<u8>) -> (r: Vec<u8>)
    ensures
        r@ == bytes@,
{
    let mut out: Vec<u8> = Vec::new();
    let mut i: usize = 0;
    while i < bytes.len()
        invariant
            0 <= i <= bytes@.len(),
            out@ == bytes@.take(i as int),
        decreases bytes@.len() - i,
    {
        out.push(bytes[i]);
        i = i + 1;
        assert(out@ =~= bytes@.take(i as int));
    }
    assert(bytes@.take(bytes@.len() as int) =~= bytes@);
    out
}

impl DuckDynamicValue {
    /// The physical write of a scalar value; a nested value is written through its column
    /// writer instead, and is an error here.
    pub fn scalar_write(&self) -> (r: DuckResult<ScalarWrite>)
        ensures
            r is Ok <==> !is_nested_value(self@),
            r matches Ok(w) ==> scalar_write_fits(w, self@),
            r matches Err(e) ==> e.spec_message() == nested_scalar_message(),
    {
        match self {
            DuckDynamicValue::Boolean(v) => Ok(ScalarWrite::Boolean(*v)),
            DuckDynamicValue::TinyInt(v) => Ok(ScalarWrite::TinyInt(*v)),
            DuckDynamicValue::SmallInt(v) => Ok(ScalarWrite::SmallInt(*v)),
            DuckDynamicValue::Integer(v) => Ok(ScalarWrite::Integer(*v)),
            DuckDynamicValue::BigInt(v) => Ok(ScalarWrite::BigInt(*v)),
            DuckDynamicValue::HugeInt(v) => Ok(ScalarWrite::HugeInt(*v)),
            DuckDynamicValue::UTinyInt(v) => Ok(ScalarWrite::UTinyInt(*v)),
            DuckDynamicValue::USmallInt(v) => Ok(ScalarWrite::USmallInt(*v)),
            DuckDynamicValue::UInteger(v) => Ok(ScalarWrite::UInteger(*v)),
            DuckDynamicValue::UBigInt(v) => Ok(ScalarWrite::UBigInt(*v)),
            DuckDynamicValue::UHugeInt(v) => Ok(ScalarWrite::UHugeInt(*v)),
            DuckDynamicValue::Float(v) => Ok(ScalarWrite::Float(*v)),
            DuckDynamicValue::Double(v) => Ok(ScalarWrite::Double(*v)),
            DuckDynamicValue::Varchar(v) => Ok(ScalarWrite::Varchar(v.clone())),
            DuckDynamicValue::Blob(v) => Ok(ScalarWrite::Blob(copy_bytes(v))),
            DuckDynamicValue::Date(v) => Ok(ScalarWrite::Date(*v)),
            DuckDynamicValue::Time(v) => Ok(ScalarWrite::Time(*v)),
            DuckDynamicValue::TimeTz(v) => Ok(ScalarWrite::TimeTz(*v)),
            DuckDynamicValue::Timestamp(v) => Ok(ScalarWrite::Timestamp(*v)),
            DuckDynamicValue::TimestampTz(v) => Ok(ScalarWrite::TimestampMs(*v)),
            DuckDynamicValue::TimestampS(v) => Ok(ScalarWrite::TimestampS(*v)),
            DuckDynamicValue::TimestampMs(v) => Ok(ScalarWrite::TimestampMs(*v)),
            DuckDynamicValue::TimestampNs(v) => Ok(ScalarWrite::TimestampNs(*v)),
            DuckDynamicValue::Uuid(v) => Ok(ScalarWrite::Uuid(*v)),
            DuckDynamicValue::Interval(v) => Ok(ScalarWrite::Interval(*v)),
            DuckDynamicValue::Decimal { width, scale, unscaled } => Ok(ScalarWrite::Decimal { width: *width, scale: *scale, unscaled: *unscaled }),
            DuckDynamicValue::List(_) | DuckDynamicValue::Struct(_) | DuckDynamicValue::MapOf(_) => Err(duck_error(
                "dynamic table function: a nested value must be written through its column writer, not as a scalar",
            )),
        }
    }
}

/// The kind of a column writer.
#[derive(Debug, Clone, Copy, PartialEq, Eq, Structural)]
pub enum WriterKind {
    /// A scalar or `DECIMAL` column.
    Leaf,
    /// A `LIST` column, with one child writer for the elements.
    List,
    /// A `STRUCT` column, with one child writer per field.
    Struct,
    /// A `MAP` column, with child writers for the keys and the values.
    MapOf,
}

/// The (possibly nested) writer of one column: it decides the operations that write a batch of
/// dynamic values into that column's vector.
#[derive(Debug)]
pub struct ColumnWriter {
    /// The vector this writer writes.
    pub vector: usize,
    /// The kind of column.
    pub kind: WriterKind,
    /// The child writers: one for a `LIST`, one per `STRUCT` field, key and value for a `MAP`.
    pub children: Vec<ColumnWriter>,
    /// The number of child elements already written for a `LIST` / `MAP` (the start of the next).
    pub offset: usize,
}

/// A writer mirrors a description: its kind and children follow the description, and every
/// vector it names is below `bound` (taken by an earlier operation).
pub open spec fn writer_ok(w: ColumnWriter, d: TypeDescModel, bound: nat) -> bool
    decreases d,
{
    &&& w.vector < bound
    &&& match d {
        TypeDescModel::Scalar(_) => w.kind == WriterKind::Leaf && w.children@.len() == 0,
        TypeDescModel::Decimal { .. } => w.kind == WriterKind::Leaf && w.children@.len() == 0,
        TypeDescModel::List(e) => {
            &&& w.kind == WriterKind::List
            &&& w.children@.len() == 1
            &&& writer_ok(w.children@[0], *e, bound)
        },
        TypeDescModel::Struct(fields) => {
            &&& w.kind == WriterKind::Struct
            &&& w.children@.len() == fields.len()
            &&& forall|i: int| 0 <= i < fields.len() ==> writer_ok(#[trigger] w.children@[i], fields[i].1, bound)
        },
        TypeDescModel::MapOf(k, v) => {
            &&& w.kind == WriterKind::MapOf
            &&& w.children@.len() == 2
            &&& writer_ok(w.children@[0], *k, bound)
            &&& writer_ok(w.children@[1], *v, bound)
        },
    }
}

/// A writer that fits a bound fits every larger one.
pub proof fn lemma_writer_ok_grows(w: ColumnWriter, d: TypeDescModel, b1: nat, b2: nat)
    requires
        writer_ok(w, d, b1),
        b1 <= b2,
    ensures
        writer_ok(w, d, b2),
    decreases d,
{
    match d {
        TypeDescModel::List(e) => {
            lemma_writer_ok_grows(w.children@[0], *e, b1, b2);
        },
        TypeDescModel::Struct(fields) => {
            assert forall|i: int| 0 <= i < fields.len() implies writer_ok(#[trigger] w.children@[i], fields[i].1, b2) by {
                assert(decreases_to!(fields => fields[i]));
                lemma_writer_ok_grows(w.children@[i], fields[i].1, b1, b2);
            }
        },
        TypeDescModel::MapOf(k, v) => {
            lemma_writer_ok_grows(w.children@[0], *k, b1, b2);
            lemma_writer_ok_grows(w.children@[1], *v, b1, b2);
        },
        _ => {},
    }
}

/// The model of a list of optional value references.
pub open spec fn refs_model(values: Seq<Option<&DuckDynamicValue>>) -> Seq<Option<ValueModel>> {
    Seq::new(values.len(), |i: int| match values[i] {
        Some(r) => Some(value_model(*r)),
        None => None,
    })
}

/// Which children of the values of a column go to a child writer.
#[derive(Debug, Clone, Copy, PartialEq, Eq, Structural)]
pub enum ChildValues {
    /// The elements of `LIST` values.
    ListItems,
    /// The keys of `MAP` values.
    MapKeys,
    /// The values of `MAP` values.
    MapValues,
}

/// The children of one optional value that go to a child writer.
pub open spec fn children_of(o: Option<ValueModel>, x: ChildValues) -> Seq<Option<ValueModel>> {
    match (o, x) {
        (Some(ValueModel::List(items)), ChildValues::ListItems) => items,
        (Some(ValueModel::MapOf(pairs)), ChildValues::MapKeys) => Seq::new(pairs.len(), |j: int| Some(pairs[j].0)),
        (Some(ValueModel::MapOf(pairs)), ChildValues::MapValues) => Seq::new(pairs.len(), |j: int| Some(pairs[j].1)),
        _ => Seq::empty(),
    }
}

/// The children of a list of optional values, in order: what the child writer receives.
pub open spec fn flat_children(values: Seq<Option<ValueModel>>, x: ChildValues) -> Seq<Option<ValueModel>>
    decreases values.len(),
{
    if values.len() == 0 {
        Seq::empty()
    } else {
        flat_children(values.drop_last(), x) + children_of(values.last(), x)
    }
}

/// The number of `LIST` elements among a list of optional values.
pub open spec fn list_elements_total(values: Seq<Option<ValueModel>>) -> nat {
    flat_children(values, ChildValues::ListItems).len()
}

/// The number of `MAP` entries among a list of optional values.
pub open spec fn map_entries_total(values: Seq<Option<ValueModel>>) -> nat {
    flat_children(values, ChildValues::MapKeys).len()
}

/// The values of `STRUCT` field `field` across a batch: the field of each `STRUCT` value, and
/// nothing for NULL, a missing field or any other value.
pub open spec fn struct_field_values(values: Seq<Option<ValueModel>>, field: int) -> Seq<Option<ValueModel>> {
    Seq::new(values.len(), |i: int| match values[i] {
        Some(ValueModel::Struct(items)) => if 0 <= field < items.len() { items[field] } else { None },
        _ => None,
    })
}

/// Taking one more value appends its children.
pub proof fn lemma_flat_step(values: Seq<Option<ValueModel>>, k: int, x: ChildValues)
    requires
        0 <= k < values.len(),
    ensures
        flat_children(values.take(k + 1), x) == flat_children(values.take(k), x) + children_of(values[k], x),
{
    assert(values.take(k + 1).drop_last() =~= values.take(k));
}

/// The children of the first `m` values are a prefix of the children of all of them.
pub proof fn lemma_flat_prefix(values: Seq<Option<ValueModel>>, m: int, x: ChildValues)
    requires
        0 <= m <= values.len(),
    ensures
        flat_children(values.take(m), x).len() <= flat_children(values, x).len(),
        flat_children(values, x).take(flat_children(values.take(m), x).len() as int) == flat_children(values.take(m), x),
    decreases values.len() - m,
{
    if m == values.len() {
        assert(values.take(m) =~= values);
        assert(flat_children(values, x).take(flat_children(values, x).len() as int) =~= flat_children(values, x));
    } else {
        lemma_flat_prefix(values, m + 1, x);
        lemma_flat_step(values, m, x);
        let a = flat_children(values.take(m), x);
        let b = flat_children(values.take(m + 1), x);
        let all = flat_children(values, x);
        assert(all.take(a.len() as int) =~= b.take(a.len() as int));
        assert(b.take(a.len() as int) =~= a);
    }
}

/// A `MAP` has as many values as keys, so the key and value children have equal counts.
pub proof fn lemma_map_children_len(values: Seq<Option<ValueModel>>)
    ensures
        flat_children(values, ChildValues::MapValues).len() == flat_children(values, ChildValues::MapKeys).len(),
    decreases values.len(),
{
    if values.len() > 0 {
        lemma_map_children_len(values.drop_last());
    }
}

/// The offsets of a writer after it has handled the first `k` of the values of its column:
/// a `LIST` / `MAP` writer is past the elements / entries of those values, and each child writer
/// has handled exactly the children of those values (every `LIST` / `MAP` child writer fitting
/// all of its column's elements in a `usize`).
pub open spec fn writer_state(w: ColumnWriter, d: TypeDescModel, values: Seq<Option<ValueModel>>, k: int) -> bool
    decreases d,
{
    &&& 0 <= k <= values.len()
    &&& match d {
        TypeDescModel::Scalar(_) => w.offset == 0,
        TypeDescModel::Decimal { .. } => w.offset == 0,
        TypeDescModel::List(e) => {
            &&& w.offset == list_elements_total(values.take(k))
            &&& list_elements_total(values) <= usize::MAX
            &&& w.children@.len() == 1
            &&& writer_state(w.children@[0], *e, flat_children(values, ChildValues::ListItems), w.offset as int)
        },
        TypeDescModel::Struct(fields) => {
            &&& w.offset == 0
            &&& w.children@.len() == fields.len()
            &&& forall|i: int| 0 <= i < fields.len()
                ==> writer_state(#[trigger] w.children@[i], fields[i].1, struct_field_values(values, i), k)
        },
        TypeDescModel::MapOf(kd, vd) => {
            &&& w.offset == map_entries_total(values.take(k))
            &&& map_entries_total(values) <= usize::MAX
            &&& w.children@.len() == 2
            &&& writer_state(w.children@[0], *kd, flat_children(values, ChildValues::MapKeys), w.offset as int)
            &&& writer_state(w.children@[1], *vd, flat_children(values, ChildValues::MapValues), w.offset as int)
        },
    }
}

/// Whether the operations `ops` start with `prefix`.
pub open spec fn ops_extend(prefix: Seq<VectorOp>, ops: Seq<VectorOp>) -> bool {
    prefix.len() <= ops.len() && ops.subrange(0, prefix.len() as int) == prefix
}

/// Extending is transitive.
pub proof fn lemma_ops_extend_trans(a: Seq<VectorOp>, b: Seq<VectorOp>, c: Seq<VectorOp>)
    requires
        ops_extend(a, b),
        ops_extend(b, c),
    ensures
        ops_extend(a, c),
{
    assert(c.subrange(0, a.len() as int) =~= c.subrange(0, b.len() as int).subrange(0, a.len() as int));
}

/// A sequence extends itself, and extends with one more operation.
pub proof fn lemma_ops_extend_push(a: Seq<VectorOp>, op: VectorOp)
    ensures
        ops_extend(a, a),
        ops_extend(a, a.push(op)),
{
    assert(a.subrange(0, a.len() as int) =~= a);
    assert(a.push(op).subrange(0, a.len() as int) =~= a);
}

/// A writer that has handled all the values of its column has written every element it reserved
/// room for: a `LIST` / `MAP` writer's offset is the number of elements / entries of the values.
pub proof fn lemma_finished_writer(w: ColumnWriter, d: TypeDescModel, values: Seq<Option<ValueModel>>)
    requires
        writer_state(w, d, values, values.len() as int),
    ensures
        d is List ==> w.offset == list_elements_total(values),
        d is MapOf ==> w.offset == map_entries_total(values),
{
    assert(values.take(values.len() as int) =~= values);
}

/// Extracts the values of `STRUCT` field `field_index` across a batch.
pub fn column_struct_values<'a>(values: &[Option<&'a DuckDynamicValue>], field_index: usize) -> (r: Vec<Option<&'a DuckDynamicValue>>)
    ensures
        refs_model(r@) == struct_field_values(refs_model(values@), field_index as int),
{
    let ghost vals_m = refs_model(values@);
    let mut out: Vec<Option<&'a DuckDynamicValue>> = Vec::new();
    let mut i: usize = 0;
    while i < values.len()
        invariant
            0 <= i <= values@.len(),
            vals_m == refs_model(values@),
            out@.len() == i,
            forall|j: int| 0 <= j < i ==> #[trigger] refs_model(out@)[j] == struct_field_values(vals_m, field_index as int)[j],
        decreases values@.len() - i,
    {
        let picked: Option<&'a DuckDynamicValue> = match values[i] {
            Some(v) => match v {
                DuckDynamicValue::Struct(fields) => {
                    assert(vals_m[i as int] == Some(value_model(*v)));
                    if field_index < fields.len() {
                        assert(value_model(*v)->Struct_0[field_index as int] == option_model(fields@[field_index as int]));
                        fields[field_index].as_ref()
                    } else {
                        None
                    }
                },
                _ => None,
            },
            None => None,
        };
        let ghost old_out = out@;
        out.push(picked);
        proof {
            assert forall|j: int| 0 <= j < i + 1 implies #[trigger] refs_model(out@)[j] == struct_field_values(vals_m, field_index as int)[j] by {
                if j < i {
                    assert(out@[j] == old_out[j]);
                    assert(refs_model(old_out)[j] == struct_field_values(vals_m, field_index as int)[j]);
                }
            }
        }
        i = i + 1;
    }
    assert(refs_model(out@) =~= struct_field_values(vals_m, field_index as int));
    out
}

/// Collects the children of a batch of values that go to one child writer, in order.
fn collect_children<'a>(values: &[Option<&'a DuckDynamicValue>], xv: ChildValues) -> (r: Vec<Option<&'a DuckDynamicValue>>)
    ensures
        refs_model(r@) == flat_children(refs_model(values@), xv),
{
    let ghost vals_m = refs_model(values@);
    let mut out: Vec<Option<&'a DuckDynamicValue>> = Vec::new();
    let mut i: usize = 0;
    assert(vals_m.take(0) =~= Seq::<Option<ValueModel>>::empty());
    assert(refs_model(out@) =~= flat_children(vals_m.take(0), xv));
    while i < values.len()
        invariant
            0 <= i <= values@.len(),
            vals_m == refs_model(values@),
            refs_model(out@) == flat_children(vals_m.take(i as int), xv),
        decreases values@.len() - i,
    {
        proof {
            lemma_flat_step(vals_m, i as int, xv);
        }
        let ghost before = out@;
        let ghost kids = children_of(vals_m[i as int], xv);
        match values[i] {
            Some(v) => {
                assert(vals_m[i as int] == Some(value_model(*v)));
                match v {
                    DuckDynamicValue::List(items) => {
                        if xv == ChildValues::ListItems {
                            let ghost items_m = value_model(*v)->List_0;
                            assert(kids == items_m);
                            let mut k: usize = 0;
                            while k < items.len()
                                invariant
                                    0 <= k <= items@.len(),
                                    items_m == value_model(*v)->List_0,
                                    *v == DuckDynamicValue::List(*items),
                                    items_m.len() == items@.len(),
                                    refs_model(out@) == refs_model(before) + items_m.take(k as int),
                                decreases items@.len() - k,
                            {
                                assert(items_m[k as int] == option_model(items@[k as int]));
                                let ghost prev = out@;
                                out.push(items[k].as_ref());
                                assert(refs_model(out@) =~= refs_model(prev).push(items_m[k as int]));
                                assert(items_m.take(k as int + 1) =~= items_m.take(k as int).push(items_m[k as int]));
                                k = k + 1;
                            }
                            assert(items_m.take(items_m.len() as int) =~= items_m);
                        } else {
                            assert(kids =~= Seq::<Option<ValueModel>>::empty());
                            assert(refs_model(out@) =~= refs_model(before) + kids);
                        }
                    },
                    DuckDynamicValue::MapOf(pairs) => {
                        if xv != ChildValues::ListItems {
                            let ghost pairs_m = value_model(*v)->MapOf_0;
                            assert(kids.len() == pairs_m.len());
                            let mut k: usize = 0;
                            while k < pairs.len()
                                invariant
                                    0 <= k <= pairs@.len(),
                                    pairs_m == value_model(*v)->MapOf_0,
                                    *v == DuckDynamicValue::MapOf(*pairs),
                                    pairs_m.len() == pairs@.len(),
                                    kids == children_of(vals_m[i as int], xv),
                                    vals_m[i as int] == Some(value_model(*v)),
                                    xv != ChildValues::ListItems,
                                    refs_model(out@) == refs_model(before) + kids.take(k as int),
                                decreases pairs@.len() - k,
                            {
                                assert(pairs_m[k as int] == (value_model(pairs@[k as int].0), value_model(pairs@[k as int].1)));
                                let ghost prev = out@;
                                if xv == ChildValues::MapKeys {
                                    out.push(Some(&pairs[k].0));
                                } else {
                                    out.push(Some(&pairs[k].1));
                                }
                                assert(refs_model(out@) =~= refs_model(prev).push(kids[k as int]));
                                assert(kids.take(k as int + 1) =~= kids.take(k as int).push(kids[k as int]));
                                k = k + 1;
                            }
                            assert(kids.take(kids.len() as int) =~= kids);
                        } else {
                            assert(kids =~= Seq::<Option<ValueModel>>::empty());
                            assert(refs_model(out@) =~= refs_model(before) + kids);
                        }
                    },
                    _ => {
                        assert(kids =~= Seq::<Option<ValueModel>>::empty());
                        assert(refs_model(out@) =~= refs_model(before) + kids);
                    },
                }
            },
            None => {
                assert(kids =~= Seq::<Option<ValueModel>>::empty());
                assert(refs_model(out@) =~= refs_model(before) + kids);
            },
        }
        i = i + 1;
    }
    assert(vals_m.take(values@.len() as int) =~= vals_m);
    out
}

impl ColumnWriter {
    /// Builds the writer tree of a column from its description and the whole batch of its values,
    /// deciding the operations that take the child vectors, reserve room for the `LIST` / `MAP`
    /// elements of the batch and open the writers.
    ///
    /// The writer of the vector `vector` (at path `p`) is built, ready for the first of the
    /// values; for a `LIST` / `MAP` the first operation reserves one element per `LIST` element /
    /// `MAP` entry among the values. No operation decided here writes data.
    pub fn prepare(vector: usize, desc: &DuckTypeDesc, values: &[Option<&DuckDynamicValue>], ops: &mut Vec<VectorOp>, Ghost(p): Ghost<VectorPath>) -> (w: ColumnWriter)
        requires
            vector < old(ops)@.len(),
            path_of(old(ops)@, vector as int) == p,
            forall|i: int| 0 <= i < old(ops)@.len() ==> !is_data_op(#[trigger] old(ops)@[i]),
        ensures
            writer_ok(w, desc@, final(ops)@.len() as nat),
            writer_state(w, desc@, refs_model(values@), 0),
            content(final(ops)@, w, desc@, refs_model(values@), 0, p),
            forall|i: int| 0 <= i < final(ops)@.len() ==> !is_data_op(#[trigger] final(ops)@[i]),
            w.vector == vector,
            ops_extend(old(ops)@, final(ops)@),
            desc@ is List ==> final(ops)@[old(ops)@.len() as int] == (VectorOp::Reserve {
                vector,
                total: list_elements_total(refs_model(values@)) as usize,
            }),
            desc@ is MapOf ==> final(ops)@[old(ops)@.len() as int] == (VectorOp::Reserve {
                vector,
                total: map_entries_total(refs_model(values@)) as usize,
            }),
        decreases desc,
    {
        let ghost start = ops@;
        let ghost vals_m = refs_model(values@);
        assert(vals_m.take(0) =~= Seq::<Option<ValueModel>>::empty());
        match desc {
            DuckTypeDesc::Scalar(_) | DuckTypeDesc::Decimal { .. } => {
                ops.push(VectorOp::OpenWriter { vector });
                proof {
                    lemma_ops_extend_push(start, VectorOp::OpenWriter { vector });
                    lemma_path_prefix(start, ops@, vector as int);
                    lemma_no_data_no_touch(ops@);
                }
                ColumnWriter { vector, kind: WriterKind::Leaf, children: Vec::new(), offset: 0 }
            },
            DuckTypeDesc::List(element) => {
                let child_values = collect_children(values, ChildValues::ListItems);
                let total = child_values.len();
                ops.push(VectorOp::Reserve { vector, total });
                let child_vector = ops.len();
                ops.push(VectorOp::ChildVector { vector: child_vector, parent: vector, link: ChildLink::ListElement });
                let ghost mid = ops@;
                let ghost cp = child_path(p, ChildLink::ListElement);
                proof {
                    assert(mid.subrange(0, start.len() as int) =~= start);
                    lemma_path_prefix(start, mid, vector as int);
                    assert(path_of(mid, child_vector as int) == cp);
                }
                let child = ColumnWriter::prepare(child_vector, element, child_values.as_slice(), ops, Ghost(cp));
                let ghost mid2 = ops@;
                ops.push(VectorOp::OpenWriter { vector });
                let w = ColumnWriter { vector, kind: WriterKind::List, children: vec![child], offset: 0 };
                proof {
                    assert(desc@ == TypeDescModel::List(Box::new(element@)));
                    lemma_writer_ok_grows(child, element@, mid2.len() as nat, ops@.len() as nat);
                    lemma_ops_extend_trans(start, mid, mid2);
                    lemma_ops_extend_push(mid2, VectorOp::OpenWriter { vector });
                    lemma_ops_extend_trans(start, mid2, ops@);
                    assert(ops@[start.len() as int] == mid[start.len() as int]);
                    assert(w.children@[0] == child);
                    lemma_path_prefix(start, ops@, vector as int);
                    lemma_no_data_no_touch(ops@);
                    lemma_content_frame(mid2, ops@, child, element@, refs_model(child_values@), 0, cp);
                }
                w
            },
            DuckTypeDesc::Struct(fields) => {
                let ghost fields_m = desc@->Struct_0;
                let mut children: Vec<ColumnWriter> = Vec::new();
                let mut index: usize = 0;
                proof {
                    lemma_ops_extend_push(start, VectorOp::OpenWriter { vector });
                }
                while index < fields.len()
                    invariant
                        0 <= index <= fields@.len(),
                        fields_m == desc@->Struct_0,
                        fields_m.len() == fields@.len(),
                        *desc == DuckTypeDesc::Struct(*fields),
                        vals_m == refs_model(values@),
                        vector < start.len(),
                        ops_extend(start, ops@),
                        path_of(ops@, vector as int) == p,
                        forall|i: int| 0 <= i < ops@.len() ==> !is_data_op(#[trigger] ops@[i]),
                        children@.len() == index,
                        forall|j: int| 0 <= j < index ==> writer_ok(#[trigger] children@[j], fields_m[j].1, ops@.len() as nat)
                            && writer_state(children@[j], fields_m[j].1, struct_field_values(vals_m, j), 0)
                            && content(ops@, children@[j], fields_m[j].1, struct_field_values(vals_m, j), 0, field_path(p, j)),
                    decreases fields@.len() - index,
                {
                    assert(fields_m[index as int] == (fields@[index as int].0@, desc_model(fields@[index as int].1)));
                    proof {
                        assert(decreases_to!(fields@ => fields@[index as int]));
                    }
                    let ghost before = ops@;
                    let child_vector = ops.len();
                    ops.push(VectorOp::ChildVector { vector: child_vector, parent: vector, link: ChildLink::StructField(index) });
                    let ghost mid = ops@;
                    proof {
                        lemma_ops_extend_push(before, VectorOp::ChildVector { vector: child_vector, parent: vector, link: ChildLink::StructField(index) });
                        lemma_path_prefix(before, mid, vector as int);
                        assert(path_of(mid, child_vector as int) == field_path(p, index as int));
                    }
                    let child_values = column_struct_values(values, index);
                    let child = ColumnWriter::prepare(child_vector, &fields[index].1, child_values.as_slice(), ops, Ghost(field_path(p, index as int)));
                    proof {
                        lemma_ops_extend_trans(start, before, mid);
                        lemma_ops_extend_trans(start, mid, ops@);
                        lemma_ops_extend_trans(before, mid, ops@);
                        lemma_path_prefix(before, ops@, vector as int);
                        lemma_no_data_no_touch(ops@);
                        assert forall|j: int| 0 <= j < index implies writer_ok(#[trigger] children@[j], fields_m[j].1, ops@.len() as nat)
                            && content(ops@, children@[j], fields_m[j].1, struct_field_values(vals_m, j), 0, field_path(p, j)) by {
                            lemma_writer_ok_grows(children@[j], fields_m[j].1, before.len() as nat, ops@.len() as nat);
                            lemma_content_frame(before, ops@, children@[j], fields_m[j].1, struct_field_values(vals_m, j), 0, field_path(p, j));
                        }
                    }
                    children.push(child);
                    index = index + 1;
                }
                let ghost before = ops@;
                ops.push(VectorOp::OpenWriter { vector });
                let w = ColumnWriter { vector, kind: WriterKind::Struct, children, offset: 0 };
                proof {
                    lemma_ops_extend_push(before, VectorOp::OpenWriter { vector });
                    lemma_ops_extend_trans(start, before, ops@);
                    lemma_path_prefix(before, ops@, vector as int);
                    lemma_no_data_no_touch(ops@);
                    assert forall|j: int| 0 <= j < fields_m.len() implies writer_ok(#[trigger] w.children@[j], fields_m[j].1, ops@.len() as nat) by {
                        lemma_writer_ok_grows(w.children@[j], fields_m[j].1, before.len() as nat, ops@.len() as nat);
                    }
                    assert forall|j: int| 0 <= j < fields_m.len() implies writer_state(#[trigger] w.children@[j], fields_m[j].1, struct_field_values(vals_m, j), 0) by {
                    }
                    assert forall|j: int| 0 <= j < fields_m.len() implies content(ops@, #[trigger] w.children@[j], fields_m[j].1, struct_field_values(vals_m, j), 0, field_path(p, j)) by {
                        lemma_content_frame(before, ops@, w.children@[j], fields_m[j].1, struct_field_values(vals_m, j), 0, field_path(p, j));
                    }
                }
                w
            },
            DuckTypeDesc::MapOf(key_desc, value_desc) => {
                let key_values = collect_children(values, ChildValues::MapKeys);
                let entry_values = collect_children(values, ChildValues::MapValues);
                proof {
                    lemma_map_children_len(vals_m);
                }
                let total = key_values.len();
                ops.push(VectorOp::Reserve { vector, total });
                let keys_vector = ops.len();
                ops.push(VectorOp::ChildVector { vector: keys_vector, parent: vector, link: ChildLink::MapKeys });
                let values_vector = ops.len();
                ops.push(VectorOp::ChildVector { vector: values_vector, parent: vector, link: ChildLink::MapValues });
                let ghost mid = ops@;
                let ghost kp = child_path(p, ChildLink::MapKeys);
                let ghost vp = child_path(p, ChildLink::MapValues);
                proof {
                    assert(mid.subrange(0, start.len() as int) =~= start);
                    lemma_path_prefix(start, mid, vector as int);
                    assert(path_of(mid, keys_vector as int) == kp);
                    assert(path_of(mid, values_vector as int) == vp);
                }
                let key_writer = ColumnWriter::prepare(keys_vector, key_desc, key_values.as_slice(), ops, Ghost(kp));
                let ghost mid2 = ops@;
                proof {
                    lemma_path_prefix(mid, mid2, values_vector as int);
                }
                let value_writer = ColumnWriter::prepare(values_vector, value_desc, entry_values.as_slice(), ops, Ghost(vp));
                let ghost mid3 = ops@;
                ops.push(VectorOp::OpenWriter { vector });
                let w = ColumnWriter { vector, kind: WriterKind::MapOf, children: vec![key_writer, value_writer], offset: 0 };
                proof {
                    assert(desc@ == TypeDescModel::MapOf(Box::new(key_desc@), Box::new(value_desc@)));
                    lemma_writer_ok_grows(key_writer, key_desc@, mid2.len() as nat, ops@.len() as nat);
                    lemma_writer_ok_grows(value_writer, value_desc@, mid3.len() as nat, ops@.len() as nat);
                    lemma_ops_extend_trans(start, mid, mid2);
                    lemma_ops_extend_trans(start, mid2, mid3);
                    lemma_ops_extend_push(mid3, VectorOp::OpenWriter { vector });
                    lemma_ops_extend_trans(start, mid3, ops@);
                    lemma_ops_extend_trans(mid2, mid3, ops@);
                    assert(ops@[start.len() as int] == mid[start.len() as int]);
                    assert(w.children@[0] == key_writer);
                    assert(w.children@[1] == value_writer);
                    lemma_path_prefix(start, ops@, vector as int);
                    lemma_no_data_no_touch(ops@);
                    lemma_content_frame(mid2, ops@, key_writer, key_desc@, refs_model(key_values@), 0, kp);
                    lemma_content_frame(mid3, ops@, value_writer, value_desc@, refs_model(entry_values@), 0, vp);
                }
                w
            },
        }
    }
}

/// A writer is unchanged but for its offsets and those of its descendants: same vector, same
/// kind, same number of children.
pub open spec fn same_frame(a: ColumnWriter, b: ColumnWriter) -> bool {
    a.vector == b.vector && a.kind == b.kind && a.children@.len() == b.children@.len()
}

impl ColumnWriter {
    /// Decides the operations that write one NULL at `row`, the next of the values of the
    /// column: a scalar / `DECIMAL` vector marks the row NULL; a `STRUCT` marks it NULL and so do
    /// all its fields (a field is read without looking at its parent); a `LIST` / `MAP` marks it
    /// NULL and gives it an empty entry.
    pub fn write_null(
        &self,
        row: usize,
        ops: &mut Vec<VectorOp>,
        Ghost(d): Ghost<TypeDescModel>,
        Ghost(values): Ghost<Seq<Option<ValueModel>>>,
        Ghost(k): Ghost<int>,
        Ghost(p): Ghost<VectorPath>,
    )
        requires
            writer_ok(*self, d, old(ops)@.len() as nat),
            writer_state(*self, d, values, k),
            content(old(ops)@, *self, d, values, k, p),
            row == k,
            k < values.len(),
            values[k] is None,
        ensures
            writer_ok(*self, d, final(ops)@.len() as nat),
            writer_state(*self, d, values, k + 1),
            content(final(ops)@, *self, d, values, k + 1, p),
            forall|i: int, q: VectorPath, r: int| old(ops)@.len() <= i < final(ops)@.len() && #[trigger] touches(final(ops)@, i, q, r)
                ==> allowed(d, values, k, p, q, r),
            ops_extend(old(ops)@, final(ops)@),
            final(ops)@.len() > old(ops)@.len(),
            self.kind == WriterKind::Leaf ==> final(ops)@ == old(ops)@.push(VectorOp::SetNull { vector: self.vector, row }),
            self.kind == WriterKind::List || self.kind == WriterKind::MapOf
                ==> final(ops)@ == old(ops)@.push(VectorOp::NullEntry { vector: self.vector, row }),
            self.kind == WriterKind::Struct ==> final(ops)@[old(ops)@.len() as int] == (VectorOp::SetNull { vector: self.vector, row }),
        decreases self,
    {
        let ghost start = ops@;
        proof {
            lemma_flat_step(values, k, ChildValues::ListItems);
            lemma_flat_step(values, k, ChildValues::MapKeys);
        }
        match self.kind {
            WriterKind::Leaf => {
                ops.push(VectorOp::SetNull { vector: self.vector, row });
                proof {
                    lemma_single_op_step(start, *self, d, values, k, p, VectorOp::SetNull { vector: self.vector, row });
                }
            },
            WriterKind::Struct => {
                let ghost null_op = VectorOp::SetNull { vector: self.vector, row };
                ops.push(VectorOp::SetNull { vector: self.vector, row });
                let ghost a1 = ops@;
                let ghost fields = d->Struct_0;
                let mut index: usize = 0;
                proof {
                    assert forall|j: int| 0 <= j < fields.len() implies writer_ok(#[trigger] self.children@[j], fields[j].1, ops@.len() as nat) by {
                        lemma_writer_ok_grows(self.children@[j], fields[j].1, start.len() as nat, ops@.len() as nat);
                    }
                    lemma_ops_extend_push(start, null_op);
                    lemma_ops_extend_push(a1, null_op);
                    lemma_own_row_op(start, *self, d, values, k, p, null_op);
                    lemma_last_write(start, null_op, p, k);
                }
                while index < self.children.len()
                    invariant
                        0 <= index <= self.children@.len(),
                        d == TypeDescModel::Struct(fields),
                        fields.len() <= usize::MAX,
                        self.kind == WriterKind::Struct,
                        self.children@.len() == fields.len(),
                        writer_state(*self, d, values, k),
                        0 <= k < values.len(),
                        row == k,
                        values[k] is None,
                        forall|j: int| 0 <= j < fields.len() ==> writer_ok(#[trigger] self.children@[j], fields[j].1, ops@.len() as nat),
                        forall|j: int| 0 <= j < index ==> writer_state(#[trigger] self.children@[j], fields[j].1, struct_field_values(values, j), k + 1),
                        forall|j: int| 0 <= j < index ==> content(ops@, #[trigger] self.children@[j], fields[j].1, struct_field_values(values, j), k + 1, field_path(p, j)),
                        forall|j: int| index <= j < fields.len() ==> content(ops@, #[trigger] self.children@[j], fields[j].1, struct_field_values(values, j), k, field_path(p, j)),
                        forall|i: int, q: VectorPath, r: int| a1.len() <= i < ops@.len() && #[trigger] touches(ops@, i, q, r)
                            ==> child_allowed(d, values, k, p, q, r),
                        a1 == start.push(null_op),
                        ops_extend(a1, ops@),
                        ops_extend(start, ops@),
                        ops@.len() > start.len(),
                        ops@[start.len() as int] == null_op,
                    decreases self.children@.len() - index,
                {
                    proof {
                        assert(decreases_to!(self.children@ => self.children@[index as int]));
                        assert(writer_state(self.children@[index as int], fields[index as int].1, struct_field_values(values, index as int), k));
                        assert(struct_field_values(values, index as int)[k] is None);
                    }
                    let ghost before = ops@;
                    self.children[index].write_null(row, ops, Ghost(fields[index as int].1), Ghost(struct_field_values(values, index as int)), Ghost(k), Ghost(field_path(p, index as int)));
                    proof {
                        let fi = index as int;
                        assert forall|j: int| 0 <= j < fields.len() implies writer_ok(#[trigger] self.children@[j], fields[j].1, ops@.len() as nat) by {
                            lemma_writer_ok_grows(self.children@[j], fields[j].1, before.len() as nat, ops@.len() as nat);
                        }
                        assert forall|j: int| 0 <= j < fields.len() && j != fi implies
                            content(ops@, #[trigger] self.children@[j], fields[j].1, struct_field_values(values, j), if j < fi { k + 1 } else { k }, field_path(p, j)) by {
                            assert forall|i: int, q: VectorPath, r: int| before.len() <= i < ops@.len() && #[trigger] touches(ops@, i, q, r)
                                implies !in_subtree(q, field_path(p, j)) by {
                                assert(allowed(fields[fi].1, struct_field_values(values, fi), k, field_path(p, fi), q, r));
                                lemma_sibling_subtrees(q, p, ChildLink::StructField(fi as usize), ChildLink::StructField(j as usize));
                            }
                            lemma_content_frame(before, ops@, self.children@[j], fields[j].1, struct_field_values(values, j),
                                if j < fi { k + 1 } else { k }, field_path(p, j));
                        }
                        assert forall|i: int, q: VectorPath, r: int| a1.len() <= i < ops@.len() && #[trigger] touches(ops@, i, q, r)
                            implies child_allowed(d, values, k, p, q, r) by {
                            if i < before.len() {
                                lemma_op_prefix(before, ops@, i, q, r);
                                assert(touches(before, i, q, r));
                            } else {
                                assert(allowed(fields[fi].1, struct_field_values(values, fi), k, field_path(p, fi), q, r));
                            }
                        }
                        lemma_ops_extend_trans(start, before, ops@);
                        lemma_ops_extend_trans(a1, before, ops@);
                        assert(ops@[start.len() as int] == before[start.len() as int]);
                    }
                    index = index + 1;
                }
                proof {
                    let b = ops@;
                    assert forall|j: int| 0 <= j < fields.len() implies writer_state(#[trigger] self.children@[j], fields[j].1, struct_field_values(values, j), k + 1) by {}
                    lemma_children_only(a1, b, d, values, k, p, k);
                    assert(children_content(b, *self, d, values, k + 1, p));
                    assert(read_back(b, p, d, k) == values[k]);
                    assert forall|i: int, q: VectorPath, r: int| start.len() <= i < b.len() && #[trigger] touches(b, i, q, r)
                        implies (q == p && r == k) || child_allowed(d, values, k, p, q, r) by {
                        if i == start.len() {
                            lemma_op_prefix(a1, b, i, q, r);
                            assert(touches(a1, i, q, r));
                        }
                    }
                    lemma_content_advance(start, b, *self, *self, d, values, k, p);
                }
            },
            WriterKind::List | WriterKind::MapOf => {
                ops.push(VectorOp::NullEntry { vector: self.vector, row });
                proof {
                    lemma_single_op_step(start, *self, d, values, k, p, VectorOp::NullEntry { vector: self.vector, row });
                }
            },
        }
        proof {
            lemma_writer_ok_grows(*self, d, start.len() as nat, ops@.len() as nat);
            assert(ops@.subrange(0, start.len() as int) =~= start);
        }
    }

    /// Decides the operations that finish the column once all its values are written: a
    /// `LIST` / `MAP` sets the size of its child vector to the number of elements written (after
    /// its children have finished), which is the number it reserved room for.
    pub fn finish(&self, ops: &mut Vec<VectorOp>, Ghost(d): Ghost<TypeDescModel>, Ghost(values): Ghost<Seq<Option<ValueModel>>>)
        requires
            writer_ok(*self, d, old(ops)@.len() as nat),
            writer_state(*self, d, values, values.len() as int),
        ensures
            writer_ok(*self, d, final(ops)@.len() as nat),
            ops_extend(old(ops)@, final(ops)@),
            forall|i: int| old(ops)@.len() <= i < final(ops)@.len() ==> !is_data_op(#[trigger] final(ops)@[i]),
            self.kind == WriterKind::Leaf ==> final(ops)@ == old(ops)@,
            d is List ==> final(ops)@.last() == (VectorOp::FinishElements {
                vector: self.vector,
                size: list_elements_total(values) as usize,
            }),
            d is MapOf ==> final(ops)@.last() == (VectorOp::FinishElements {
                vector: self.vector,
                size: map_entries_total(values) as usize,
            }),
        decreases self,
    {
        let ghost start = ops@;
        proof {
            lemma_ops_extend_push(start, VectorOp::OpenWriter { vector: 0 });
            lemma_finished_writer(*self, d, values);
        }
        match self.kind {
            WriterKind::Leaf => {},
            WriterKind::Struct => {
                let ghost fields = d->Struct_0;
                let mut index: usize = 0;
                while index < self.children.len()
                    invariant
                        0 <= index <= self.children@.len(),
                        d == TypeDescModel::Struct(fields),
                        self.kind == WriterKind::Struct,
                        self.children@.len() == fields.len(),
                        writer_state(*self, d, values, values.len() as int),
                        forall|j: int| 0 <= j < fields.len() ==> writer_ok(#[trigger] self.children@[j], fields[j].1, ops@.len() as nat),
                        ops_extend(start, ops@),
                        forall|i: int| start.len() <= i < ops@.len() ==> !is_data_op(#[trigger] ops@[i]),
                    decreases self.children@.len() - index,
                {
                    proof {
                        assert(decreases_to!(self.children@ => self.children@[index as int]));
                        assert(writer_state(self.children@[index as int], fields[index as int].1, struct_field_values(values, index as int), values.len() as int));
                    }
                    let ghost before = ops@;
                    self.children[index].finish(ops, Ghost(fields[index as int].1), Ghost(struct_field_values(values, index as int)));
                    proof {
                        assert forall|j: int| 0 <= j < fields.len() implies writer_ok(#[trigger] self.children@[j], fields[j].1, ops@.len() as nat) by {
                            lemma_writer_ok_grows(self.children@[j], fields[j].1, before.len() as nat, ops@.len() as nat);
                        }
                        lemma_ops_extend_trans(start, before, ops@);
                        assert forall|i: int| start.len() <= i < ops@.len() implies !is_data_op(#[trigger] ops@[i]) by {
                            if i < before.len() {
                                assert(ops@[i] == ops@.subrange(0, before.len() as int)[i]);
                            }
                        }
                    }
                    index = index + 1;
                }
            },
            WriterKind::List => {
                proof {
                    assert(decreases_to!(self.children@ => self.children@[0]));
                }
                let ghost e = *(d->List_0);
                let ghost kids = flat_children(values, ChildValues::ListItems);
                let ghost s0 = ops@;
                self.children[0].finish(ops, Ghost(e), Ghost(kids));
                let ghost s1 = ops@;
                ops.push(VectorOp::FinishElements { vector: self.vector, size: self.offset });
                proof {
                    lemma_ops_extend_push(s1, VectorOp::FinishElements { vector: self.vector, size: self.offset });
                    lemma_ops_extend_trans(start, s1, ops@);
                    assert forall|i: int| start.len() <= i < ops@.len() implies !is_data_op(#[trigger] ops@[i]) by {
                        if i < s1.len() {
                            assert(ops@[i] == ops@.subrange(0, s1.len() as int)[i]);
                        }
                    }
                }
            },
            WriterKind::MapOf => {
                proof {
                    assert(decreases_to!(self.children@ => self.children@[0]));
                    assert(decreases_to!(self.children@ => self.children@[1]));
                    lemma_map_children_len(values);
                }
                let ghost kd = *(d->MapOf_0);
                let ghost vd = *(d->MapOf_1);
                let ghost s0 = ops@;
                self.children[0].finish(ops, Ghost(kd), Ghost(flat_children(values, ChildValues::MapKeys)));
                let ghost s1 = ops@;
                proof {
                    lemma_writer_ok_grows(self.children@[1], vd, s0.len() as nat, s1.len() as nat);
                }
                self.children[1].finish(ops, Ghost(vd), Ghost(flat_children(values, ChildValues::MapValues)));
                let ghost s2 = ops@;
                ops.push(VectorOp::FinishElements { vector: self.vector, size: self.offset });
                proof {
                    lemma_ops_extend_trans(start, s1, s2);
                    lemma_ops_extend_push(s2, VectorOp::FinishElements { vector: self.vector, size: self.offset });
                    lemma_ops_extend_trans(start, s2, ops@);
                    assert forall|i: int| start.len() <= i < ops@.len() implies !is_data_op(#[trigger] ops@[i]) by {
                        if i < s1.len() {
                            assert(ops@[i] == ops@.subrange(0, s2.len() as int)[i]);
                            assert(s2[i] == s2.subrange(0, s1.len() as int)[i]);
                        } else if i < s2.len() {
                            assert(ops@[i] == ops@.subrange(0, s2.len() as int)[i]);
                        }
                    }
                }
            },
        }
        proof {
            lemma_writer_ok_grows(*self, d, start.len() as nat, ops@.len() as nat);
        }
    }
}

/// One value written by a column writer: the writer, the same but for its offsets, mirrors its
/// description over the longer plan, has handled one more value, and the plan holds what it
/// held with the new row written, every new operation writing where the column was free.
pub open spec fn value_step(w0: ColumnWriter, w: ColumnWriter, a: Seq<VectorOp>, b: Seq<VectorOp>, d: TypeDescModel, values: Seq<Option<ValueModel>>, k: int, p: VectorPath) -> bool {
    &&& writer_ok(w, d, b.len() as nat)
    &&& writer_state(w, d, values, k + 1)
    &&& same_frame(w0, w)
    &&& ops_extend(a, b)
    &&& content(b, w, d, values, k + 1, p)
    &&& forall|i: int, q: VectorPath, r: int| a.len() <= i < b.len() && #[trigger] touches(b, i, q, r)
        ==> allowed(d, values, k, p, q, r)
}

impl ColumnWriter {
    /// Decides the operations that write one non-NULL value at `row`, the next of the values of
    /// the column.
    ///
    /// A scalar becomes one scalar write. A `LIST` / `MAP` sets the row's entry to the next
    /// elements of its child vector(s), writes the elements there and moves its offset past them.
    /// A `STRUCT` writes each field into its field's writer, NULL fields as NULL.
    pub fn write_value(
        &mut self,
        row: usize,
        value: &DuckDynamicValue,
        ops: &mut Vec<VectorOp>,
        Ghost(d): Ghost<TypeDescModel>,
        Ghost(values): Ghost<Seq<Option<ValueModel>>>,
        Ghost(k): Ghost<int>,
        Ghost(p): Ghost<VectorPath>,
    ) -> (r: DuckResult<()>)
        requires
            writer_ok(*old(self), d, old(ops)@.len() as nat),
            writer_state(*old(self), d, values, k),
            content(old(ops)@, *old(self), d, values, k, p),
            row == k,
            k < values.len(),
            values[k] == Some(value@),
            desc_accepts(d, value@),
        ensures
            r is Ok,
            writer_ok(*final(self), d, final(ops)@.len() as nat),
            writer_state(*final(self), d, values, k + 1),
            content(final(ops)@, *final(self), d, values, k + 1, p),
            forall|i: int, q: VectorPath, r: int| old(ops)@.len() <= i < final(ops)@.len() && #[trigger] touches(final(ops)@, i, q, r)
                ==> allowed(d, values, k, p, q, r),
            same_frame(*old(self), *final(self)),
            ops_extend(old(ops)@, final(ops)@),
            value@ matches ValueModel::List(items) ==> {
                &&& final(self).offset == old(self).offset + items.len()
                &&& final(ops)@[old(ops)@.len() as int] == (VectorOp::SetEntry {
                    vector: old(self).vector,
                    row,
                    offset: old(self).offset,
                    length: items.len() as usize,
                })
            },
            value@ matches ValueModel::MapOf(pairs) ==> {
                &&& final(self).offset == old(self).offset + pairs.len()
                &&& final(ops)@[old(ops)@.len() as int] == (VectorOp::SetEntry {
                    vector: old(self).vector,
                    row,
                    offset: old(self).offset,
                    length: pairs.len() as usize,
                })
            },
            !is_nested_value(value@) ==> {
                &&& final(ops)@.len() == old(ops)@.len() + 1
                &&& final(ops)@[old(ops)@.len() as int] matches VectorOp::WriteScalar { vector: v, row: at, value: w }
                &&& v == old(self).vector && at == row && scalar_write_fits(w, value@)
            },
        decreases value, 1int,
    {
        let ghost start = ops@;
        match value {
            DuckDynamicValue::List(items) => self.write_list_value(row, value, items, ops, Ghost(d), Ghost(values), Ghost(k), Ghost(p)),
            DuckDynamicValue::Struct(field_values) => self.write_struct_value(row, value, field_values, ops, Ghost(d), Ghost(values), Ghost(k), Ghost(p)),
            DuckDynamicValue::MapOf(pairs) => self.write_map_value(row, value, pairs, ops, Ghost(d), Ghost(values), Ghost(k), Ghost(p)),
            _ => {
                let written = value.scalar_write();
                match written {
                    Ok(w) => {
                        ops.push(VectorOp::WriteScalar { vector: self.vector, row, value: w });
                        proof {
                            lemma_writer_ok_grows(*self, d, start.len() as nat, ops@.len() as nat);
                            assert(ops@.subrange(0, start.len() as int) =~= start);
                            assert(d is Scalar || d is Decimal);
                            lemma_scalar_value(w, d, value@);
                            lemma_single_op_step(start, *self, d, values, k, p, VectorOp::WriteScalar { vector: self.vector, row, value: w });
                        }
                        Ok(())
                    },
                    Err(e) => Err(e),
                }
            },
        }
    }


    /// The `LIST` case of [`ColumnWriter::write_value`].
    #[verifier::rlimit(40)]
    fn write_list_value(
        &mut self,
        row: usize,
        value: &DuckDynamicValue,
        items: &Vec<Option<DuckDynamicValue>>,
        ops: &mut Vec<VectorOp>,
        Ghost(d): Ghost<TypeDescModel>,
        Ghost(values): Ghost<Seq<Option<ValueModel>>>,
        Ghost(k): Ghost<int>,
        Ghost(p): Ghost<VectorPath>,
    ) -> (r: DuckResult<()>)
        requires
            writer_ok(*old(self), d, old(ops)@.len() as nat),
            writer_state(*old(self), d, values, k),
            content(old(ops)@, *old(self), d, values, k, p),
            row == k,
            k < values.len(),
            values[k] == Some(value@),
            desc_accepts(d, value@),
            *value == DuckDynamicValue::List(*items),
        ensures
            r is Ok,
            value_step(*old(self), *final(self), old(ops)@, final(ops)@, d, values, k, p),
            final(self).offset == old(self).offset + value@->List_0.len(),
            final(ops)@[old(ops)@.len() as int] == (VectorOp::SetEntry {
                vector: old(self).vector,
                row,
                offset: old(self).offset,
                length: value@->List_0.len() as usize,
            }),
        decreases value, 0int,
    {
        let ghost start = ops@;
        let ghost old_self = *self;
        proof {
            lemma_flat_step(values, k, ChildValues::ListItems);
            lemma_flat_prefix(values, k + 1, ChildValues::ListItems);
        }
        if self.children.len() != 1 {
            return Err(duck_error("dynamic table function: LIST value written through a non-LIST column writer"));
        }
        let ghost e = *(d->List_0);
        let ghost items_m = value@->List_0;
        let ghost kids = flat_children(values, ChildValues::ListItems);
        let ghost cp = child_path(p, ChildLink::ListElement);
        assert(items_m.len() == items@.len());
        let offset = self.offset;
        assert(kids.take(offset + items_m.len()) == flat_children(values.take(k), ChildValues::ListItems) + items_m);
        let ghost entry_op = VectorOp::SetEntry { vector: self.vector, row, offset, length: items@.len() as usize };
        ops.push(VectorOp::SetEntry { vector: self.vector, row, offset, length: items.len() });
        let ghost a1 = ops@;
        proof {
            lemma_writer_ok_grows(self.children@[0], e, start.len() as nat, ops@.len() as nat);
            lemma_ops_extend_push(start, entry_op);
            lemma_ops_extend_push(a1, entry_op);
            assert forall|j: int| 0 <= j < items_m.len() implies #[trigger] kids[offset + j] == items_m[j] by {
                assert(kids.take(offset + items_m.len())[offset + j] == (flat_children(values.take(k), ChildValues::ListItems) + items_m)[offset + j]);
            }
            lemma_own_row_op(start, old_self, d, values, k, p, entry_op);
            lemma_last_write(start, entry_op, p, k);
            assert(a1.take(start.len() as int) =~= start);
            assert(entry_at(a1, p, k) == Some((offset as int, items_m.len() as int)));
            assert(content(a1, self.children@[0], e, kids, offset as int, cp));
        }
        let mut index: usize = 0;
        while index < items.len()
            invariant
                0 <= index <= items@.len(),
                items_m == value@->List_0,
                items_m.len() == items@.len(),
                *value == DuckDynamicValue::List(*items),
                d == TypeDescModel::List(Box::new(e)),
                forall|j: int| 0 <= j < items_m.len() ==> (#[trigger] items_m[j] matches Some(x) ==> desc_accepts(e, x)),
                kids == flat_children(values, ChildValues::ListItems),
                forall|j: int| 0 <= j < items_m.len() ==> #[trigger] kids[offset + j] == items_m[j],
                offset + items_m.len() <= kids.len(),
                kids.len() <= usize::MAX,
                self.vector == old_self.vector,
                self.kind == old_self.kind,
                self.offset == offset,
                offset == old_self.offset,
                self.children@.len() == 1,
                writer_ok(self.children@[0], e, ops@.len() as nat),
                writer_state(self.children@[0], e, kids, offset + index),
                cp == child_path(p, ChildLink::ListElement),
                content(ops@, self.children@[0], e, kids, offset + index, cp),
                forall|i: int, q: VectorPath, r: int| a1.len() <= i < ops@.len() && #[trigger] touches(ops@, i, q, r)
                    ==> allowed(e, kids, offset as int, cp, q, r),
                ops_extend(a1, ops@),
                a1.len() == start.len() + 1,
                ops_extend(start, ops@),
                ops@.len() > start.len(),
                ops@[start.len() as int] == (VectorOp::SetEntry { vector: old_self.vector, row, offset, length: items@.len() as usize }),
            decreases items@.len() - index,
        {
            assert(items_m[index as int] == option_model(items@[index as int]));
            assert(kids[offset + index] == items_m[index as int]);
            proof {
                assert(decreases_to!(value => items));
                assert(decreases_to!(items => items@));
                assert(decreases_to!(items@ => items@[index as int]));
            }
            let ghost before = ops@;
            match &items[index] {
                Some(item) => {
                    let written = self.children[0].write_value(offset + index, item, ops, Ghost(e), Ghost(kids), Ghost(offset + index), Ghost(cp));
                    if written.is_err() {
                        return written;
                    }
                },
                None => {
                    self.children[0].write_null(offset + index, ops, Ghost(e), Ghost(kids), Ghost(offset + index), Ghost(cp));
                },
            }
            proof {
                assert forall|i: int, q: VectorPath, r: int| a1.len() <= i < ops@.len() && #[trigger] touches(ops@, i, q, r)
                    implies allowed(e, kids, offset as int, cp, q, r) by {
                    if i < before.len() {
                        lemma_op_prefix(before, ops@, i, q, r);
                        assert(touches(before, i, q, r));
                    } else {
                        lemma_allowed_monotone(e, kids, offset as int, offset + index, cp, q, r);
                    }
                }
                lemma_ops_extend_trans(start, before, ops@);
                lemma_ops_extend_trans(a1, before, ops@);
                assert(ops@[start.len() as int] == before[start.len() as int]);
            }
            index = index + 1;
        }
        self.offset = offset + items.len();
        proof {
            let b = ops@;
            lemma_children_only(a1, b, d, values, k, p, k);
            assert(children_content(b, *self, d, values, k + 1, p));
            lemma_list_read_back(b, *self, d, values, k, p);
            assert forall|i: int, q: VectorPath, r: int| start.len() <= i < b.len() && #[trigger] touches(b, i, q, r)
                implies (q == p && r == k) || child_allowed(d, values, k, p, q, r) by {
                if i == start.len() {
                    lemma_op_prefix(a1, b, i, q, r);
                    assert(touches(a1, i, q, r));
                }
            }
            lemma_content_advance(start, b, old_self, *self, d, values, k, p);
        }
        Ok(())
    }

    /// The `STRUCT` case of [`ColumnWriter::write_value`].
    fn write_struct_value(
        &mut self,
        row: usize,
        value: &DuckDynamicValue,
        field_values: &Vec<Option<DuckDynamicValue>>,
        ops: &mut Vec<VectorOp>,
        Ghost(d): Ghost<TypeDescModel>,
        Ghost(values): Ghost<Seq<Option<ValueModel>>>,
        Ghost(k): Ghost<int>,
        Ghost(p): Ghost<VectorPath>,
    ) -> (r: DuckResult<()>)
        requires
            writer_ok(*old(self), d, old(ops)@.len() as nat),
            writer_state(*old(self), d, values, k),
            content(old(ops)@, *old(self), d, values, k, p),
            row == k,
            k < values.len(),
            values[k] == Some(value@),
            desc_accepts(d, value@),
            *value == DuckDynamicValue::Struct(*field_values),
        ensures
            r is Ok,
            value_step(*old(self), *final(self), old(ops)@, final(ops)@, d, values, k, p),
        decreases value, 0int,
    {
        let ghost start = ops@;
        let ghost old_self = *self;
        if self.children.len() != field_values.len() {
            let mut m = String::from_str("dynamic table function: STRUCT has ");
            m.append(crate::text::u64_text(field_values.len() as u64).as_str());
            m.append(" fields but the column declares ");
            m.append(crate::text::u64_text(self.children.len() as u64).as_str());
            return Err(crate::error::duck_error_owned(m));
        }
        let ghost fields = d->Struct_0;
        let ghost values_m = value@->Struct_0;
        assert(values_m.len() == field_values@.len());
        let mut index: usize = 0;
        proof {
            lemma_ops_extend_push(start, VectorOp::OpenWriter { vector: 0 });
            lemma_children_content(start, old_self, d, values, k, p);
            lemma_next_row_untouched(start, old_self, d, values, k, p, k);
            lemma_never_touched(start, p, k);
        }
        while index < field_values.len()
            invariant
                0 <= index <= field_values@.len(),
                values_m == value@->Struct_0,
                values_m.len() == field_values@.len(),
                *value == DuckDynamicValue::Struct(*field_values),
                d == TypeDescModel::Struct(fields),
                fields.len() == values_m.len(),
                fields.len() <= usize::MAX,
                forall|j: int| 0 <= j < values_m.len() ==> (#[trigger] values_m[j] matches Some(x) ==> desc_accepts(fields[j].1, x)),
                0 <= k < values.len(),
                row == k,
                values[k] == Some(ValueModel::Struct(values_m)),
                self.vector == old_self.vector,
                self.kind == old_self.kind,
                self.offset == old_self.offset,
                self.offset == 0,
                self.vector < ops@.len(),
                self.children@.len() == fields.len(),
                forall|j: int| 0 <= j < fields.len() ==> writer_ok(#[trigger] self.children@[j], fields[j].1, ops@.len() as nat),
                forall|j: int| 0 <= j < index ==> writer_state(#[trigger] self.children@[j], fields[j].1, struct_field_values(values, j), k + 1),
                forall|j: int| index <= j < fields.len() ==> writer_state(#[trigger] self.children@[j], fields[j].1, struct_field_values(values, j), k),
                forall|j: int| 0 <= j < index ==> content(ops@, #[trigger] self.children@[j], fields[j].1, struct_field_values(values, j), k + 1, field_path(p, j)),
                forall|j: int| index <= j < fields.len() ==> content(ops@, #[trigger] self.children@[j], fields[j].1, struct_field_values(values, j), k, field_path(p, j)),
                forall|i: int, q: VectorPath, r: int| start.len() <= i < ops@.len() && #[trigger] touches(ops@, i, q, r)
                    ==> child_allowed(d, values, k, p, q, r),
                ops_extend(start, ops@),
            decreases field_values@.len() - index,
        {
            assert(values_m[index as int] == option_model(field_values@[index as int]));
            assert(struct_field_values(values, index as int)[k] == values_m[index as int]);
            proof {
                assert(decreases_to!(value => field_values));
                assert(decreases_to!(field_values => field_values@));
                assert(decreases_to!(field_values@ => field_values@[index as int]));
            }
            let ghost before = ops@;
            let ghost children_before = self.children@;
            match &field_values[index] {
                Some(v) => {
                    let written = self.children[index].write_value(row, v, ops, Ghost(fields[index as int].1), Ghost(struct_field_values(values, index as int)), Ghost(k), Ghost(field_path(p, index as int)));
                    if written.is_err() {
                        return written;
                    }
                },
                None => {
                    self.children[index].write_null(row, ops, Ghost(fields[index as int].1), Ghost(struct_field_values(values, index as int)), Ghost(k), Ghost(field_path(p, index as int)));
                },
            }
            proof {
                let fi = index as int;
                assert forall|j: int| 0 <= j < fields.len() implies writer_ok(#[trigger] self.children@[j], fields[j].1, ops@.len() as nat) by {
                    if j != index {
                        assert(self.children@[j] == children_before[j]);
                        lemma_writer_ok_grows(self.children@[j], fields[j].1, before.len() as nat, ops@.len() as nat);
                    }
                }
                assert forall|j: int| 0 <= j < index + 1 implies writer_state(#[trigger] self.children@[j], fields[j].1, struct_field_values(values, j), k + 1) by {
                    if j != index {
                        assert(self.children@[j] == children_before[j]);
                    }
                }
                assert forall|j: int| index + 1 <= j < fields.len() implies writer_state(#[trigger] self.children@[j], fields[j].1, struct_field_values(values, j), k) by {
                    assert(self.children@[j] == children_before[j]);
                }
                assert forall|j: int| 0 <= j < fields.len() && j != fi implies
                    content(ops@, #[trigger] self.children@[j], fields[j].1, struct_field_values(values, j), if j < fi { k + 1 } else { k }, field_path(p, j)) by {
                    assert(self.children@[j] == children_before[j]);
                    assert forall|i: int, q: VectorPath, r: int| before.len() <= i < ops@.len() && #[trigger] touches(ops@, i, q, r)
                        implies !in_subtree(q, field_path(p, j)) by {
                        assert(allowed(fields[fi].1, struct_field_values(values, fi), k, field_path(p, fi), q, r));
                        lemma_sibling_subtrees(q, p, ChildLink::StructField(fi as usize), ChildLink::StructField(j as usize));
                    }
                    lemma_content_frame(before, ops@, self.children@[j], fields[j].1, struct_field_values(values, j),
                        if j < fi { k + 1 } else { k }, field_path(p, j));
                }
                assert forall|i: int, q: VectorPath, r: int| start.len() <= i < ops@.len() && #[trigger] touches(ops@, i, q, r)
                    implies child_allowed(d, values, k, p, q, r) by {
                    if i < before.len() {
                        lemma_op_prefix(before, ops@, i, q, r);
                        assert(touches(before, i, q, r));
                        assert(child_allowed(d, values, k, p, q, r));
                    } else {
                        lemma_field_child_allowed(d, values, k, p, fi, q, r);
                    }
                }
                lemma_ops_extend_trans(start, before, ops@);
            }
            index = index + 1;
        }
        proof {
            let b = ops@;
            lemma_children_only(start, b, d, values, k, p, k);
            assert(children_content(b, *self, d, values, k + 1, p));
            lemma_struct_read_back(b, *self, d, values, k, p);
            lemma_content_advance(start, b, old_self, *self, d, values, k, p);
        }
        Ok(())
    }

    /// The `MAP` case of [`ColumnWriter::write_value`].
    fn write_map_value(
        &mut self,
        row: usize,
        value: &DuckDynamicValue,
        pairs: &Vec<(DuckDynamicValue, DuckDynamicValue)>,
        ops: &mut Vec<VectorOp>,
        Ghost(d): Ghost<TypeDescModel>,
        Ghost(values): Ghost<Seq<Option<ValueModel>>>,
        Ghost(k): Ghost<int>,
        Ghost(p): Ghost<VectorPath>,
    ) -> (r: DuckResult<()>)
        requires
            writer_ok(*old(self), d, old(ops)@.len() as nat),
            writer_state(*old(self), d, values, k),
            content(old(ops)@, *old(self), d, values, k, p),
            row == k,
            k < values.len(),
            values[k] == Some(value@),
            desc_accepts(d, value@),
            *value == DuckDynamicValue::MapOf(*pairs),
        ensures
            r is Ok,
            value_step(*old(self), *final(self), old(ops)@, final(ops)@, d, values, k, p),
            final(self).offset == old(self).offset + value@->MapOf_0.len(),
            final(ops)@[old(ops)@.len() as int] == (VectorOp::SetEntry {
                vector: old(self).vector,
                row,
                offset: old(self).offset,
                length: value@->MapOf_0.len() as usize,
            }),
        decreases value, 0int,
    {
        let ghost start = ops@;
        let ghost old_self = *self;
        proof {
            lemma_flat_step(values, k, ChildValues::MapKeys);
            lemma_flat_step(values, k, ChildValues::MapValues);
            lemma_flat_prefix(values, k + 1, ChildValues::MapKeys);
            lemma_flat_prefix(values, k + 1, ChildValues::MapValues);
            lemma_map_children_len(values.take(k));
            lemma_map_children_len(values.take(k + 1));
            lemma_map_children_len(values);
        }
        if self.children.len() != 2 {
            return Err(duck_error("dynamic table function: MAP value written through a non-MAP column writer"));
        }
        let ghost k_desc = *(d->MapOf_0);
        let ghost v_desc = *(d->MapOf_1);
        let ghost pairs_m = value@->MapOf_0;
        let ghost keys = flat_children(values, ChildValues::MapKeys);
        let ghost vals = flat_children(values, ChildValues::MapValues);
        let ghost kp = child_path(p, ChildLink::MapKeys);
        let ghost vp = child_path(p, ChildLink::MapValues);
        assert(pairs_m.len() == pairs@.len());
        let offset = self.offset;
        assert(keys.take(offset + pairs_m.len()) == flat_children(values.take(k), ChildValues::MapKeys) + children_of(values[k], ChildValues::MapKeys));
        assert(vals.take(offset + pairs_m.len()) == flat_children(values.take(k), ChildValues::MapValues) + children_of(values[k], ChildValues::MapValues));
        let ghost entry_op = VectorOp::SetEntry { vector: self.vector, row, offset, length: pairs@.len() as usize };
        ops.push(VectorOp::SetEntry { vector: self.vector, row, offset, length: pairs.len() });
        let ghost a1 = ops@;
        proof {
            lemma_writer_ok_grows(self.children@[0], k_desc, start.len() as nat, ops@.len() as nat);
            lemma_writer_ok_grows(self.children@[1], v_desc, start.len() as nat, ops@.len() as nat);
            lemma_ops_extend_push(start, entry_op);
            lemma_ops_extend_push(a1, entry_op);
            assert forall|j: int| 0 <= j < pairs_m.len() implies #[trigger] keys[offset + j] == Some(pairs_m[j].0) && vals[offset + j] == Some(pairs_m[j].1) by {
                assert(keys.take(offset + pairs_m.len())[offset + j] == children_of(values[k], ChildValues::MapKeys)[j]);
                assert(vals.take(offset + pairs_m.len())[offset + j] == children_of(values[k], ChildValues::MapValues)[j]);
            }
            lemma_own_row_op(start, old_self, d, values, k, p, entry_op);
            lemma_last_write(start, entry_op, p, k);
            assert(a1.take(start.len() as int) =~= start);
            assert(entry_at(a1, p, k) == Some((offset as int, pairs_m.len() as int)));
            assert(content(a1, self.children@[0], k_desc, keys, offset as int, kp));
            assert(content(a1, self.children@[1], v_desc, vals, offset as int, vp));
        }
        let mut index: usize = 0;
        while index < pairs.len()
            invariant
                0 <= index <= pairs@.len(),
                pairs_m == value@->MapOf_0,
                pairs_m.len() == pairs@.len(),
                *value == DuckDynamicValue::MapOf(*pairs),
                d == TypeDescModel::MapOf(Box::new(k_desc), Box::new(v_desc)),
                forall|j: int| 0 <= j < pairs_m.len() ==> desc_accepts(k_desc, #[trigger] pairs_m[j].0) && desc_accepts(v_desc, pairs_m[j].1),
                keys == flat_children(values, ChildValues::MapKeys),
                vals == flat_children(values, ChildValues::MapValues),
                forall|j: int| 0 <= j < pairs_m.len() ==> #[trigger] keys[offset + j] == Some(pairs_m[j].0) && vals[offset + j] == Some(pairs_m[j].1),
                offset + pairs_m.len() <= keys.len(),
                keys.len() == vals.len(),
                keys.len() <= usize::MAX,
                self.vector == old_self.vector,
                self.kind == old_self.kind,
                self.offset == offset,
                offset == old_self.offset,
                self.children@.len() == 2,
                writer_ok(self.children@[0], k_desc, ops@.len() as nat),
                writer_ok(self.children@[1], v_desc, ops@.len() as nat),
                writer_state(self.children@[0], k_desc, keys, offset + index),
                writer_state(self.children@[1], v_desc, vals, offset + index),
                kp == child_path(p, ChildLink::MapKeys),
                vp == child_path(p, ChildLink::MapValues),
                content(ops@, self.children@[0], k_desc, keys, offset + index, kp),
                content(ops@, self.children@[1], v_desc, vals, offset + index, vp),
                forall|i: int, q: VectorPath, r: int| a1.len() <= i < ops@.len() && #[trigger] touches(ops@, i, q, r)
                    ==> allowed(k_desc, keys, offset as int, kp, q, r) || allowed(v_desc, vals, offset as int, vp, q, r),
                ops_extend(a1, ops@),
                a1.len() == start.len() + 1,
                ops_extend(start, ops@),
                ops@.len() > start.len(),
                ops@[start.len() as int] == (VectorOp::SetEntry { vector: old_self.vector, row, offset, length: pairs@.len() as usize }),
            decreases pairs@.len() - index,
        {
            assert(pairs_m[index as int] == (value_model(pairs@[index as int].0), value_model(pairs@[index as int].1)));
            assert(keys[offset + index] == Some(pairs_m[index as int].0));
            assert(desc_accepts(k_desc, pairs_m[index as int].0));
            assert(desc_accepts(v_desc, pairs_m[index as int].1));
            proof {
                assert(decreases_to!(value => pairs));
                assert(decreases_to!(pairs => pairs@));
                assert(decreases_to!(pairs@ => pairs@[index as int]));
            }
            let ghost before = ops@;
            let written = self.children[0].write_value(offset + index, &pairs[index].0, ops, Ghost(k_desc), Ghost(keys), Ghost(offset + index), Ghost(kp));
            if written.is_err() {
                return written;
            }
            let ghost mid = ops@;
            proof {
                lemma_writer_ok_grows(self.children@[1], v_desc, before.len() as nat, mid.len() as nat);
                assert forall|i: int, q: VectorPath, r: int| before.len() <= i < mid.len() && #[trigger] touches(mid, i, q, r)
                    implies !in_subtree(q, vp) by {
                    assert(allowed(k_desc, keys, offset + index, kp, q, r));
                    lemma_sibling_subtrees(q, p, ChildLink::MapKeys, ChildLink::MapValues);
                }
                lemma_content_frame(before, mid, self.children@[1], v_desc, vals, offset + index, vp);
            }
            let written = self.children[1].write_value(offset + index, &pairs[index].1, ops, Ghost(v_desc), Ghost(vals), Ghost(offset + index), Ghost(vp));
            if written.is_err() {
                return written;
            }
            proof {
                lemma_writer_ok_grows(self.children@[0], k_desc, mid.len() as nat, ops@.len() as nat);
                lemma_ops_extend_trans(start, before, mid);
                lemma_ops_extend_trans(start, mid, ops@);
                lemma_ops_extend_trans(a1, before, mid);
                lemma_ops_extend_trans(a1, mid, ops@);
                lemma_ops_extend_trans(before, mid, ops@);
                assert(ops@[start.len() as int] == before[start.len() as int]);
                assert forall|i: int, q: VectorPath, r: int| mid.len() <= i < ops@.len() && #[trigger] touches(ops@, i, q, r)
                    implies !in_subtree(q, kp) by {
                    assert(allowed(v_desc, vals, offset + index, vp, q, r));
                    lemma_sibling_subtrees(q, p, ChildLink::MapValues, ChildLink::MapKeys);
                }
                lemma_content_frame(mid, ops@, self.children@[0], k_desc, keys, offset + index + 1, kp);
                assert forall|i: int, q: VectorPath, r: int| a1.len() <= i < ops@.len() && #[trigger] touches(ops@, i, q, r)
                    implies allowed(k_desc, keys, offset as int, kp, q, r) || allowed(v_desc, vals, offset as int, vp, q, r) by {
                    if i < before.len() {
                        lemma_op_prefix(before, ops@, i, q, r);
                        assert(touches(before, i, q, r));
                    } else if i < mid.len() {
                        lemma_op_prefix(mid, ops@, i, q, r);
                        assert(touches(mid, i, q, r));
                        lemma_allowed_monotone(k_desc, keys, offset as int, offset + index, kp, q, r);
                    } else {
                        lemma_allowed_monotone(v_desc, vals, offset as int, offset + index, vp, q, r);
                    }
                }
            }
            index = index + 1;
        }
        self.offset = offset + pairs.len();
        proof {
            let b = ops@;
            lemma_children_only(a1, b, d, values, k, p, k);
            assert(children_content(b, *self, d, values, k + 1, p));
            lemma_map_read_back(b, *self, d, values, k, p);
            assert forall|i: int, q: VectorPath, r: int| start.len() <= i < b.len() && #[trigger] touches(b, i, q, r)
                implies (q == p && r == k) || child_allowed(d, values, k, p, q, r) by {
                if i == start.len() {
                    lemma_op_prefix(a1, b, i, q, r);
                    assert(touches(a1, i, q, r));
                }
            }
            lemma_content_advance(start, b, old_self, *self, d, values, k, p);
        }
        Ok(())
    }

}

/// The cells of column `column` across a batch: nothing for a NULL row or a missing cell.
pub open spec fn column_cells(rows: Seq<Option<Seq<Option<ValueModel>>>>, column: int) -> Seq<Option<ValueModel>> {
    Seq::new(rows.len(), |i: int| match rows[i] {
        Some(r) => if 0 <= column < r.len() { r[column] } else { None },
        None => None,
    })
}

/// Extracts the values of column `column_index` across a batch (what that column's writer is
/// built from).
pub fn column_values<'a>(rows: &[Option<&'a DuckDynamicRow>], column_index: usize) -> (r: Vec<Option<&'a DuckDynamicValue>>)
    ensures
        refs_model(r@) == column_cells(batch_model(rows@), column_index as int),
{
    let ghost rows_m = batch_model(rows@);
    let mut out: Vec<Option<&'a DuckDynamicValue>> = Vec::new();
    let mut i: usize = 0;
    while i < rows.len()
        invariant
            0 <= i <= rows@.len(),
            rows_m == batch_model(rows@),
            out@.len() == i,
            forall|j: int| 0 <= j < i ==> #[trigger] refs_model(out@)[j] == column_cells(rows_m, column_index as int)[j],
        decreases rows@.len() - i,
    {
        let picked: Option<&'a DuckDynamicValue> = match rows[i] {
            Some(row) => {
                proof {
                    row.lemma_view();
                }
                let cells = row.values();
                if column_index < cells.len() {
                    assert(row@[column_index as int] == option_model(cells@[column_index as int]));
                    cells[column_index].as_ref()
                } else {
                    None
                }
            },
            None => None,
        };
        let ghost old_out = out@;
        out.push(picked);
        proof {
            assert forall|j: int| 0 <= j < i + 1 implies #[trigger] refs_model(out@)[j] == column_cells(rows_m, column_index as int)[j] by {
                if j < i {
                    assert(out@[j] == old_out[j]);
                    assert(refs_model(old_out)[j] == column_cells(rows_m, column_index as int)[j]);
                }
            }
        }
        i = i + 1;
    }
    assert(refs_model(out@) =~= column_cells(rows_m, column_index as int));
    out
}

impl DuckDynamicRow {
    /// Decides how a batch of dynamic rows is written into the output chunk according to
    /// `schema` (the batch write of a table function's scan phase).
    ///
    /// The batch is validated first: a row whose cell count differs from the schema, or a cell
    /// whose value does not fit its column, is the error (the first one, rows in order), and
    /// nothing is planned. Otherwise one writer tree is built per column (`LIST` / `MAP` reserve
    /// their child vectors along the way), every row is written value by value (NULL cells and
    /// NULL rows as NULL), and the writers finish (`LIST` / `MAP` set their child-vector sizes).
    pub fn write_batch(schema: &DuckResultSchema, rows: &[Option<&DuckDynamicRow>]) -> (r: DuckResult<Vec<VectorOp>>)
        ensures
            r is Ok <==> batch_error(schema@, batch_model(rows@)) is None,
            r matches Err(e) ==> Some(e.spec_message()) == batch_error(schema@, batch_model(rows@)),
            r matches Ok(ops) ==> batch_reads_back(ops@, schema@, batch_model(rows@)),
    {
        match validate_batch(schema, rows) {
            Ok(()) => {},
            Err(e) => {
                return Err(e);
            },
        }
        let ghost schema_m = schema@;
        let ghost rows_m = batch_model(rows@);
        let columns = schema.columns();
        proof {
            schema.lemma_view();
        }
        let mut ops: Vec<VectorOp> = Vec::new();
        let mut writers: Vec<ColumnWriter> = Vec::new();
        let mut c: usize = 0;
        while c < columns.len()
            invariant
                0 <= c <= columns@.len(),
                schema_m == schema@,
                schema_m == columns_model(columns@),
                rows_m == batch_model(rows@),
                writers@.len() == c,
                forall|i: int| 0 <= i < ops@.len() ==> !is_data_op(#[trigger] ops@[i]),
                forall|j: int| 0 <= j < c ==> writer_ok(#[trigger] writers@[j], schema_m[j].1, ops@.len() as nat)
                    && writer_state(writers@[j], schema_m[j].1, column_cells(rows_m, j), 0)
                    && content(ops@, writers@[j], schema_m[j].1, column_cells(rows_m, j), 0, VectorPath::Column(j)),
            decreases columns@.len() - c,
        {
            let ghost before = ops@;
            let vector = ops.len();
            ops.push(VectorOp::ColumnVector { vector, column: c });
            let values = column_values(rows, c);
            assert(schema_m[c as int].1 == desc_model(columns@[c as int].1));
            let w = ColumnWriter::prepare(vector, &columns[c].1, values.as_slice(), &mut ops, Ghost(VectorPath::Column(c as int)));
            proof {
                lemma_ops_extend_push(before, VectorOp::ColumnVector { vector, column: c });
                lemma_no_data_no_touch(ops@);
                assert forall|j: int| 0 <= j < c implies writer_ok(#[trigger] writers@[j], schema_m[j].1, ops@.len() as nat)
                    && content(ops@, writers@[j], schema_m[j].1, column_cells(rows_m, j), 0, VectorPath::Column(j)) by {
                    lemma_writer_ok_grows(writers@[j], schema_m[j].1, before.len() as nat, ops@.len() as nat);
                    lemma_ops_extend_trans(before, before.push(VectorOp::ColumnVector { vector, column: c }), ops@);
                    lemma_content_frame(before, ops@, writers@[j], schema_m[j].1, column_cells(rows_m, j), 0, VectorPath::Column(j));
                }
            }
            writers.push(w);
            c = c + 1;
        }
        let ncols = columns.len();
        let mut r: usize = 0;
        while r < rows.len()
            invariant
                0 <= r <= rows@.len(),
                ncols == schema_m.len(),
                schema_m == schema@,
                schema_m == columns_model(columns@),
                rows_m == batch_model(rows@),
                batch_error(schema_m, rows_m) is None,
                writers@.len() == ncols,
                forall|j: int| 0 <= j < ncols ==> writer_ok(#[trigger] writers@[j], schema_m[j].1, ops@.len() as nat)
                    && writer_state(writers@[j], schema_m[j].1, column_cells(rows_m, j), r as int)
                    && content(ops@, writers@[j], schema_m[j].1, column_cells(rows_m, j), r as int, VectorPath::Column(j)),
            decreases rows@.len() - r,
        {
            match rows[r] {
                None => {
                    assert(rows_m[r as int] is None);
                    let mut c: usize = 0;
                    while c < writers.len()
                        invariant
                            0 <= c <= writers@.len(),
                            writers@.len() == ncols,
                            ncols == schema_m.len(),
                            0 <= r < rows_m.len(),
                            rows_m[r as int] is None,
                            forall|j: int| 0 <= j < ncols ==> writer_ok(#[trigger] writers@[j], schema_m[j].1, ops@.len() as nat),
                            forall|j: int| 0 <= j < c ==> writer_state(#[trigger] writers@[j], schema_m[j].1, column_cells(rows_m, j), r + 1)
                                && content(ops@, writers@[j], schema_m[j].1, column_cells(rows_m, j), r + 1, VectorPath::Column(j)),
                            forall|j: int| c <= j < ncols ==> writer_state(#[trigger] writers@[j], schema_m[j].1, column_cells(rows_m, j), r as int)
                                && content(ops@, writers@[j], schema_m[j].1, column_cells(rows_m, j), r as int, VectorPath::Column(j)),
                        decreases writers@.len() - c,
                    {
                        let ghost before = ops@;
                        assert(column_cells(rows_m, c as int)[r as int] is None);
                        writers[c].write_null(r, &mut ops, Ghost(schema_m[c as int].1), Ghost(column_cells(rows_m, c as int)), Ghost(r as int), Ghost(VectorPath::Column(c as int)));
                        proof {
                            lemma_other_columns_kept(before, ops@, writers@, schema_m, rows_m, c as int, r as int);
                            assert forall|j: int| 0 <= j < ncols implies writer_ok(#[trigger] writers@[j], schema_m[j].1, ops@.len() as nat) by {
                                if j != c {
                                    lemma_writer_ok_grows(writers@[j], schema_m[j].1, before.len() as nat, ops@.len() as nat);
                                }
                            }
                        }
                        c = c + 1;
                    }
                },
                Some(row) => {
                    proof {
                        row.lemma_view();
                    }
                    let cells = row.values();
                    assert(rows_m[r as int] == Some(row@));
                    proof {
                        if ncols > 0 {
                            lemma_valid_batch_fits(schema_m, rows_m, r as int, 0);
                        }
                    }
                    let mut c: usize = 0;
                    while c < writers.len()
                        invariant
                            0 <= c <= writers@.len(),
                            writers@.len() == ncols,
                            ncols == schema_m.len(),
                            0 <= r < rows_m.len(),
                            rows_m == batch_model(rows@),
                            rows_m[r as int] == Some(row@),
                            row@ == crate::row::cells_model(cells@),
                            ncols > 0 ==> cells@.len() == ncols,
                            batch_error(schema_m, rows_m) is None,
                            forall|j: int| 0 <= j < ncols ==> writer_ok(#[trigger] writers@[j], schema_m[j].1, ops@.len() as nat),
                            forall|j: int| 0 <= j < c ==> writer_state(#[trigger] writers@[j], schema_m[j].1, column_cells(rows_m, j), r + 1)
                                && content(ops@, writers@[j], schema_m[j].1, column_cells(rows_m, j), r + 1, VectorPath::Column(j)),
                            forall|j: int| c <= j < ncols ==> writer_state(#[trigger] writers@[j], schema_m[j].1, column_cells(rows_m, j), r as int)
                                && content(ops@, writers@[j], schema_m[j].1, column_cells(rows_m, j), r as int, VectorPath::Column(j)),
                        decreases writers@.len() - c,
                    {
                        let ghost before = ops@;
                        proof {
                            lemma_valid_batch_fits(schema_m, rows_m, r as int, c as int);
                        }
                        assert(row@[c as int] == option_model(cells@[c as int]));
                        assert(column_cells(rows_m, c as int)[r as int] == row@[c as int]);
                        match &cells[c] {
                            Some(v) => {
                                let written = writers[c].write_value(r, v, &mut ops, Ghost(schema_m[c as int].1), Ghost(column_cells(rows_m, c as int)), Ghost(r as int), Ghost(VectorPath::Column(c as int)));
                                if written.is_err() {
                                    return Err(written.unwrap_err());
                                }
                            },
                            None => {
                                writers[c].write_null(r, &mut ops, Ghost(schema_m[c as int].1), Ghost(column_cells(rows_m, c as int)), Ghost(r as int), Ghost(VectorPath::Column(c as int)));
                            },
                        }
                        proof {
                            lemma_other_columns_kept(before, ops@, writers@, schema_m, rows_m, c as int, r as int);
                            assert forall|j: int| 0 <= j < ncols implies writer_ok(#[trigger] writers@[j], schema_m[j].1, ops@.len() as nat) by {
                                if j != c {
                                    lemma_writer_ok_grows(writers@[j], schema_m[j].1, before.len() as nat, ops@.len() as nat);
                                }
                            }
                        }
                        c = c + 1;
                    }
                },
            }
            r = r + 1;
        }
        let mut c: usize = 0;
        while c < writers.len()
            invariant
                0 <= c <= writers@.len(),
                writers@.len() == ncols,
                ncols == schema_m.len(),
                rows_m == batch_model(rows@),
                forall|j: int| 0 <= j < ncols ==> writer_ok(#[trigger] writers@[j], schema_m[j].1, ops@.len() as nat)
                    && writer_state(writers@[j], schema_m[j].1, column_cells(rows_m, j), rows_m.len() as int)
                    && content(ops@, writers@[j], schema_m[j].1, column_cells(rows_m, j), rows_m.len() as int, VectorPath::Column(j)),
            decreases writers@.len() - c,
        {
            let ghost before = ops@;
            writers[c].finish(&mut ops, Ghost(schema_m[c as int].1), Ghost(column_cells(rows_m, c as int)));
            proof {
                assert forall|i: int, q: VectorPath, rr: int| before.len() <= i < ops@.len() implies !#[trigger] touches(ops@, i, q, rr) by {
                    assert(!is_data_op(ops@[i]));
                }
                assert forall|j: int| 0 <= j < ncols implies writer_ok(#[trigger] writers@[j], schema_m[j].1, ops@.len() as nat)
                    && content(ops@, writers@[j], schema_m[j].1, column_cells(rows_m, j), rows_m.len() as int, VectorPath::Column(j)) by {
                    lemma_writer_ok_grows(writers@[j], schema_m[j].1, before.len() as nat, ops@.len() as nat);
                    lemma_content_frame(before, ops@, writers@[j], schema_m[j].1, column_cells(rows_m, j), rows_m.len() as int, VectorPath::Column(j));
                }
            }
            c = c + 1;
        }
        proof {
            assert forall|row: int, col: int| 0 <= row < rows_m.len() && 0 <= col < schema_m.len() implies
                #[trigger] read_back(ops@, VectorPath::Column(col), schema_m[col].1, row) == column_cells(rows_m, col)[row] by {
                assert(content(ops@, writers@[col], schema_m[col].1, column_cells(rows_m, col), rows_m.len() as int, VectorPath::Column(col)));
            }
        }
        Ok(ops)
    }
}

/// Writing column `c` of a row leaves every other column's writer as it was: its vectors lie
/// outside column `c`'s.
proof fn lemma_other_columns_kept(
    before: Seq<VectorOp>,
    after: Seq<VectorOp>,
    writers: Seq<ColumnWriter>,
    schema: Seq<(Seq<char>, TypeDescModel)>,
    rows: Seq<Option<Seq<Option<ValueModel>>>>,
    c: int,
    r: int,
)
    requires
        ops_extend(before, after),
        0 <= c < schema.len(),
        forall|i: int, q: VectorPath, rr: int| before.len() <= i < after.len() && #[trigger] touches(after, i, q, rr)
            ==> allowed(schema[c].1, column_cells(rows, c), r, VectorPath::Column(c), q, rr),
    ensures
        forall|j: int, k: int| 0 <= j < schema.len() && j != c
            && #[trigger] content(before, writers[j], schema[j].1, column_cells(rows, j), k, VectorPath::Column(j))
            ==> content(after, writers[j], schema[j].1, column_cells(rows, j), k, VectorPath::Column(j)),
{
    assert forall|j: int, k: int| 0 <= j < schema.len() && j != c
        && #[trigger] content(before, writers[j], schema[j].1, column_cells(rows, j), k, VectorPath::Column(j))
        implies content(after, writers[j], schema[j].1, column_cells(rows, j), k, VectorPath::Column(j)) by {
        assert forall|i: int, q: VectorPath, rr: int| before.len() <= i < after.len() && #[trigger] touches(after, i, q, rr)
            implies !in_subtree(q, VectorPath::Column(j)) by {
            assert(in_subtree(q, VectorPath::Column(c)));
            lemma_column_subtrees(q, c, j);
        }
        lemma_content_frame(before, after, writers[j], schema[j].1, column_cells(rows, j), k, VectorPath::Column(j));
    }
}

/// What a plan of operations writes reads back as a batch of rows: in each column, each row
/// reads back as its cell, a NULL row reading back NULL in every column.
pub open spec fn batch_reads_back(ops: Seq<VectorOp>, schema: Seq<(Seq<char>, TypeDescModel)>, rows: Seq<Option<Seq<Option<ValueModel>>>>) -> bool {
    forall|row: int, c: int| 0 <= row < rows.len() && 0 <= c < schema.len()
        ==> #[trigger] read_back(ops, VectorPath::Column(c), schema[c].1, row) == column_cells(rows, c)[row]
}

} // verus!
