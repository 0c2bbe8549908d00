//! Reading a dynamic value out of a DuckDB value (bind arguments, copy options, self-describing
//! external data): which typed read a column description calls for, which `MAP` entries are
//! refused, and the recursion that reads a value through `quack-rs`'s accessors.

use vstd::prelude::*;
use quack_rs::prelude::Value;
use crate::dynamic_value::{DuckInterval, value_scalar_type_id};
use crate::type_id::{TypeId, spec_debug_name};
use crate::type_desc::{DuckTypeDesc, TypeDescModel, is_rebuildable_scalar};
use crate::dynamic_value::{DuckDynamicValue, ValueModel};
use crate::error::{DuckResult, duck_error, duck_error_owned};

verus! {

/// The typed read a description calls for.
#[derive(Debug, Clone, Copy, PartialEq, Eq, Structural)]
pub enum ReadKind {
    /// Read a scalar of this type id.
    Scalar(TypeId),
    /// Read a `DECIMAL` (its width, scale and unscaled value).
    Decimal,
    /// Read the items of a `LIST`, each by the element description.
    List,
    /// Read the fields of a `STRUCT`, each by its field description.
    Struct,
    /// Read the entries of a `MAP`, keys and values by their descriptions.
    MapOf,
}

/// The message for a scalar description a value cannot be read as.
pub open spec fn unreadable_message(t: TypeId) -> Seq<char> {
    "dynamic table function: DuckTypeDesc `"@ + spec_debug_name(t) + "` is not supported by DuckDynamicValue::from_duck_value"@
}

/// The typed read a description calls for, or why there is none: a scalar description must be
/// one a bare type id rebuilds.
pub open spec fn read_kind_of(d: TypeDescModel) -> Result<ReadKind, Seq<char>> {
    match d {
        TypeDescModel::Scalar(t) => if is_rebuildable_scalar(t) {
            Ok(ReadKind::Scalar(t))
        } else {
            Err(unreadable_message(t))
        },
        TypeDescModel::Decimal { .. } => Ok(ReadKind::Decimal),
        TypeDescModel::List(_) => Ok(ReadKind::List),
        TypeDescModel::Struct(_) => Ok(ReadKind::Struct),
        TypeDescModel::MapOf(_, _) => Ok(ReadKind::MapOf),
    }
}

/// Decides which typed read a (non-NULL) DuckDB value is read with, from the column description.
pub fn read_kind(desc: &DuckTypeDesc) -> (r: DuckResult<ReadKind>)
    ensures
        match (r, read_kind_of(desc@)) {
            (Ok(k), Ok(j)) => k == j,
            (Err(e), Err(m)) => e.spec_message() == m,
            _ => false,
        },
{
    match desc {
        DuckTypeDesc::Scalar(t) => match DuckTypeDesc::from_scalar_type_id(*t) {
            Some(_) => Ok(ReadKind::Scalar(*t)),
            None => {
                let mut m = String::from_str("dynamic table function: DuckTypeDesc `");
                m.append(t.debug_name());
                m.append("` is not supported by DuckDynamicValue::from_duck_value");
                Err(duck_error_owned(m))
            },
        },
        DuckTypeDesc::Decimal { .. } => Ok(ReadKind::Decimal),
        DuckTypeDesc::List(_) => Ok(ReadKind::List),
        DuckTypeDesc::Struct(_) => Ok(ReadKind::Struct),
        DuckTypeDesc::MapOf(_, _) => Ok(ReadKind::MapOf),
    }
}

/// A `MAP` key as read: a NULL key is refused.
pub fn require_map_key(key: Option<DuckDynamicValue>) -> (r: DuckResult<DuckDynamicValue>)
    ensures
        r is Ok <==> key is Some,
        r matches Ok(k) ==> key == Some(k),
        r matches Err(e) ==> e.spec_message() == "dynamic table function: MAP key cannot be null"@,
{
    match key {
        Some(k) => Ok(k),
        None => {
            proof {
                reveal_strlit("dynamic table function: MAP key cannot be null");
            }
            Err(duck_error("dynamic table function: MAP key cannot be null"))
        },
    }
}

/// A `MAP` value as read: a NULL value is refused.
pub fn require_map_value(value: Option<DuckDynamicValue>) -> (r: DuckResult<DuckDynamicValue>)
    ensures
        r is Ok <==> value is Some,
        r matches Ok(v) ==> value == Some(v),
        r matches Err(e) ==> e.spec_message() == "dynamic table function: MAP value cannot be null"@,
{
    match value {
        Some(v) => Ok(v),
        None => {
            proof {
                reveal_strlit("dynamic table function: MAP value cannot be null");
            }
            Err(duck_error("dynamic table function: MAP value cannot be null"))
        },
    }
}

/// A DuckDB value (`quack_rs::value::Value`), read through its accessors only.
#[verifier::external_type_specification]
#[verifier::external_body]
pub struct ExValue(Value);

/// Whether a value is SQL NULL (`Value::is_sql_null`). What it answers depends on the value
/// DuckDB holds, so nothing is claimed.
#[verifier::external_body]
fn value_is_sql_null(v: &Value) -> (r: bool) {
    v.is_sql_null()
}

/// `Value::as_bool`: the value cast to `bool`, `None` when DuckDB cannot. Nothing is claimed of
/// what DuckDB holds.
#[verifier::external_body]
fn value_as_bool(v: &Value) -> (r: Option<bool>) {
    v.as_bool()
}

/// `Value::as_i8`: the value cast to `i8`, `None` when DuckDB cannot. Nothing is claimed of
/// what DuckDB holds.
#[verifier::external_body]
fn value_as_i8(v: &Value) -> (r: Option<i8>) {
    v.as_i8()
}

/// `Value::as_i16`: the value cast to `i16`, `None` when DuckDB cannot. Nothing is claimed of
/// what DuckDB holds.
#[verifier::external_body]
fn value_as_i16(v: &Value) -> (r: Option<i16>) {
    v.as_i16()
}

/// `Value::as_i32`: the value cast to `i32`, `None` when DuckDB cannot. Nothing is claimed of
/// what DuckDB holds.
#[verifier::external_body]
fn value_as_i32(v: &Value) -> (r: Option<i32>) {
    v.as_i32()
}

/// `Value::as_i64`: the value cast to `i64`, `None` when DuckDB cannot. Nothing is claimed of
/// what DuckDB holds.
#[verifier::external_body]
fn value_as_i64(v: &Value) -> (r: Option<i64>) {
    v.as_i64()
}

/// `Value::as_i128`: the value cast to `i128`, `None` when DuckDB cannot. Nothing is claimed of
/// what DuckDB holds.
#[verifier::external_body]
fn value_as_i128(v: &Value) -> (r: Option<i128>) {
    v.as_i128()
}

/// `Value::as_u8`: the value cast to `u8`, `None` when DuckDB cannot. Nothing is claimed of
/// what DuckDB holds.
#[verifier::external_body]
fn value_as_u8(v: &Value) -> (r: Option<u8>) {
    v.as_u8()
}

/// `Value::as_u16`: the value cast to `u16`, `None` when DuckDB cannot. Nothing is claimed of
/// what DuckDB holds.
#[verifier::external_body]
fn value_as_u16(v: &Value) -> (r: Option<u16>) {
    v.as_u16()
}

/// `Value::as_u32`: the value cast to `u32`, `None` when DuckDB cannot. Nothing is claimed of
/// what DuckDB holds.
#[verifier::external_body]
fn value_as_u32(v: &Value) -> (r: Option<u32>) {
    v.as_u32()
}

/// `Value::as_u64`: the value cast to `u64`, `None` when DuckDB cannot. Nothing is claimed of
/// what DuckDB holds.
#[verifier::external_body]
fn value_as_u64(v: &Value) -> (r: Option<u64>) {
    v.as_u64()
}

/// `Value::as_u128`: the value cast to `u128`, `None` when DuckDB cannot. Nothing is claimed of
/// what DuckDB holds.
#[verifier::external_body]
fn value_as_u128(v: &Value) -> (r: Option<u128>) {
    v.as_u128()
}

/// `Value::as_date`: the value cast to `i32`, `None` when DuckDB cannot. Nothing is claimed of
/// what DuckDB holds.
#[verifier::external_body]
fn value_as_date(v: &Value) -> (r: Option<i32>) {
    v.as_date()
}

/// `Value::as_time`: the value cast to `i64`, `None` when DuckDB cannot. Nothing is claimed of
/// what DuckDB holds.
#[verifier::external_body]
fn value_as_time(v: &Value) -> (r: Option<i64>) {
    v.as_time()
}

/// `Value::as_time_tz`: the value cast to `u64`, `None` when DuckDB cannot. Nothing is claimed of
/// what DuckDB holds.
#[verifier::external_body]
fn value_as_time_tz(v: &Value) -> (r: Option<u64>) {
    v.as_time_tz()
}

/// `Value::as_timestamp`: the value cast to `i64`, `None` when DuckDB cannot. Nothing is claimed of
/// what DuckDB holds.
#[verifier::external_body]
fn value_as_timestamp(v: &Value) -> (r: Option<i64>) {
    v.as_timestamp()
}

/// `Value::as_timestamp_tz`: the value cast to `i64`, `None` when DuckDB cannot. Nothing is claimed of
/// what DuckDB holds.
#[verifier::external_body]
fn value_as_timestamp_tz(v: &Value) -> (r: Option<i64>) {
    v.as_timestamp_tz()
}

/// `Value::as_timestamp_s`: the value cast to `i64`, `None` when DuckDB cannot. Nothing is claimed of
/// what DuckDB holds.
#[verifier::external_body]
fn value_as_timestamp_s(v: &Value) -> (r: Option<i64>) {
    v.as_timestamp_s()
}

/// `Value::as_timestamp_ms`: the value cast to `i64`, `None` when DuckDB cannot. Nothing is claimed of
/// what DuckDB holds.
#[verifier::external_body]
fn value_as_timestamp_ms(v: &Value) -> (r: Option<i64>) {
    v.as_timestamp_ms()
}

/// `Value::as_timestamp_ns`: the value cast to `i64`, `None` when DuckDB cannot. Nothing is claimed of
/// what DuckDB holds.
#[verifier::external_body]
fn value_as_timestamp_ns(v: &Value) -> (r: Option<i64>) {
    v.as_timestamp_ns()
}

/// `Value::as_uuid`: the value cast to `u128`, `None` when DuckDB cannot. Nothing is claimed of
/// what DuckDB holds.
#[verifier::external_body]
fn value_as_uuid(v: &Value) -> (r: Option<u128>) {
    v.as_uuid()
}

/// `Value::as_f32`, kept by its IEEE-754 bits (`f32::to_bits`). Nothing is claimed of what DuckDB
/// holds.
#[verifier::external_body]
fn value_as_f32_bits(v: &Value) -> (r: Option<u32>) {
    match v.as_f32() {
        Some(x) => Some(x.to_bits()),
        None => None,
    }
}

/// `Value::as_f64`, kept by its IEEE-754 bits (`f64::to_bits`). Nothing is claimed of what DuckDB
/// holds.
#[verifier::external_body]
fn value_as_f64_bits(v: &Value) -> (r: Option<u64>) {
    match v.as_f64() {
        Some(x) => Some(x.to_bits()),
        None => None,
    }
}

/// `Value::as_str`; an error is kept by its message (`ExtensionError::as_str`). Nothing is claimed
/// of what DuckDB holds.
#[verifier::external_body]
fn value_as_string(v: &Value) -> (r: Result<String, String>) {
    v.as_str().map_err(|e| e.as_str().to_owned())
}

/// `Value::as_blob`; an error is kept by its message (`ExtensionError::as_str`). Nothing is claimed
/// of what DuckDB holds.
#[verifier::external_body]
fn value_as_blob(v: &Value) -> (r: Result<Vec<u8>, String>) {
    v.as_blob().map_err(|e| e.as_str().to_owned())
}

/// `Value::as_interval`, field by field. Nothing is claimed of what DuckDB holds.
#[verifier::external_body]
fn value_as_interval(v: &Value) -> (r: Option<DuckInterval>) {
    match v.as_interval() {
        Some(i) => Some(DuckInterval { months: i.months, days: i.days, micros: i.micros }),
        None => None,
    }
}

/// `Value::as_decimal`: width, scale and unscaled value. Nothing is claimed of what DuckDB holds.
#[verifier::external_body]
fn value_as_decimal(v: &Value) -> (r: Option<(u8, u8, i128)>) {
    match v.as_decimal() {
        Some(d) => Some((d.width, d.scale, d.value)),
        None => None,
    }
}

/// `Value::list_items`: the elements of a `LIST` value. Nothing is claimed of what DuckDB holds.
#[verifier::external_body]
fn value_list_items(v: &Value) -> (r: Vec<Value>) {
    v.list_items()
}

/// `Value::struct_child`: field `index` of a `STRUCT` value, if DuckDB has one. Nothing is claimed
/// of what DuckDB holds.
#[verifier::external_body]
fn value_struct_child(v: &Value, index: usize) -> (r: Option<Value>) {
    v.struct_child(index)
}

/// `Value::map_len`: the number of entries of a `MAP` value. Nothing is claimed of what DuckDB
/// holds.
#[verifier::external_body]
fn value_map_len(v: &Value) -> (r: usize) {
    v.map_len()
}

/// `Value::map_key`: key `index` of a `MAP` value, if DuckDB has one. Nothing is claimed of what
/// DuckDB holds.
#[verifier::external_body]
fn value_map_key(v: &Value, index: usize) -> (r: Option<Value>) {
    v.map_key(index)
}

/// `Value::map_value`: value `index` of a `MAP` value, if DuckDB has one. Nothing is claimed of
/// what DuckDB holds.
#[verifier::external_body]
fn value_map_value(v: &Value, index: usize) -> (r: Option<Value>) {
    v.map_value(index)
}

/// What a dynamic value read as a description can be: a scalar of the described type, a
/// `DECIMAL` (of whatever width and scale DuckDB holds), or a `LIST` / `STRUCT` / `MAP` whose
/// non-NULL parts are, recursively, what their descriptions read as (a `STRUCT` with one slot per
/// field).
pub open spec fn read_shape(d: TypeDescModel, v: ValueModel) -> bool
    decreases d,
{
    match d {
        TypeDescModel::Scalar(t) => value_scalar_type_id(v) == Some(t),
        TypeDescModel::Decimal { .. } => v is Decimal,
        TypeDescModel::List(e) => match v {
            ValueModel::List(items) => forall|i: int|
                0 <= i < items.len() ==> (#[trigger] items[i] matches Some(x) ==> read_shape(*e, x)),
            _ => false,
        },
        TypeDescModel::Struct(fields) => match v {
            ValueModel::Struct(values) => {
                &&& fields.len() == values.len()
                &&& forall|i: int| 0 <= i < fields.len() ==> (#[trigger] values[i] matches Some(x) ==> {
                    proof {
                        assert(decreases_to!(fields => fields[i]));
                    }
                    read_shape(fields[i].1, x)
                })
            },
            _ => false,
        },
        TypeDescModel::MapOf(k, mv) => match v {
            ValueModel::MapOf(pairs) => forall|i: int|
                0 <= i < pairs.len() ==> read_shape(*k, #[trigger] pairs[i].0) && read_shape(*mv, pairs[i].1),
            _ => false,
        },
    }
}

/// The message for a value DuckDB cannot give as the type a description asks for.
pub open spec fn unreadable_value_message(d: TypeDescModel) -> Seq<char> {
    "dynamic table function: cannot read the value as "@ + crate::type_desc::desc_text(d)
}

/// The error for a value DuckDB cannot give as the type a description asks for.
fn unreadable_value(desc: &DuckTypeDesc) -> (e: crate::error::DuckError)
    ensures
        e.spec_message() == unreadable_value_message(desc@),
{
    let mut m = String::from_str("dynamic table function: cannot read the value as ");
    m.append(desc.to_sql_string().as_str());
    duck_error_owned(m)
}

/// Reads a scalar of type `t` out of a (non-NULL) value.
fn read_scalar(value: &Value, t: TypeId, desc: &DuckTypeDesc) -> (r: DuckResult<DuckDynamicValue>)
    ensures
        r matches Ok(v) ==> value_scalar_type_id(v@) == Some(t),
{
    let v = match t {
        TypeId::Boolean => match value_as_bool(value) {
            Some(x) => DuckDynamicValue::Boolean(x),
            None => return Err(unreadable_value(desc)),
        },
        TypeId::TinyInt => match value_as_i8(value) {
            Some(x) => DuckDynamicValue::TinyInt(x),
            None => return Err(unreadable_value(desc)),
        },
        TypeId::SmallInt => match value_as_i16(value) {
            Some(x) => DuckDynamicValue::SmallInt(x),
            None => return Err(unreadable_value(desc)),
        },
        TypeId::Integer => match value_as_i32(value) {
            Some(x) => DuckDynamicValue::Integer(x),
            None => return Err(unreadable_value(desc)),
        },
        TypeId::BigInt => match value_as_i64(value) {
            Some(x) => DuckDynamicValue::BigInt(x),
            None => return Err(unreadable_value(desc)),
        },
        TypeId::HugeInt => match value_as_i128(value) {
            Some(x) => DuckDynamicValue::HugeInt(x),
            None => return Err(unreadable_value(desc)),
        },
        TypeId::UTinyInt => match value_as_u8(value) {
            Some(x) => DuckDynamicValue::UTinyInt(x),
            None => return Err(unreadable_value(desc)),
        },
        TypeId::USmallInt => match value_as_u16(value) {
            Some(x) => DuckDynamicValue::USmallInt(x),
            None => return Err(unreadable_value(desc)),
        },
        TypeId::UInteger => match value_as_u32(value) {
            Some(x) => DuckDynamicValue::UInteger(x),
            None => return Err(unreadable_value(desc)),
        },
        TypeId::UBigInt => match value_as_u64(value) {
            Some(x) => DuckDynamicValue::UBigInt(x),
            None => return Err(unreadable_value(desc)),
        },
        TypeId::UHugeInt => match value_as_u128(value) {
            Some(x) => DuckDynamicValue::UHugeInt(x),
            None => return Err(unreadable_value(desc)),
        },
        TypeId::Date => match value_as_date(value) {
            Some(x) => DuckDynamicValue::Date(x),
            None => return Err(unreadable_value(desc)),
        },
        TypeId::Time => match value_as_time(value) {
            Some(x) => DuckDynamicValue::Time(x),
            None => return Err(unreadable_value(desc)),
        },
        TypeId::TimeTz => match value_as_time_tz(value) {
            Some(x) => DuckDynamicValue::TimeTz(x),
            None => return Err(unreadable_value(desc)),
        },
        TypeId::Timestamp => match value_as_timestamp(value) {
            Some(x) => DuckDynamicValue::Timestamp(x),
            None => return Err(unreadable_value(desc)),
        },
        TypeId::TimestampTz => match value_as_timestamp_tz(value) {
            Some(x) => DuckDynamicValue::TimestampTz(x),
            None => return Err(unreadable_value(desc)),
        },
        TypeId::TimestampS => match value_as_timestamp_s(value) {
            Some(x) => DuckDynamicValue::TimestampS(x),
            None => return Err(unreadable_value(desc)),
        },
        TypeId::TimestampMs => match value_as_timestamp_ms(value) {
            Some(x) => DuckDynamicValue::TimestampMs(x),
            None => return Err(unreadable_value(desc)),
        },
        TypeId::TimestampNs => match value_as_timestamp_ns(value) {
            Some(x) => DuckDynamicValue::TimestampNs(x),
            None => return Err(unreadable_value(desc)),
        },
        TypeId::Uuid => match value_as_uuid(value) {
            Some(x) => DuckDynamicValue::Uuid(x),
            None => return Err(unreadable_value(desc)),
        },
        TypeId::Float => match value_as_f32_bits(value) {
            Some(x) => DuckDynamicValue::Float(x),
            None => return Err(unreadable_value(desc)),
        },
        TypeId::Double => match value_as_f64_bits(value) {
            Some(x) => DuckDynamicValue::Double(x),
            None => return Err(unreadable_value(desc)),
        },
        TypeId::Varchar => match value_as_string(value) {
            Ok(x) => DuckDynamicValue::Varchar(x),
            Err(m) => return Err(duck_error_owned(m)),
        },
        TypeId::Blob => match value_as_blob(value) {
            Ok(x) => DuckDynamicValue::Blob(x),
            Err(m) => return Err(duck_error_owned(m)),
        },
        TypeId::Interval => match value_as_interval(value) {
            Some(x) => DuckDynamicValue::Interval(x),
            None => return Err(unreadable_value(desc)),
        },
        _ => return Err(unreadable_value(desc)),
    };
    Ok(v)
}

/// The `DECIMAL` a value holds, from the parts DuckDB reports for it: its width, its scale and its
/// unscaled value, each kept in its own field.
pub fn decimal_from_parts(parts: (u8, u8, i128)) -> (v: DuckDynamicValue)
    ensures
        v@ matches ValueModel::Decimal { width, scale, unscaled } && width == parts.0 && scale == parts.1 && unscaled == parts.2,
{
    let (width, scale, unscaled) = parts;
    DuckDynamicValue::Decimal { width, scale, unscaled }
}

/// Reads a dynamic value out of a DuckDB value (bind arguments, self-describing external data) as
/// a column description says; SQL NULL reads as `None`, at every level.
///
/// A description with no typed read is an error, and so is a value DuckDB cannot give as the
/// described type, a failed text read, or a NULL `MAP` key or value. What DuckDB holds decides the
/// rest: whatever is read has the shape the description calls for.
pub fn from_duck_value(value: &Value, desc: &DuckTypeDesc) -> (r: DuckResult<Option<DuckDynamicValue>>)
    ensures
        r matches Ok(Some(v)) ==> read_shape(desc@, v@),
        read_kind_of(desc@) is Err ==> !(r matches Ok(Some(_))),
    decreases desc,
{
    if value_is_sql_null(value) {
        return Ok(None);
    }
    let kind = match read_kind(desc) {
        Ok(k) => k,
        Err(e) => {
            return Err(e);
        },
    };
    let dynamic = match kind {
        ReadKind::Scalar(t) => {
            let v = read_scalar(value, t, desc);
            match v {
                Ok(x) => x,
                Err(e) => {
                    return Err(e);
                },
            }
        },
        ReadKind::Decimal => match value_as_decimal(value) {
            Some(parts) => decimal_from_parts(parts),
            None => {
                return Err(unreadable_value(desc));
            },
        },
        ReadKind::List => {
            let element = match desc {
                DuckTypeDesc::List(e) => e,
                _ => {
                    return Err(unreadable_value(desc));
                },
            };
            let children = value_list_items(value);
            let mut items: Vec<Option<DuckDynamicValue>> = Vec::new();
            let mut i: usize = 0;
            while i < children.len()
                invariant
                    0 <= i <= children@.len(),
                    *desc == DuckTypeDesc::List(*element),
                    items@.len() == i,
                    forall|j: int| 0 <= j < i ==> (#[trigger] items@[j] matches Some(x) ==> read_shape(element@, x@)),
                decreases children@.len() - i,
            {
                let item = from_duck_value(&children[i], element);
                match item {
                    Ok(x) => items.push(x),
                    Err(e) => {
                        return Err(e);
                    },
                }
                i = i + 1;
            }
            let v = DuckDynamicValue::List(items);
            proof {
                assert forall|j: int| 0 <= j < v@->List_0.len() implies
                    (#[trigger] v@->List_0[j] matches Some(x) ==> read_shape(element@, x)) by {
                    assert(v@->List_0[j] == crate::dynamic_value::option_model(items@[j]));
                }
            }
            v
        },
        ReadKind::Struct => {
            let fields = match desc {
                DuckTypeDesc::Struct(f) => f,
                _ => {
                    return Err(unreadable_value(desc));
                },
            };
            let ghost fm = desc@->Struct_0;
            let mut values: Vec<Option<DuckDynamicValue>> = Vec::new();
            let mut i: usize = 0;
            while i < fields.len()
                invariant
                    0 <= i <= fields@.len(),
                    *desc == DuckTypeDesc::Struct(*fields),
                    fm == desc@->Struct_0,
                    fm.len() == fields@.len(),
                    values@.len() == i,
                    forall|j: int| 0 <= j < i ==> (#[trigger] values@[j] matches Some(x) ==> read_shape(fm[j].1, x@)),
                decreases fields@.len() - i,
            {
                assert(fm[i as int] == (fields@[i as int].0@, crate::type_desc::desc_model(fields@[i as int].1)));
                proof {
                    assert(decreases_to!(fields@ => fields@[i as int]));
                }
                match value_struct_child(value, i) {
                    Some(child) => {
                        let read = from_duck_value(&child, &fields[i].1);
                        match read {
                            Ok(x) => values.push(x),
                            Err(e) => {
                                return Err(e);
                            },
                        }
                    },
                    None => values.push(None),
                }
                i = i + 1;
            }
            let v = DuckDynamicValue::Struct(values);
            proof {
                assert forall|j: int| 0 <= j < fm.len() implies
                    (#[trigger] v@->Struct_0[j] matches Some(x) ==> read_shape(fm[j].1, x)) by {
                    assert(v@->Struct_0[j] == crate::dynamic_value::option_model(values@[j]));
                }
            }
            v
        },
        ReadKind::MapOf => {
            let (key_desc, value_desc) = match desc {
                DuckTypeDesc::MapOf(k, v) => (k, v),
                _ => {
                    return Err(unreadable_value(desc));
                },
            };
            let n = value_map_len(value);
            let mut pairs: Vec<(DuckDynamicValue, DuckDynamicValue)> = Vec::new();
            let mut i: usize = 0;
            while i < n
                invariant
                    0 <= i <= n,
                    *desc == DuckTypeDesc::MapOf(*key_desc, *value_desc),
                    pairs@.len() == i,
                    forall|j: int| 0 <= j < i ==> read_shape(key_desc@, (#[trigger] pairs@[j]).0@) && read_shape(value_desc@, pairs@[j].1@),
                decreases n - i,
            {
                let key = match value_map_key(value, i) {
                    Some(k) => match from_duck_value(&k, key_desc) {
                        Ok(x) => x,
                        Err(e) => {
                            return Err(e);
                        },
                    },
                    None => None,
                };
                let key = match require_map_key(key) {
                    Ok(k) => k,
                    Err(e) => {
                        return Err(e);
                    },
                };
                let entry = match value_map_value(value, i) {
                    Some(m) => match from_duck_value(&m, value_desc) {
                        Ok(x) => x,
                        Err(e) => {
                            return Err(e);
                        },
                    },
                    None => None,
                };
                let entry = match require_map_value(entry) {
                    Ok(m) => m,
                    Err(e) => {
                        return Err(e);
                    },
                };
                pairs.push((key, entry));
                i = i + 1;
            }
            let v = DuckDynamicValue::MapOf(pairs);
            proof {
                assert forall|j: int| 0 <= j < v@->MapOf_0.len() implies
                    read_shape(key_desc@, (#[trigger] v@->MapOf_0[j]).0) && read_shape(value_desc@, v@->MapOf_0[j].1) by {
                    assert(v@->MapOf_0[j] == (crate::dynamic_value::value_model(pairs@[j].0), crate::dynamic_value::value_model(pairs@[j].1)));
                }
            }
            v
        },
    };
    Ok(Some(dynamic))
}

} // verus!
