//! Runtime values of dynamic columns: data only, never types.
//!
//! The type of a value always comes from the column's [`DuckTypeDesc`](crate::type_desc::DuckTypeDesc);
//! a value carries nothing but its data, and every `Option` slot stands for SQL NULL.

use vstd::prelude::*;
use vstd::std_specs::convert::FromSpecImpl;
use crate::type_id::TypeId;
use crate::type_desc::{DuckTypeDesc, TypeDescModel};

verus! {

/// An `INTERVAL`: months, days and microseconds, none of them folded into another.
#[derive(Clone, Copy, Debug, PartialEq, Eq, Structural)]
pub struct DuckInterval {
    /// Calendar months.
    pub months: i32,
    /// Calendar days.
    pub days: i32,
    /// Microseconds.
    pub micros: i64,
}

/// A runtime dynamic value: it carries data, not types.
#[derive(Debug)]
pub enum DuckDynamicValue {
    /// `BOOLEAN`.
    Boolean(bool),
    /// `TINYINT`.
    TinyInt(i8),
    /// `SMALLINT`.
    SmallInt(i16),
    /// `INTEGER`.
    Integer(i32),
    /// `BIGINT`.
    BigInt(i64),
    /// `HUGEINT`.
    HugeInt(i128),
    /// `UTINYINT`.
    UTinyInt(u8),
    /// `USMALLINT`.
    USmallInt(u16),
    /// `UINTEGER`.
    UInteger(u32),
    /// `UBIGINT`.
    UBigInt(u64),
    /// `UHUGEINT`.
    UHugeInt(u128),
    /// `FLOAT`, held as the IEEE-754 bits of the `f32` (`f32::to_bits`).
    Float(u32),
    /// `DOUBLE`, held as the IEEE-754 bits of the `f64` (`f64::to_bits`).
    Double(u64),
    /// `VARCHAR`.
    Varchar(String),
    /// `BLOB`.
    Blob(Vec<u8>),
    /// `DATE` (days since 1970-01-01).
    Date(i32),
    /// `TIME` (microseconds since 00:00:00).
    Time(i64),
    /// `TIME WITH TIME ZONE` (bit-packed).
    TimeTz(u64),
    /// `TIMESTAMP` (microseconds since the epoch).
    Timestamp(i64),
    /// `TIMESTAMP WITH TIME ZONE` (milliseconds since the epoch).
    TimestampTz(i64),
    /// `TIMESTAMP_S`.
    TimestampS(i64),
    /// `TIMESTAMP_MS`.
    TimestampMs(i64),
    /// `TIMESTAMP_NS`.
    TimestampNs(i64),
    /// `UUID`.
    Uuid(u128),
    /// `INTERVAL`.
    Interval(DuckInterval),
    /// `DECIMAL(width, scale)`; the value is the unscaled integer `unscaled / 10^scale`.
    Decimal {
        /// Total number of significant digits (must match the column description).
        width: u8,
        /// Number of digits after the decimal point (must match the column description).
        scale: u8,
        /// The unscaled integer.
        unscaled: i128,
    },
    /// `LIST`; elements may be NULL.
    List(Vec<Option<DuckDynamicValue>>),
    /// `STRUCT`; the field order matches the column description.
    Struct(Vec<Option<DuckDynamicValue>>),
    /// `MAP`; keys are never NULL, and neither are the values held here.
    MapOf(Vec<(DuckDynamicValue, DuckDynamicValue)>),
}

/// The mathematical content of a [`DuckDynamicValue`].
pub enum ValueModel {
    Boolean(bool),
    TinyInt(i8),
    SmallInt(i16),
    Integer(i32),
    BigInt(i64),
    HugeInt(i128),
    UTinyInt(u8),
    USmallInt(u16),
    UInteger(u32),
    UBigInt(u64),
    UHugeInt(u128),
    Float(u32),
    Double(u64),
    Varchar(Seq<char>),
    Blob(Seq<u8>),
    Date(i32),
    Time(i64),
    TimeTz(u64),
    Timestamp(i64),
    TimestampTz(i64),
    TimestampS(i64),
    TimestampMs(i64),
    TimestampNs(i64),
    Uuid(u128),
    Interval(DuckInterval),
    Decimal { width: u8, scale: u8, unscaled: i128 },
    List(Seq<Option<ValueModel>>),
    Struct(Seq<Option<ValueModel>>),
    MapOf(Seq<(ValueModel, ValueModel)>),
}

/// The model of an optional value.
pub open spec fn option_model(v: Option<DuckDynamicValue>) -> Option<ValueModel>
    decreases v,
{
    match v {
        Some(x) => Some(value_model(x)),
        None => None,
    }
}

/// The model of a value.
pub open spec fn value_model(v: DuckDynamicValue) -> ValueModel
    decreases v,
{
    match v {
        DuckDynamicValue::Boolean(x) => ValueModel::Boolean(x),
        DuckDynamicValue::TinyInt(x) => ValueModel::TinyInt(x),
        DuckDynamicValue::SmallInt(x) => ValueModel::SmallInt(x),
        DuckDynamicValue::Integer(x) => ValueModel::Integer(x),
        DuckDynamicValue::BigInt(x) => ValueModel::BigInt(x),
        DuckDynamicValue::HugeInt(x) => ValueModel::HugeInt(x),
        DuckDynamicValue::UTinyInt(x) => ValueModel::UTinyInt(x),
        DuckDynamicValue::USmallInt(x) => ValueModel::USmallInt(x),
        DuckDynamicValue::UInteger(x) => ValueModel::UInteger(x),
        DuckDynamicValue::UBigInt(x) => ValueModel::UBigInt(x),
        DuckDynamicValue::UHugeInt(x) => ValueModel::UHugeInt(x),
        DuckDynamicValue::Float(x) => ValueModel::Float(x),
        DuckDynamicValue::Double(x) => ValueModel::Double(x),
        DuckDynamicValue::Varchar(x) => ValueModel::Varchar(x@),
        DuckDynamicValue::Blob(x) => ValueModel::Blob(x@),
        DuckDynamicValue::Date(x) => ValueModel::Date(x),
        DuckDynamicValue::Time(x) => ValueModel::Time(x),
        DuckDynamicValue::TimeTz(x) => ValueModel::TimeTz(x),
        DuckDynamicValue::Timestamp(x) => ValueModel::Timestamp(x),
        DuckDynamicValue::TimestampTz(x) => ValueModel::TimestampTz(x),
        DuckDynamicValue::TimestampS(x) => ValueModel::TimestampS(x),
        DuckDynamicValue::TimestampMs(x) => ValueModel::TimestampMs(x),
        DuckDynamicValue::TimestampNs(x) => ValueModel::TimestampNs(x),
        DuckDynamicValue::Uuid(x) => ValueModel::Uuid(x),
        DuckDynamicValue::Interval(x) => ValueModel::Interval(x),
        DuckDynamicValue::Decimal { width, scale, unscaled } => ValueModel::Decimal { width, scale, unscaled },
        DuckDynamicValue::List(items) => ValueModel::List(Seq::new(items@.len(), |i: int| {
            if 0 <= i < items@.len() {
                proof {
                    assert(decreases_to!(items => items@));
                    assert(decreases_to!(items@ => items@[i]));
                }
                option_model(items@[i])
            } else {
                None
            }
        })),
        DuckDynamicValue::Struct(items) => ValueModel::Struct(Seq::new(items@.len(), |i: int| {
            if 0 <= i < items@.len() {
                proof {
                    assert(decreases_to!(items => items@));
                    assert(decreases_to!(items@ => items@[i]));
                }
                option_model(items@[i])
            } else {
                None
            }
        })),
        DuckDynamicValue::MapOf(pairs) => ValueModel::MapOf(Seq::new(pairs@.len(), |i: int| {
            if 0 <= i < pairs@.len() {
                proof {
                    assert(decreases_to!(pairs => pairs@));
                    assert(decreases_to!(pairs@ => pairs@[i]));
                }
                (value_model(pairs@[i].0), value_model(pairs@[i].1))
            } else {
                (ValueModel::Boolean(false), ValueModel::Boolean(false))
            }
        })),
    }
}

impl View for DuckDynamicValue {
    type V = ValueModel;

    open spec fn view(&self) -> ValueModel {
        value_model(*self)
    }
}

/// The type id of a value: `LIST` / `STRUCT` / `MAP` for nested ones.
pub open spec fn value_type_id(v: ValueModel) -> TypeId {
    match v {
        ValueModel::Boolean(_) => TypeId::Boolean,
        ValueModel::TinyInt(_) => TypeId::TinyInt,
        ValueModel::SmallInt(_) => TypeId::SmallInt,
        ValueModel::Integer(_) => TypeId::Integer,
        ValueModel::BigInt(_) => TypeId::BigInt,
        ValueModel::HugeInt(_) => TypeId::HugeInt,
        ValueModel::UTinyInt(_) => TypeId::UTinyInt,
        ValueModel::USmallInt(_) => TypeId::USmallInt,
        ValueModel::UInteger(_) => TypeId::UInteger,
        ValueModel::UBigInt(_) => TypeId::UBigInt,
        ValueModel::UHugeInt(_) => TypeId::UHugeInt,
        ValueModel::Float(_) => TypeId::Float,
        ValueModel::Double(_) => TypeId::Double,
        ValueModel::Varchar(_) => TypeId::Varchar,
        ValueModel::Blob(_) => TypeId::Blob,
        ValueModel::Date(_) => TypeId::Date,
        ValueModel::Time(_) => TypeId::Time,
        ValueModel::TimeTz(_) => TypeId::TimeTz,
        ValueModel::Timestamp(_) => TypeId::Timestamp,
        ValueModel::TimestampTz(_) => TypeId::TimestampTz,
        ValueModel::TimestampS(_) => TypeId::TimestampS,
        ValueModel::TimestampMs(_) => TypeId::TimestampMs,
        ValueModel::TimestampNs(_) => TypeId::TimestampNs,
        ValueModel::Uuid(_) => TypeId::Uuid,
        ValueModel::Interval(_) => TypeId::Interval,
        ValueModel::Decimal { .. } => TypeId::Decimal,
        ValueModel::List(_) => TypeId::List,
        ValueModel::Struct(_) => TypeId::Struct,
        ValueModel::MapOf(_) => TypeId::MapType,
    }
}

/// Whether a value is nested (`LIST`, `STRUCT` or `MAP`).
pub open spec fn is_nested_value(v: ValueModel) -> bool {
    v is List || v is Struct || v is MapOf
}

/// The type id of a scalar value; `None` for a nested one.
pub open spec fn value_scalar_type_id(v: ValueModel) -> Option<TypeId> {
    if is_nested_value(v) {
        None
    } else {
        Some(value_type_id(v))
    }
}

/// The description of a scalar value; a nested value degrades to `Scalar` of its type id.
pub open spec fn value_scalar_type_desc(v: ValueModel) -> TypeDescModel {
    match v {
        ValueModel::Decimal { width, scale, .. } => TypeDescModel::Decimal { width, scale },
        _ => TypeDescModel::Scalar(value_type_id(v)),
    }
}

impl DuckDynamicValue {
    /// Builds a `LIST` value.
    pub fn list(items: Vec<Option<DuckDynamicValue>>) -> (v: DuckDynamicValue)
        ensures
            v == DuckDynamicValue::List(items),
    {
        DuckDynamicValue::List(items)
    }

    /// Builds a `STRUCT` value (the field order must match the column description).
    pub fn struct_value(fields: Vec<Option<DuckDynamicValue>>) -> (v: DuckDynamicValue)
        ensures
            v == DuckDynamicValue::Struct(fields),
    {
        DuckDynamicValue::Struct(fields)
    }

    /// Builds a `MAP` value.
    pub fn map(pairs: Vec<(DuckDynamicValue, DuckDynamicValue)>) -> (v: DuckDynamicValue)
        ensures
            v == DuckDynamicValue::MapOf(pairs),
    {
        DuckDynamicValue::MapOf(pairs)
    }

    /// The DuckDB type id of this value (`LIST` / `STRUCT` / `MAP` for nested ones).
    pub fn type_id(&self) -> (t: TypeId)
        ensures
            t == value_type_id(self@),
    {
        match self {
            DuckDynamicValue::Boolean(_) => TypeId::Boolean,
            DuckDynamicValue::TinyInt(_) => TypeId::TinyInt,
            DuckDynamicValue::SmallInt(_) => TypeId::SmallInt,
            DuckDynamicValue::Integer(_) => TypeId::Integer,
            DuckDynamicValue::BigInt(_) => TypeId::BigInt,
            DuckDynamicValue::HugeInt(_) => TypeId::HugeInt,
            DuckDynamicValue::UTinyInt(_) => TypeId::UTinyInt,
            DuckDynamicValue::USmallInt(_) => TypeId::USmallInt,
            DuckDynamicValue::UInteger(_) => TypeId::UInteger,
            DuckDynamicValue::UBigInt(_) => TypeId::UBigInt,
            DuckDynamicValue::UHugeInt(_) => TypeId::UHugeInt,
            DuckDynamicValue::Float(_) => TypeId::Float,
            DuckDynamicValue::Double(_) => TypeId::Double,
            DuckDynamicValue::Varchar(_) => TypeId::Varchar,
            DuckDynamicValue::Blob(_) => TypeId::Blob,
            DuckDynamicValue::Date(_) => TypeId::Date,
            DuckDynamicValue::Time(_) => TypeId::Time,
            DuckDynamicValue::TimeTz(_) => TypeId::TimeTz,
            DuckDynamicValue::Timestamp(_) => TypeId::Timestamp,
            DuckDynamicValue::TimestampTz(_) => TypeId::TimestampTz,
            DuckDynamicValue::TimestampS(_) => TypeId::TimestampS,
            DuckDynamicValue::TimestampMs(_) => TypeId::TimestampMs,
            DuckDynamicValue::TimestampNs(_) => TypeId::TimestampNs,
            DuckDynamicValue::Uuid(_) => TypeId::Uuid,
            DuckDynamicValue::Interval(_) => TypeId::Interval,
            DuckDynamicValue::Decimal { .. } => TypeId::Decimal,
            DuckDynamicValue::List(_) => TypeId::List,
            DuckDynamicValue::Struct(_) => TypeId::Struct,
            DuckDynamicValue::MapOf(_) => TypeId::MapType,
        }
    }

    /// Whether this value is nested (`LIST`, `STRUCT` or `MAP`).
    pub fn is_nested(&self) -> (b: bool)
        ensures
            b == is_nested_value(self@),
    {
        match self {
            DuckDynamicValue::List(_) | DuckDynamicValue::Struct(_) | DuckDynamicValue::MapOf(_) => true,
            _ => false,
        }
    }

    /// The type id of a scalar value; `None` for a nested value.
    pub fn scalar_type_id(&self) -> (t: Option<TypeId>)
        ensures
            t == value_scalar_type_id(self@),
    {
        if self.is_nested() {
            None
        } else {
            Some(self.type_id())
        }
    }

    /// The description of a scalar value; a nested value degrades to `Scalar(LIST/STRUCT/MAP)`
    /// (only ever used to name the offending type in an error message).
    pub fn scalar_type_desc(&self) -> (d: DuckTypeDesc)
        ensures
            d@ == value_scalar_type_desc(self@),
    {
        match self {
            DuckDynamicValue::Decimal { width, scale, .. } => DuckTypeDesc::Decimal { width: *width, scale: *scale },
            _ => DuckTypeDesc::Scalar(self.type_id()),
        }
    }
}

impl From<bool> for DuckDynamicValue {
    /// `bool` → `BOOLEAN`.
    fn from(value: bool) -> (v: DuckDynamicValue) {
        DuckDynamicValue::Boolean(value)
    }
}

impl FromSpecImpl<bool> for DuckDynamicValue {
    open spec fn obeys_from_spec() -> bool {
        true
    }

    open spec fn from_spec(value: bool) -> DuckDynamicValue {
        DuckDynamicValue::Boolean(value)
    }
}

impl From<i16> for DuckDynamicValue {
    /// `i16` → `SMALLINT`.
    fn from(value: i16) -> (v: DuckDynamicValue) {
        DuckDynamicValue::SmallInt(value)
    }
}

impl FromSpecImpl<i16> for DuckDynamicValue {
    open spec fn obeys_from_spec() -> bool {
        true
    }

    open spec fn from_spec(value: i16) -> DuckDynamicValue {
        DuckDynamicValue::SmallInt(value)
    }
}

impl From<i32> for DuckDynamicValue {
    /// `i32` → `INTEGER`.
    fn from(value: i32) -> (v: DuckDynamicValue) {
        DuckDynamicValue::Integer(value)
    }
}

impl FromSpecImpl<i32> for DuckDynamicValue {
    open spec fn obeys_from_spec() -> bool {
        true
    }

    open spec fn from_spec(value: i32) -> DuckDynamicValue {
        DuckDynamicValue::Integer(value)
    }
}

impl From<i64> for DuckDynamicValue {
    /// `i64` → `BIGINT`.
    fn from(value: i64) -> (v: DuckDynamicValue) {
        DuckDynamicValue::BigInt(value)
    }
}

impl FromSpecImpl<i64> for DuckDynamicValue {
    open spec fn obeys_from_spec() -> bool {
        true
    }

    open spec fn from_spec(value: i64) -> DuckDynamicValue {
        DuckDynamicValue::BigInt(value)
    }
}

impl From<String> for DuckDynamicValue {
    /// `String` → `VARCHAR`.
    fn from(value: String) -> (v: DuckDynamicValue) {
        DuckDynamicValue::Varchar(value)
    }
}

impl FromSpecImpl<String> for DuckDynamicValue {
    open spec fn obeys_from_spec() -> bool {
        true
    }

    open spec fn from_spec(value: String) -> DuckDynamicValue {
        DuckDynamicValue::Varchar(value)
    }
}

impl DuckDynamicValue {
    /// A `VARCHAR` value holding a copy of the text (what `From<&str>` gives).
    pub fn varchar(text: &str) -> (v: DuckDynamicValue)
        ensures
            v@ == ValueModel::Varchar(text@),
    {
        DuckDynamicValue::Varchar(text.to_owned())
    }
}

} // verus!
