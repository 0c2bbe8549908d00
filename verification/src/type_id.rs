//! The DuckDB column type ids, as plain values.
//!
//! Every id has a fixed code in DuckDB's C API (`DUCKDB_TYPE_*`); the codes are how ids cross the
//! boundary to the C API, and how the SQL name of an id is looked up in `quack-rs`.

use vstd::prelude::*;

verus! {

/// Identifies a DuckDB column type.
#[derive(Clone, Copy, Debug, PartialEq, Eq, Structural)]
pub enum TypeId {
    /// `BOOLEAN` (C API code 1).
    Boolean,
    /// `TINYINT` (C API code 2).
    TinyInt,
    /// `SMALLINT` (C API code 3).
    SmallInt,
    /// `INTEGER` (C API code 4).
    Integer,
    /// `BIGINT` (C API code 5).
    BigInt,
    /// `UTINYINT` (C API code 6).
    UTinyInt,
    /// `USMALLINT` (C API code 7).
    USmallInt,
    /// `UINTEGER` (C API code 8).
    UInteger,
    /// `UBIGINT` (C API code 9).
    UBigInt,
    /// `FLOAT` (C API code 10).
    Float,
    /// `DOUBLE` (C API code 11).
    Double,
    /// `TIMESTAMP` (C API code 12).
    Timestamp,
    /// `DATE` (C API code 13).
    Date,
    /// `TIME` (C API code 14).
    Time,
    /// `INTERVAL` (C API code 15).
    Interval,
    /// `HUGEINT` (C API code 16).
    HugeInt,
    /// `VARCHAR` (C API code 17).
    Varchar,
    /// `BLOB` (C API code 18).
    Blob,
    /// `DECIMAL` (C API code 19).
    Decimal,
    /// `TIMESTAMP_S` (C API code 20).
    TimestampS,
    /// `TIMESTAMP_MS` (C API code 21).
    TimestampMs,
    /// `TIMESTAMP_NS` (C API code 22).
    TimestampNs,
    /// `ENUM` (C API code 23).
    Enum,
    /// `LIST` (C API code 24).
    List,
    /// `STRUCT` (C API code 25).
    Struct,
    /// `MAP` (C API code 26).
    MapType,
    /// `UUID` (C API code 27).
    Uuid,
    /// `UNION` (C API code 28).
    Union,
    /// `BIT` (C API code 29).
    Bit,
    /// `TIMETZ` (C API code 30).
    TimeTz,
    /// `TIMESTAMPTZ` (C API code 31).
    TimestampTz,
    /// `UHUGEINT` (C API code 32).
    UHugeInt,
    /// `ARRAY` (C API code 33).
    Array,
    /// `ANY` (C API code 34).
    Any,
    /// `BIGNUM` (C API code 35).
    Varint,
    /// `SQLNULL` (C API code 36).
    SqlNull,
    /// `STRING_LITERAL` (C API code 37).
    StringLiteral,
    /// `INTEGER_LITERAL` (C API code 38).
    IntegerLiteral,
    /// `TIME_NS` (C API code 39).
    TimeNs,
}

/// The C API code of a type id.
pub open spec fn spec_type_code(t: TypeId) -> u32 {
    match t {
        TypeId::Boolean => 1,
        TypeId::TinyInt => 2,
        TypeId::SmallInt => 3,
        TypeId::Integer => 4,
        TypeId::BigInt => 5,
        TypeId::UTinyInt => 6,
        TypeId::USmallInt => 7,
        TypeId::UInteger => 8,
        TypeId::UBigInt => 9,
        TypeId::Float => 10,
        TypeId::Double => 11,
        TypeId::Timestamp => 12,
        TypeId::Date => 13,
        TypeId::Time => 14,
        TypeId::Interval => 15,
        TypeId::HugeInt => 16,
        TypeId::Varchar => 17,
        TypeId::Blob => 18,
        TypeId::Decimal => 19,
        TypeId::TimestampS => 20,
        TypeId::TimestampMs => 21,
        TypeId::TimestampNs => 22,
        TypeId::Enum => 23,
        TypeId::List => 24,
        TypeId::Struct => 25,
        TypeId::MapType => 26,
        TypeId::Uuid => 27,
        TypeId::Union => 28,
        TypeId::Bit => 29,
        TypeId::TimeTz => 30,
        TypeId::TimestampTz => 31,
        TypeId::UHugeInt => 32,
        TypeId::Array => 33,
        TypeId::Any => 34,
        TypeId::Varint => 35,
        TypeId::SqlNull => 36,
        TypeId::StringLiteral => 37,
        TypeId::IntegerLiteral => 38,
        TypeId::TimeNs => 39,
    }
}

/// The type id a C API code stands for, if any: the codes 1 to 39.
pub open spec fn spec_type_from_code(code: u32) -> Option<TypeId> {
    if 1 <= code && code <= 39 {
        Some(choose|t: TypeId| spec_type_code(t) == code)
    } else {
        None
    }
}

/// The name `{:?}` gives a type id: the variant's name.
pub open spec fn spec_debug_name(t: TypeId) -> Seq<char> {
    match t {
        TypeId::Boolean => "Boolean"@,
        TypeId::TinyInt => "TinyInt"@,
        TypeId::SmallInt => "SmallInt"@,
        TypeId::Integer => "Integer"@,
        TypeId::BigInt => "BigInt"@,
        TypeId::UTinyInt => "UTinyInt"@,
        TypeId::USmallInt => "USmallInt"@,
        TypeId::UInteger => "UInteger"@,
        TypeId::UBigInt => "UBigInt"@,
        TypeId::Float => "Float"@,
        TypeId::Double => "Double"@,
        TypeId::Timestamp => "Timestamp"@,
        TypeId::Date => "Date"@,
        TypeId::Time => "Time"@,
        TypeId::Interval => "Interval"@,
        TypeId::HugeInt => "HugeInt"@,
        TypeId::Varchar => "Varchar"@,
        TypeId::Blob => "Blob"@,
        TypeId::Decimal => "Decimal"@,
        TypeId::TimestampS => "TimestampS"@,
        TypeId::TimestampMs => "TimestampMs"@,
        TypeId::TimestampNs => "TimestampNs"@,
        TypeId::Enum => "Enum"@,
        TypeId::List => "List"@,
        TypeId::Struct => "Struct"@,
        TypeId::MapType => "Map"@,
        TypeId::Uuid => "Uuid"@,
        TypeId::Union => "Union"@,
        TypeId::Bit => "Bit"@,
        TypeId::TimeTz => "TimeTz"@,
        TypeId::TimestampTz => "TimestampTz"@,
        TypeId::UHugeInt => "UHugeInt"@,
        TypeId::Array => "Array"@,
        TypeId::Any => "Any"@,
        TypeId::Varint => "Varint"@,
        TypeId::SqlNull => "SqlNull"@,
        TypeId::StringLiteral => "StringLiteral"@,
        TypeId::IntegerLiteral => "IntegerLiteral"@,
        TypeId::TimeNs => "TimeNs"@,
    }
}

/// The SQL name `quack-rs` gives the type id with a C API code (`TypeId::sql_name`); empty for a
/// code no id has.
pub open spec fn spec_sql_name(code: u32) -> Seq<char> {
    match code {
        1 => "BOOLEAN"@,
        2 => "TINYINT"@,
        3 => "SMALLINT"@,
        4 => "INTEGER"@,
        5 => "BIGINT"@,
        6 => "UTINYINT"@,
        7 => "USMALLINT"@,
        8 => "UINTEGER"@,
        9 => "UBIGINT"@,
        10 => "FLOAT"@,
        11 => "DOUBLE"@,
        12 => "TIMESTAMP"@,
        13 => "DATE"@,
        14 => "TIME"@,
        15 => "INTERVAL"@,
        16 => "HUGEINT"@,
        17 => "VARCHAR"@,
        18 => "BLOB"@,
        19 => "DECIMAL"@,
        20 => "TIMESTAMP_S"@,
        21 => "TIMESTAMP_MS"@,
        22 => "TIMESTAMP_NS"@,
        23 => "ENUM"@,
        24 => "LIST"@,
        25 => "STRUCT"@,
        26 => "MAP"@,
        27 => "UUID"@,
        28 => "UNION"@,
        29 => "BIT"@,
        30 => "TIMETZ"@,
        31 => "TIMESTAMPTZ"@,
        32 => "UHUGEINT"@,
        33 => "ARRAY"@,
        34 => "ANY"@,
        35 => "BIGNUM"@,
        36 => "SQLNULL"@,
        37 => "STRING_LITERAL"@,
        38 => "INTEGER_LITERAL"@,
        39 => "TIME_NS"@,
        _ => Seq::empty(),
    }
}

/// Looks up the SQL name of the type id with the given code through `quack-rs`
/// (`TypeId::from_duckdb_type` then `TypeId::sql_name`). Claimed: the name in `sql_name`'s table
/// for the id `from_duckdb_type` decodes the code to. `from_duckdb_type` panics on codes it does not know; 1 to 39 are all known in this
/// build, so the code is required to lie there.
#[verifier::external_body]
fn sql_name_of_code(code: u32) -> (name: &'static str)
    requires
        1 <= code <= 39,
    ensures
        name@ == spec_sql_name(code),
{
    quack_rs::types::TypeId::from_duckdb_type(code).sql_name()
}

/// Distinct ids have distinct codes, and every code lies in 1 to 39.
pub proof fn lemma_type_code_injective(a: TypeId, b: TypeId)
    ensures
        1 <= spec_type_code(a) <= 39,
        spec_type_code(a) == spec_type_code(b) ==> a == b,
{
}

/// The id with a given code in 1 to 39 (any id for another code).
spec fn id_with_code(code: u32) -> TypeId {
    match code {
        1 => TypeId::Boolean,
        2 => TypeId::TinyInt,
        3 => TypeId::SmallInt,
        4 => TypeId::Integer,
        5 => TypeId::BigInt,
        6 => TypeId::UTinyInt,
        7 => TypeId::USmallInt,
        8 => TypeId::UInteger,
        9 => TypeId::UBigInt,
        10 => TypeId::Float,
        11 => TypeId::Double,
        12 => TypeId::Timestamp,
        13 => TypeId::Date,
        14 => TypeId::Time,
        15 => TypeId::Interval,
        16 => TypeId::HugeInt,
        17 => TypeId::Varchar,
        18 => TypeId::Blob,
        19 => TypeId::Decimal,
        20 => TypeId::TimestampS,
        21 => TypeId::TimestampMs,
        22 => TypeId::TimestampNs,
        23 => TypeId::Enum,
        24 => TypeId::List,
        25 => TypeId::Struct,
        26 => TypeId::MapType,
        27 => TypeId::Uuid,
        28 => TypeId::Union,
        29 => TypeId::Bit,
        30 => TypeId::TimeTz,
        31 => TypeId::TimestampTz,
        32 => TypeId::UHugeInt,
        33 => TypeId::Array,
        34 => TypeId::Any,
        35 => TypeId::Varint,
        36 => TypeId::SqlNull,
        37 => TypeId::StringLiteral,
        38 => TypeId::IntegerLiteral,
        39 => TypeId::TimeNs,
        _ => TypeId::Boolean,
    }
}

/// A known code decodes to the id that has it.
pub proof fn lemma_type_from_code(code: u32)
    ensures
        spec_type_from_code(code) matches Some(t) ==> spec_type_code(t) == code,
        spec_type_from_code(code) is Some <==> 1 <= code <= 39,
{
    if 1 <= code <= 39 {
        assert(spec_type_code(id_with_code(code)) == code);
    }
}

/// Decoding the code of an id gives the id back.
pub proof fn lemma_type_code_round_trip(t: TypeId)
    ensures
        spec_type_from_code(spec_type_code(t)) == Some(t),
{
    let c = spec_type_code(t);
    let u = choose|u: TypeId| spec_type_code(u) == c;
    assert(spec_type_code(t) == c);
    lemma_type_code_injective(u, t);
}

impl TypeId {
    /// The C API code of this id (`DUCKDB_TYPE_*`).
    pub fn code(self) -> (c: u32)
        ensures
            c == spec_type_code(self),
    {
        match self {
            TypeId::Boolean => 1,
            TypeId::TinyInt => 2,
            TypeId::SmallInt => 3,
            TypeId::Integer => 4,
            TypeId::BigInt => 5,
            TypeId::UTinyInt => 6,
            TypeId::USmallInt => 7,
            TypeId::UInteger => 8,
            TypeId::UBigInt => 9,
            TypeId::Float => 10,
            TypeId::Double => 11,
            TypeId::Timestamp => 12,
            TypeId::Date => 13,
            TypeId::Time => 14,
            TypeId::Interval => 15,
            TypeId::HugeInt => 16,
            TypeId::Varchar => 17,
            TypeId::Blob => 18,
            TypeId::Decimal => 19,
            TypeId::TimestampS => 20,
            TypeId::TimestampMs => 21,
            TypeId::TimestampNs => 22,
            TypeId::Enum => 23,
            TypeId::List => 24,
            TypeId::Struct => 25,
            TypeId::MapType => 26,
            TypeId::Uuid => 27,
            TypeId::Union => 28,
            TypeId::Bit => 29,
            TypeId::TimeTz => 30,
            TypeId::TimestampTz => 31,
            TypeId::UHugeInt => 32,
            TypeId::Array => 33,
            TypeId::Any => 34,
            TypeId::Varint => 35,
            TypeId::SqlNull => 36,
            TypeId::StringLiteral => 37,
            TypeId::IntegerLiteral => 38,
            TypeId::TimeNs => 39,
        }
    }

    /// The id a C API code stands for; `None` for a code this build does not know.
    pub fn from_code(code: u32) -> (t: Option<TypeId>)
        ensures
            t == spec_type_from_code(code),
            t matches Some(id) ==> spec_type_code(id) == code,
    {
        let t = match code {
            1 => Some(TypeId::Boolean),
            2 => Some(TypeId::TinyInt),
            3 => Some(TypeId::SmallInt),
            4 => Some(TypeId::Integer),
            5 => Some(TypeId::BigInt),
            6 => Some(TypeId::UTinyInt),
            7 => Some(TypeId::USmallInt),
            8 => Some(TypeId::UInteger),
            9 => Some(TypeId::UBigInt),
            10 => Some(TypeId::Float),
            11 => Some(TypeId::Double),
            12 => Some(TypeId::Timestamp),
            13 => Some(TypeId::Date),
            14 => Some(TypeId::Time),
            15 => Some(TypeId::Interval),
            16 => Some(TypeId::HugeInt),
            17 => Some(TypeId::Varchar),
            18 => Some(TypeId::Blob),
            19 => Some(TypeId::Decimal),
            20 => Some(TypeId::TimestampS),
            21 => Some(TypeId::TimestampMs),
            22 => Some(TypeId::TimestampNs),
            23 => Some(TypeId::Enum),
            24 => Some(TypeId::List),
            25 => Some(TypeId::Struct),
            26 => Some(TypeId::MapType),
            27 => Some(TypeId::Uuid),
            28 => Some(TypeId::Union),
            29 => Some(TypeId::Bit),
            30 => Some(TypeId::TimeTz),
            31 => Some(TypeId::TimestampTz),
            32 => Some(TypeId::UHugeInt),
            33 => Some(TypeId::Array),
            34 => Some(TypeId::Any),
            35 => Some(TypeId::Varint),
            36 => Some(TypeId::SqlNull),
            37 => Some(TypeId::StringLiteral),
            38 => Some(TypeId::IntegerLiteral),
            39 => Some(TypeId::TimeNs),
            _ => None,
        };
        proof {
            if let Some(id) = t {
                lemma_type_code_round_trip(id);
            }
        }
        t
    }

    /// The name of this id as `{:?}` writes it.
    pub fn debug_name(self) -> (s: &'static str)
        ensures
            s@ == spec_debug_name(self),
    {
        match self {
            TypeId::Boolean => "Boolean",
            TypeId::TinyInt => "TinyInt",
            TypeId::SmallInt => "SmallInt",
            TypeId::Integer => "Integer",
            TypeId::BigInt => "BigInt",
            TypeId::UTinyInt => "UTinyInt",
            TypeId::USmallInt => "USmallInt",
            TypeId::UInteger => "UInteger",
            TypeId::UBigInt => "UBigInt",
            TypeId::Float => "Float",
            TypeId::Double => "Double",
            TypeId::Timestamp => "Timestamp",
            TypeId::Date => "Date",
            TypeId::Time => "Time",
            TypeId::Interval => "Interval",
            TypeId::HugeInt => "HugeInt",
            TypeId::Varchar => "Varchar",
            TypeId::Blob => "Blob",
            TypeId::Decimal => "Decimal",
            TypeId::TimestampS => "TimestampS",
            TypeId::TimestampMs => "TimestampMs",
            TypeId::TimestampNs => "TimestampNs",
            TypeId::Enum => "Enum",
            TypeId::List => "List",
            TypeId::Struct => "Struct",
            TypeId::MapType => "Map",
            TypeId::Uuid => "Uuid",
            TypeId::Union => "Union",
            TypeId::Bit => "Bit",
            TypeId::TimeTz => "TimeTz",
            TypeId::TimestampTz => "TimestampTz",
            TypeId::UHugeInt => "UHugeInt",
            TypeId::Array => "Array",
            TypeId::Any => "Any",
            TypeId::Varint => "Varint",
            TypeId::SqlNull => "SqlNull",
            TypeId::StringLiteral => "StringLiteral",
            TypeId::IntegerLiteral => "IntegerLiteral",
            TypeId::TimeNs => "TimeNs",
        }
    }

    /// The SQL name of this id, such as `BIGINT` or `VARCHAR`.
    pub fn sql_name(self) -> (s: &'static str)
        ensures
            s@ == spec_sql_name(spec_type_code(self)),
    {
        let code = self.code();
        proof {
            lemma_type_code_injective(self, self);
        }
        sql_name_of_code(code)
    }
}

} // verus!
