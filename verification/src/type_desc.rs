//! Runtime column type descriptions: a recursive logical type built from plain values.
//!
//! A [`DuckTypeDesc`] can be kept across the bind and scan phases of a table function, turned
//! into the shape of a DuckDB logical type ([`LogicalTypeInfo`]) to declare a column, rebuilt from
//! such a shape, checked against a value, and rendered as a SQL type name.

use vstd::prelude::*;
use crate::type_id::{TypeId, spec_sql_name, spec_type_code};
use crate::text::{decimal_text, u64_text};
use crate::dynamic_value::{is_nested_value, DuckDynamicValue, ValueModel, value_scalar_type_id, value_scalar_type_desc, value_type_id, option_model, value_model};

verus! {

/// A runtime column type description.
#[derive(Debug)]
pub enum DuckTypeDesc {
    /// A primitive or wrapper type (`BIGINT`, `VARCHAR`, `DATE`, ...): only ids that a bare type id
    /// rebuilds; parameterised types use the other variants.
    Scalar(TypeId),
    /// `DECIMAL(width, scale)`.
    Decimal {
        /// Total number of significant digits.
        width: u8,
        /// Number of digits after the decimal point.
        scale: u8,
    },
    /// `LIST(element)`.
    List(Box<DuckTypeDesc>),
    /// `STRUCT(name type, ...)`: the order is the child-vector index.
    Struct(Vec<(String, DuckTypeDesc)>),
    /// `MAP(key, value)`.
    MapOf(Box<DuckTypeDesc>, Box<DuckTypeDesc>),
}

/// The mathematical content of a [`DuckTypeDesc`].
pub enum TypeDescModel {
    Scalar(TypeId),
    Decimal { width: u8, scale: u8 },
    List(Box<TypeDescModel>),
    Struct(Seq<(Seq<char>, TypeDescModel)>),
    MapOf(Box<TypeDescModel>, Box<TypeDescModel>),
}

/// The model of a description.
pub open spec fn desc_model(d: DuckTypeDesc) -> TypeDescModel
    decreases d,
{
    match d {
        DuckTypeDesc::Scalar(t) => TypeDescModel::Scalar(t),
        DuckTypeDesc::Decimal { width, scale } => TypeDescModel::Decimal { width, scale },
        DuckTypeDesc::List(e) => TypeDescModel::List(Box::new(desc_model(*e))),
        DuckTypeDesc::Struct(fields) => TypeDescModel::Struct(Seq::new(fields@.len(), |i: int| {
            if 0 <= i < fields@.len() {
                proof {
                    assert(decreases_to!(fields => fields@));
                    assert(decreases_to!(fields@ => fields@[i]));
                }
                (fields@[i].0@, desc_model(fields@[i].1))
            } else {
                (Seq::empty(), TypeDescModel::Scalar(TypeId::Boolean))
            }
        })),
        DuckTypeDesc::MapOf(k, v) => TypeDescModel::MapOf(
            Box::new(desc_model(*k)),
            Box::new(desc_model(*v)),
        ),
    }
}

impl View for DuckTypeDesc {
    type V = TypeDescModel;

    open spec fn view(&self) -> TypeDescModel {
        desc_model(*self)
    }
}

/// The DuckDB type id a description maps onto.
pub open spec fn desc_type_id(d: TypeDescModel) -> TypeId {
    match d {
        TypeDescModel::Scalar(t) => t,
        TypeDescModel::Decimal { .. } => TypeId::Decimal,
        TypeDescModel::List(_) => TypeId::List,
        TypeDescModel::Struct(_) => TypeId::Struct,
        TypeDescModel::MapOf(_, _) => TypeId::MapType,
    }
}

/// The scalar ids a bare type id rebuilds as a logical type, and the only scalars a description
/// reconstructed from a logical type may hold.
pub open spec fn is_rebuildable_scalar(t: TypeId) -> bool {
    match t {
        TypeId::Boolean | TypeId::TinyInt | TypeId::SmallInt | TypeId::Integer | TypeId::BigInt
        | TypeId::UTinyInt | TypeId::USmallInt | TypeId::UInteger | TypeId::UBigInt
        | TypeId::HugeInt | TypeId::UHugeInt | TypeId::Float | TypeId::Double | TypeId::Varchar
        | TypeId::Blob | TypeId::Uuid | TypeId::Date | TypeId::Time | TypeId::TimeTz
        | TypeId::Timestamp | TypeId::TimestampTz | TypeId::TimestampS | TypeId::TimestampMs
        | TypeId::TimestampNs | TypeId::Interval => true,
        _ => false,
    }
}

/// Whether a value can be written into a column of a description (recursively; NULL slots always
/// fit).
pub open spec fn desc_accepts(d: TypeDescModel, v: ValueModel) -> bool
    decreases d,
{
    match d {
        TypeDescModel::Scalar(t) => value_scalar_type_id(v) == Some(t),
        TypeDescModel::Decimal { width, scale } => match v {
            ValueModel::Decimal { width: vw, scale: vs, .. } => width == vw && scale == vs,
            _ => false,
        },
        TypeDescModel::List(e) => match v {
            ValueModel::List(items) => forall|i: int|
                0 <= i < items.len() ==> (#[trigger] items[i] matches Some(x) ==> desc_accepts(*e, x)),
            _ => false,
        },
        TypeDescModel::Struct(fields) => match v {
            ValueModel::Struct(values) => {
                &&& fields.len() == values.len()
                &&& forall|i: int| 0 <= i < fields.len() ==> (#[trigger] values[i] matches Some(x) ==> desc_accepts(fields[i].1, x))
            },
            _ => false,
        },
        TypeDescModel::MapOf(k, mv) => match v {
            ValueModel::MapOf(pairs) => forall|i: int|
                0 <= i < pairs.len() ==> desc_accepts(*k, #[trigger] pairs[i].0) && desc_accepts(*mv, pairs[i].1),
            _ => false,
        },
    }
}



/// The index of the first non-NULL element at or after `start`, or the length when there is none.
pub open spec fn first_present_index(items: Seq<Option<ValueModel>>, start: int) -> int
    decreases items.len() - start,
{
    if start < 0 || start >= items.len() {
        items.len() as int
    } else if items[start] is Some {
        start
    } else {
        first_present_index(items, start + 1)
    }
}

/// The name a field of an inferred struct description gets: `field_<index>`.
pub open spec fn inferred_field_name(i: int) -> Seq<char> {
    "field_"@ + crate::text::decimal_text(i as nat)
}

/// The description inferred from an optional value; NULL (nothing to observe) gives `VARCHAR`.
pub open spec fn inferred_slot_desc(v: Option<ValueModel>) -> TypeDescModel
    decreases v,
{
    match v {
        Some(x) => inferred_desc(x),
        None => TypeDescModel::Scalar(TypeId::Varchar),
    }
}

/// The description inferred from a value: the first non-NULL element decides a `LIST`'s element
/// type, the first pair decides a `MAP`'s key and value types, an empty `LIST` / `MAP` falls back
/// to `VARCHAR`, and a `STRUCT`'s fields are named `field_0`, `field_1`, ...
pub open spec fn inferred_desc(v: ValueModel) -> TypeDescModel
    decreases v,
{
    match v {
        ValueModel::List(items) => {
            let k = first_present_index(items, 0);
            TypeDescModel::List(Box::new(
                if 0 <= k < items.len() {
                    proof {
                        assert(decreases_to!(items => items[k]));
                    }
                    inferred_slot_desc(items[k])
                } else {
                    TypeDescModel::Scalar(TypeId::Varchar)
                },
            ))
        },
        ValueModel::Struct(items) => TypeDescModel::Struct(Seq::new(items.len(), |i: int| {
            if 0 <= i < items.len() {
                proof {
                    assert(decreases_to!(items => items[i]));
                }
                (inferred_field_name(i), inferred_slot_desc(items[i]))
            } else {
                (Seq::empty(), TypeDescModel::Scalar(TypeId::Varchar))
            }
        })),
        ValueModel::MapOf(pairs) => {
            if pairs.len() > 0 {
                proof {
                    assert(decreases_to!(pairs => pairs[0]));
                }
                TypeDescModel::MapOf(Box::new(inferred_desc(pairs[0].0)), Box::new(inferred_desc(pairs[0].1)))
            } else {
                TypeDescModel::MapOf(
                    Box::new(TypeDescModel::Scalar(TypeId::Varchar)),
                    Box::new(TypeDescModel::Scalar(TypeId::Varchar)),
                )
            }
        },
        _ => value_scalar_type_desc(v),
    }
}

/// Every `LIST` and `MAP` inside a value is homogeneous: all its non-NULL elements (all its keys,
/// all its values) infer to the same description.
pub open spec fn homogeneous(v: ValueModel) -> bool
    decreases v,
{
    match v {
        ValueModel::List(items) => forall|i: int, j: int|
            0 <= i < items.len() && 0 <= j < items.len() ==> (#[trigger] items[i] matches Some(x) ==> (
                homogeneous(x) && (#[trigger] items[j] matches Some(y) ==> inferred_desc(x) == inferred_desc(y)))),
        ValueModel::Struct(items) => forall|i: int|
            0 <= i < items.len() ==> (#[trigger] items[i] matches Some(x) ==> homogeneous(x)),
        ValueModel::MapOf(pairs) => forall|i: int|
            0 <= i < pairs.len() ==> {
                &&& homogeneous(#[trigger] pairs[i].0)
                &&& homogeneous(pairs[i].1)
                &&& inferred_desc(pairs[i].0) == inferred_desc(pairs[0].0)
                &&& inferred_desc(pairs[i].1) == inferred_desc(pairs[0].1)
            },
        _ => true,
    }
}

/// The first non-NULL element found from `start` is non-NULL, comes no later than any non-NULL
/// element `i`, and no earlier than `start`.
pub proof fn lemma_first_present_index(items: Seq<Option<ValueModel>>, start: int, i: int)
    requires
        0 <= start <= i < items.len(),
        items[i] is Some,
    ensures
        start <= first_present_index(items, start) <= i,
        items[first_present_index(items, start)] is Some,
    decreases i - start,
{
    if items[start] is None {
        lemma_first_present_index(items, start + 1, i);
    }
}

/// A description accepts only values of its own type id.
pub proof fn lemma_accepted_value_has_desc_type_id(d: TypeDescModel, v: ValueModel)
    requires
        desc_accepts(d, v),
    ensures
        desc_type_id(d) == value_type_id(v),
{
}

/// The description inferred from a value maps onto the value's own type id.
pub proof fn lemma_inferred_desc_type_id(v: ValueModel)
    ensures
        desc_type_id(inferred_desc(v)) == value_type_id(v),
{
}

/// The description inferred from a value accepts that value, whenever every `LIST` and `MAP`
/// inside it is homogeneous.
pub proof fn lemma_inferred_desc_accepts(v: ValueModel)
    requires
        homogeneous(v),
    ensures
        desc_accepts(inferred_desc(v), v),
    decreases v,
{
    match v {
        ValueModel::List(items) => {
            let k = first_present_index(items, 0);
            let elem = if 0 <= k < items.len() {
                inferred_slot_desc(items[k])
            } else {
                TypeDescModel::Scalar(TypeId::Varchar)
            };
            assert(inferred_desc(v) == TypeDescModel::List(Box::new(elem)));
            assert forall|i: int| 0 <= i < items.len() implies (#[trigger] items[i] matches Some(x) ==> desc_accepts(elem, x)) by {
                if let Some(x) = items[i] {
                    lemma_first_present_index(items, 0, i);
                    assert(decreases_to!(items => items[i]));
                    lemma_inferred_desc_accepts(x);
                    assert(items[k] matches Some(y) && inferred_desc(x) == inferred_desc(y));
                }
            }
        },
        ValueModel::Struct(items) => {
            let fields = inferred_desc(v)->Struct_0;
            assert forall|i: int| 0 <= i < fields.len() implies (#[trigger] items[i] matches Some(x) ==> desc_accepts(fields[i].1, x)) by {
                if let Some(x) = items[i] {
                    assert(decreases_to!(items => items[i]));
                    lemma_inferred_desc_accepts(x);
                    assert(fields[i].1 == inferred_slot_desc(items[i]));
                    assert(inferred_slot_desc(items[i]) == inferred_desc(x));
                }
            }
        },
        ValueModel::MapOf(pairs) => {
            if pairs.len() > 0 {
                assert forall|i: int| 0 <= i < pairs.len() implies desc_accepts(inferred_desc(pairs[0].0), #[trigger] pairs[i].0)
                    && desc_accepts(inferred_desc(pairs[0].1), pairs[i].1) by {
                    assert(decreases_to!(pairs => pairs[i]));
                    lemma_inferred_desc_accepts(pairs[i].0);
                    lemma_inferred_desc_accepts(pairs[i].1);
                }
            }
        },
        _ => {},
    }
}

/// Whether a key description and a value description both accept a map entry.
pub open spec fn map_pair_fits(k: TypeDescModel, v: TypeDescModel, pair: (ValueModel, ValueModel)) -> bool {
    desc_accepts(k, pair.0) && desc_accepts(v, pair.1)
}

/// The number of fields of a struct description; 0 for any other description.
pub open spec fn struct_field_count(d: TypeDescModel) -> int {
    match d {
        TypeDescModel::Struct(fields) => fields.len() as int,
        _ => 0,
    }
}

/// With `n < 0`, the human-readable type name of a description; with `n >= 0`, the first `n`
/// fields of a struct description as `name type` separated by `, `.
pub open spec fn desc_text_upto(d: TypeDescModel, n: int) -> Seq<char>
    decreases d, if n < 0 { struct_field_count(d) + 1 } else { n },
{
    if n < 0 {
        match d {
            TypeDescModel::Scalar(t) => spec_sql_name(spec_type_code(t)),
            TypeDescModel::Decimal { width, scale } => "DECIMAL("@ + decimal_text(width as nat) + ", "@
                + decimal_text(scale as nat) + ")"@,
            TypeDescModel::List(e) => desc_text_upto(*e, -1) + "[]"@,
            TypeDescModel::Struct(fields) => "STRUCT("@ + desc_text_upto(d, fields.len() as int) + ")"@,
            TypeDescModel::MapOf(k, v) => "MAP("@ + desc_text_upto(*k, -1) + ", "@ + desc_text_upto(*v, -1) + ")"@,
        }
    } else {
        match d {
            TypeDescModel::Struct(fields) => {
                if n == 0 || n > fields.len() {
                    Seq::empty()
                } else if n == 1 {
                    proof {
                        assert(decreases_to!(fields => fields[0]));
                    }
                    fields[0].0 + " "@ + desc_text_upto(fields[0].1, -1)
                } else {
                    proof {
                        assert(decreases_to!(fields => fields[n - 1]));
                    }
                    desc_text_upto(d, n - 1) + ", "@ + fields[n - 1].0 + " "@ + desc_text_upto(fields[n - 1].1, -1)
                }
            },
            _ => Seq::empty(),
        }
    }
}

/// The human-readable type name of a description, such as `MAP(VARCHAR, BIGINT[])`.
pub open spec fn desc_text(d: TypeDescModel) -> Seq<char> {
    desc_text_upto(d, -1)
}

impl DuckTypeDesc {

    /// Renders the human-readable type name (used in error messages), such as
    /// `MAP(VARCHAR, BIGINT[])`.
    pub fn to_sql_string(&self) -> (s: String)
        ensures
            s@ == desc_text(self@),
        decreases self,
    {
        match self {
            DuckTypeDesc::Scalar(t) => String::from_str(t.sql_name()),
            DuckTypeDesc::Decimal { width, scale } => {
                let mut s = String::from_str("DECIMAL(");
                s.append(u64_text(*width as u64).as_str());
                s.append(", ");
                s.append(u64_text(*scale as u64).as_str());
                s.append(")");
                assert(s@ == desc_text(self@));
                s
            },
            DuckTypeDesc::List(element) => {
                let mut s = element.to_sql_string();
                s.append("[]");
                assert(s@ == desc_text(self@));
                s
            },
            DuckTypeDesc::Struct(fields) => {
                let ghost fields_m = self@->Struct_0;
                let mut body = String::new();
                let mut i: usize = 0;
                while i < fields.len()
                    invariant
                        0 <= i <= fields@.len(),
                        fields_m == self@->Struct_0,
                        fields_m.len() == fields@.len(),
                        *self == DuckTypeDesc::Struct(*fields),
                        body@ == desc_text_upto(self@, i as int),
                    decreases fields@.len() - i,
                {
                    assert(fields_m[i as int] == (fields@[i as int].0@, desc_model(fields@[i as int].1)));
                    proof {
                        assert(decreases_to!(fields@ => fields@[i as int]));
                    }
                    if i > 0 {
                        body.append(", ");
                    }
                    body.append(fields[i].0.as_str());
                    body.append(" ");
                    let rendered = fields[i].1.to_sql_string();
                    body.append(rendered.as_str());
                    i = i + 1;
                }
                let mut s = String::from_str("STRUCT(");
                s.append(body.as_str());
                s.append(")");
                s
            },
            DuckTypeDesc::MapOf(key, value) => {
                let mut s = String::from_str("MAP(");
                s.append(key.to_sql_string().as_str());
                s.append(", ");
                s.append(value.to_sql_string().as_str());
                s.append(")");
                s
            },
        }
    }

    /// Builds a scalar description from a type id.
    pub fn scalar(type_id: TypeId) -> (d: DuckTypeDesc)
        ensures
            d@ == TypeDescModel::Scalar(type_id),
    {
        DuckTypeDesc::Scalar(type_id)
    }

    /// Builds a `LIST` from the element description.
    pub fn list(element: DuckTypeDesc) -> (d: DuckTypeDesc)
        ensures
            d@ == TypeDescModel::List(Box::new(element@)),
    {
        DuckTypeDesc::List(Box::new(element))
    }

    /// Builds a `STRUCT` from `(field name, field type)` pairs.
    pub fn struct_type(fields: Vec<(String, DuckTypeDesc)>) -> (d: DuckTypeDesc)
        ensures
            d == DuckTypeDesc::Struct(fields),
    {
        DuckTypeDesc::Struct(fields)
    }

    /// Builds a `MAP` from the key and value descriptions.
    pub fn map(key: DuckTypeDesc, value: DuckTypeDesc) -> (d: DuckTypeDesc)
        ensures
            d@ == TypeDescModel::MapOf(Box::new(key@), Box::new(value@)),
    {
        DuckTypeDesc::MapOf(Box::new(key), Box::new(value))
    }

    /// The DuckDB type id this description maps onto.
    pub fn type_id(&self) -> (t: TypeId)
        ensures
            t == desc_type_id(self@),
    {
        match self {
            DuckTypeDesc::Scalar(t) => *t,
            DuckTypeDesc::Decimal { .. } => TypeId::Decimal,
            DuckTypeDesc::List(_) => TypeId::List,
            DuckTypeDesc::Struct(_) => TypeId::Struct,
            DuckTypeDesc::MapOf(_, _) => TypeId::MapType,
        }
    }

    /// The description of a scalar type id that a bare type id rebuilds; `None` for the ids that
    /// carry parameters or cannot be rebuilt (`ENUM`, `ARRAY`, `UNION`, `BIT`, `LIST`, ...).
    pub fn from_scalar_type_id(type_id: TypeId) -> (d: Option<DuckTypeDesc>)
        ensures
            d is Some <==> is_rebuildable_scalar(type_id),
            d matches Some(x) ==> x@ == TypeDescModel::Scalar(type_id),
    {
        let supported = match type_id {
            TypeId::Boolean | TypeId::TinyInt | TypeId::SmallInt | TypeId::Integer | TypeId::BigInt
            | TypeId::UTinyInt | TypeId::USmallInt | TypeId::UInteger | TypeId::UBigInt
            | TypeId::HugeInt | TypeId::UHugeInt | TypeId::Float | TypeId::Double | TypeId::Varchar
            | TypeId::Blob | TypeId::Uuid | TypeId::Date | TypeId::Time | TypeId::TimeTz
            | TypeId::Timestamp | TypeId::TimestampTz | TypeId::TimestampS | TypeId::TimestampMs
            | TypeId::TimestampNs | TypeId::Interval => true,
            _ => false,
        };
        if supported {
            Some(DuckTypeDesc::Scalar(type_id))
        } else {
            None
        }
    }

    /// Infers a description from a value, for the "data first, schema second" workflow.
    ///
    /// An empty `LIST` / `MAP` has no element type to observe and falls back to `LIST(VARCHAR)` /
    /// `MAP(VARCHAR, VARCHAR)`.
    pub fn from_value(value: &DuckDynamicValue) -> (d: DuckTypeDesc)
        ensures
            d@ == inferred_desc(value@),
        decreases value,
    {
        match value {
            DuckDynamicValue::List(items) => {
                let ghost items_m = value@->List_0;
                let mut k: usize = 0;
                while k < items.len() && items[k].is_none()
                    invariant
                        0 <= k <= items@.len(),
                        items_m == value@->List_0,
                        items_m.len() == items@.len(),
                        *value == DuckDynamicValue::List(*items),
                        first_present_index(items_m, 0) == first_present_index(items_m, k as int),
                    decreases items@.len() - k,
                {
                    assert(items_m[k as int] == option_model(items@[k as int]));
                    k = k + 1;
                }
                let element = if k < items.len() {
                    assert(items_m[k as int] == option_model(items@[k as int]));
                    assert(items_m[k as int] is Some);
                    assert(first_present_index(items_m, k as int) == k);
                    match &items[k] {
                        Some(item) => {
                            let e = DuckTypeDesc::from_value(item);
                            assert(items_m[k as int] == Some(item@));
                            assert(inferred_slot_desc(items_m[k as int]) == inferred_desc(item@));
                            e
                        },
                        None => DuckTypeDesc::Scalar(TypeId::Varchar),
                    }
                } else {
                    assert(first_present_index(items_m, k as int) == items_m.len());
                    DuckTypeDesc::Scalar(TypeId::Varchar)
                };
                let d = DuckTypeDesc::List(Box::new(element));
                assert(d@ == TypeDescModel::List(Box::new(element@)));
                d
            },
            DuckDynamicValue::Struct(items) => {
                let ghost items_m = value@->Struct_0;
                let mut fields: Vec<(String, DuckTypeDesc)> = Vec::new();
                let mut i: usize = 0;
                while i < items.len()
                    invariant
                        0 <= i <= items@.len(),
                        items_m == value@->Struct_0,
                        items_m.len() == items@.len(),
                        *value == DuckDynamicValue::Struct(*items),
                        fields@.len() == i,
                        forall|j: int| 0 <= j < i ==> #[trigger] fields@[j].0@ == inferred_field_name(j)
                            && desc_model(fields@[j].1) == inferred_slot_desc(items_m[j]),
                    decreases items@.len() - i,
                {
                    assert(items_m[i as int] == option_model(items@[i as int]));
                    let mut name = String::from_str("field_");
                    let digits = crate::text::u64_text(i as u64);
                    name.append(digits.as_str());
                    let field_desc = match &items[i] {
                        Some(item) => DuckTypeDesc::from_value(item),
                        None => DuckTypeDesc::Scalar(TypeId::Varchar),
                    };
                    fields.push((name, field_desc));
                    i = i + 1;
                }
                let d = DuckTypeDesc::Struct(fields);
                assert(d@->Struct_0 =~= inferred_desc(value@)->Struct_0);
                d
            },
            DuckDynamicValue::MapOf(pairs) => {
                let ghost pairs_m = value@->MapOf_0;
                if pairs.len() > 0 {
                    assert(pairs_m[0] == (value_model(pairs@[0].0), value_model(pairs@[0].1)));
                    let key = DuckTypeDesc::from_value(&pairs[0].0);
                    let map_value = DuckTypeDesc::from_value(&pairs[0].1);
                    DuckTypeDesc::MapOf(Box::new(key), Box::new(map_value))
                } else {
                    let key = DuckTypeDesc::Scalar(TypeId::Varchar);
                    let map_value = DuckTypeDesc::Scalar(TypeId::Varchar);
                    assert(key@ == TypeDescModel::Scalar(TypeId::Varchar));
                    assert(map_value@ == TypeDescModel::Scalar(TypeId::Varchar));
                    DuckTypeDesc::MapOf(Box::new(key), Box::new(map_value))
                }
            },
            _ => {
                assert(!is_nested_value(value@));
                value.scalar_type_desc()
            },
        }
    }
    /// Whether a value can be written into a column of this description (validated recursively
    /// before writing, to catch type mismatches).
    pub fn matches_value(&self, value: &DuckDynamicValue) -> (r: bool)
        ensures
            r == desc_accepts(self@, value@),
        decreases self,
    {
        match self {
            DuckTypeDesc::Scalar(t) => {
                let st = value.scalar_type_id();
                assert(self@ == TypeDescModel::Scalar(*t));
                assert(desc_accepts(self@, value@) == (st == Some(*t)));
                match st {
                    Some(v) => {
                        let b = v == *t;
                        assert(b == (v == *t));
                        b
                    },
                    None => false,
                }
            },
            DuckTypeDesc::Decimal { width, scale } => match value {
                DuckDynamicValue::Decimal { width: vw, scale: vs, .. } => {
                    assert(self@ == TypeDescModel::Decimal { width: *width, scale: *scale });
                    *width == *vw && *scale == *vs
                },
                _ => {
                    assert(!desc_accepts(self@, value@));
                    false
                },
            },
            DuckTypeDesc::List(element) => match value {
                DuckDynamicValue::List(items) => {
                    let ghost items_m = value@->List_0;
                    assert(items_m.len() == items@.len());
                    let mut i: usize = 0;
                    while i < items.len()
                        invariant
                            0 <= i <= items@.len(),
                            items_m == value@->List_0,
                            items_m.len() == items@.len(),
                            *value == DuckDynamicValue::List(*items),
                            *self == DuckTypeDesc::List(*element),
                            forall|j: int| 0 <= j < i ==> (#[trigger] items_m[j] matches Some(x) ==> desc_accepts(element@, x)),
                        decreases items@.len() - i,
                    {
                        assert(items_m[i as int] == option_model(items@[i as int]));
                        match &items[i] {
                            Some(item) => {
                                if !element.matches_value(item) {
                                    assert(!(items_m[i as int] matches Some(x) ==> desc_accepts(element@, x)));
                                    assert(self@ == TypeDescModel::List(Box::new(element@)));
                                    assert(!desc_accepts(self@, value@));
                                    return false;
                                }
                            },
                            None => {},
                        }
                        i = i + 1;
                    }
                    assert(self@ == TypeDescModel::List(Box::new(element@)));
                    true
                },
                _ => {
                    assert(!desc_accepts(self@, value@));
                    false
                },
            },
            DuckTypeDesc::Struct(fields) => match value {
                DuckDynamicValue::Struct(values) => {
                    let ghost fields_m = self@->Struct_0;
                    let ghost values_m = value@->Struct_0;
                    if fields.len() != values.len() {
                        return false;
                    }
                    let mut i: usize = 0;
                    while i < fields.len()
                        invariant
                            0 <= i <= fields@.len(),
                            fields@.len() == values@.len(),
                            fields_m == self@->Struct_0,
                            values_m == value@->Struct_0,
                            fields_m.len() == fields@.len(),
                            values_m.len() == values@.len(),
                            *self == DuckTypeDesc::Struct(*fields),
                            *value == DuckDynamicValue::Struct(*values),
                            forall|j: int| 0 <= j < i ==> (#[trigger] values_m[j] matches Some(x) ==> desc_accepts(fields_m[j].1, x)),
                        decreases fields@.len() - i,
                    {
                        assert(fields_m[i as int] == (fields@[i as int].0@, desc_model(fields@[i as int].1)));
                        assert(values_m[i as int] == option_model(values@[i as int]));
                        match &values[i] {
                            Some(v) => {
                                proof {
                                    assert(decreases_to!(fields@ => fields@[i as int]));
                                }
                                if !fields[i].1.matches_value(v) {
                                    assert(self@ == TypeDescModel::Struct(fields_m));
                                    assert(value@ == ValueModel::Struct(values_m));
                                    return false;
                                }
                            },
                            None => {},
                        }
                        i = i + 1;
                    }
                    assert(self@ == TypeDescModel::Struct(fields_m));
                    true
                },
                _ => {
                    assert(!desc_accepts(self@, value@));
                    false
                },
            },
            DuckTypeDesc::MapOf(key, map_value) => match value {
                DuckDynamicValue::MapOf(pairs) => {
                    let ghost pairs_m = value@->MapOf_0;
                    let mut i: usize = 0;
                    while i < pairs.len()
                        invariant
                            0 <= i <= pairs@.len(),
                            pairs_m == value@->MapOf_0,
                            pairs_m.len() == pairs@.len(),
                            *value == DuckDynamicValue::MapOf(*pairs),
                            *self == DuckTypeDesc::MapOf(*key, *map_value),
                            forall|j: int| 0 <= j < i ==> #[trigger] map_pair_fits(key@, map_value@, pairs_m[j]),
                        decreases pairs@.len() - i,
                    {
                        assert(pairs_m[i as int] == (value_model(pairs@[i as int].0), value_model(pairs@[i as int].1)));
                        let key_ok = key.matches_value(&pairs[i].0);
                        let value_ok = map_value.matches_value(&pairs[i].1);
                        assert(key_ok == desc_accepts(key@, pairs_m[i as int].0));
                        assert(value_ok == desc_accepts(map_value@, pairs_m[i as int].1));
                        assert(key_ok == desc_accepts(key@, pairs_m[i as int].0));
                        if !key_ok || !value_ok {
                            assert(self@ == TypeDescModel::MapOf(Box::new(key@), Box::new(map_value@)));
                            assert(value@ == ValueModel::MapOf(pairs_m));
                            return false;
                        }
                        assert(map_pair_fits(key@, map_value@, pairs_m[i as int]));
                        i = i + 1;
                    }
                    assert(self@ == TypeDescModel::MapOf(Box::new(key@), Box::new(map_value@)));
                    assert forall|j: int| 0 <= j < pairs_m.len() implies desc_accepts(key@, #[trigger] pairs_m[j].0)
                        && desc_accepts(map_value@, pairs_m[j].1) by {
                        assert(map_pair_fits(key@, map_value@, pairs_m[j]));
                    }
                    true
                },
                _ => {
                    assert(!desc_accepts(self@, value@));
                    false
                },
            },
        }
    }
}

} // verus!
