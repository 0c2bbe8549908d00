//! The shape of a DuckDB logical type, as plain values, and its conversions to and from
//! [`DuckTypeDesc`].
//!
//! A DuckDB logical type is a handle into the running database; what the type-description logic
//! reads of it is its type code, the width and scale of a `DECIMAL`, and its children. A
//! [`LogicalTypeInfo`] holds exactly that, so the handle is read (or built) at the edge and every
//! decision about it is made here.

use vstd::prelude::*;
use crate::type_id::{TypeId, spec_type_code, spec_type_from_code, spec_debug_name};
use crate::type_desc::{DuckTypeDesc, TypeDescModel, desc_model, is_rebuildable_scalar};
use crate::error::{DuckError, DuckResult, duck_error_owned};
use crate::text::{decimal_text, u64_text};

verus! {

/// The shape of a DuckDB logical type.
#[derive(Debug)]
pub enum LogicalTypeInfo {
    /// A type without readable parameters, by its C API type code (which may be one this build
    /// does not know).
    Simple(u32),
    /// `DECIMAL(width, scale)`.
    Decimal {
        /// Total number of significant digits.
        width: u8,
        /// Number of digits after the decimal point.
        scale: u8,
    },
    /// `LIST(child)`.
    List(Box<LogicalTypeInfo>),
    /// `STRUCT(name type, ...)`, in child order.
    Struct(Vec<(String, LogicalTypeInfo)>),
    /// `MAP(key, value)`.
    MapOf(Box<LogicalTypeInfo>, Box<LogicalTypeInfo>),
}

/// The mathematical content of a [`LogicalTypeInfo`].
pub enum LogicalModel {
    Simple(u32),
    Decimal { width: u8, scale: u8 },
    List(Box<LogicalModel>),
    Struct(Seq<(Seq<char>, LogicalModel)>),
    MapOf(Box<LogicalModel>, Box<LogicalModel>),
}

/// The model of a logical type shape.
pub open spec fn logical_model(l: LogicalTypeInfo) -> LogicalModel
    decreases l,
{
    match l {
        LogicalTypeInfo::Simple(c) => LogicalModel::Simple(c),
        LogicalTypeInfo::Decimal { width, scale } => LogicalModel::Decimal { width, scale },
        LogicalTypeInfo::List(e) => LogicalModel::List(Box::new(logical_model(*e))),
        LogicalTypeInfo::Struct(fields) => LogicalModel::Struct(Seq::new(fields@.len(), |i: int| {
            if 0 <= i < fields@.len() {
                proof {
                    assert(decreases_to!(fields => fields@));
                    assert(decreases_to!(fields@ => fields@[i]));
                }
                (fields@[i].0@, logical_model(fields@[i].1))
            } else {
                (Seq::empty(), LogicalModel::Simple(0))
            }
        })),
        LogicalTypeInfo::MapOf(k, v) => LogicalModel::MapOf(
            Box::new(logical_model(*k)),
            Box::new(logical_model(*v)),
        ),
    }
}

impl View for LogicalTypeInfo {
    type V = LogicalModel;

    open spec fn view(&self) -> LogicalModel {
        logical_model(*self)
    }
}

/// The logical type a description declares.
pub open spec fn desc_to_logical(d: TypeDescModel) -> LogicalModel
    decreases d,
{
    match d {
        TypeDescModel::Scalar(t) => LogicalModel::Simple(spec_type_code(t)),
        TypeDescModel::Decimal { width, scale } => LogicalModel::Decimal { width, scale },
        TypeDescModel::List(e) => LogicalModel::List(Box::new(desc_to_logical(*e))),
        TypeDescModel::Struct(fields) => LogicalModel::Struct(Seq::new(fields.len(), |i: int| {
            if 0 <= i < fields.len() {
                proof {
                    assert(decreases_to!(fields => fields[i]));
                }
                (fields[i].0, desc_to_logical(fields[i].1))
            } else {
                (Seq::empty(), LogicalModel::Simple(0))
            }
        })),
        TypeDescModel::MapOf(k, v) => LogicalModel::MapOf(
            Box::new(desc_to_logical(*k)),
            Box::new(desc_to_logical(*v)),
        ),
    }
}

/// The message for a type code this build does not know.
pub open spec fn unknown_code_message(code: u32) -> Seq<char> {
    "dynamic table function: unknown DuckDB type id "@ + decimal_text(code as nat)
        + "; cannot build a DuckTypeDesc from this logical type"@
}

/// The message for a known type id that no description can express.
pub open spec fn unsupported_type_message(t: TypeId) -> Seq<char> {
    "dynamic table function: the DuckDB logical type `"@ + spec_debug_name(t)
        + "` cannot be turned into a DuckTypeDesc (its parameters are not expressible); use a supported scalar, DECIMAL, LIST, STRUCT or MAP instead"@
}

/// The description of a parameterless logical type, or the message explaining why there is none.
pub open spec fn simple_to_desc(code: u32) -> Result<TypeDescModel, Seq<char>> {
    match spec_type_from_code(code) {
        None => Err(unknown_code_message(code)),
        Some(t) => if is_rebuildable_scalar(t) {
            Ok(TypeDescModel::Scalar(t))
        } else {
            Err(unsupported_type_message(t))
        },
    }
}

/// The number of children of a struct shape; 0 for any other shape.
pub open spec fn logical_field_count(l: LogicalModel) -> int {
    match l {
        LogicalModel::Struct(fields) => fields.len() as int,
        _ => 0,
    }
}

/// With `n < 0`, the description rebuilt from a logical type, or the message of the first child
/// (in depth-first, left-to-right order) that cannot be rebuilt. With `n >= 0`, the same for a
/// struct whose children are cut after the first `n`.
pub open spec fn logical_to_desc_upto(l: LogicalModel, n: int) -> Result<TypeDescModel, Seq<char>>
    decreases l, if n < 0 { logical_field_count(l) + 1 } else { n },
{
    if n < 0 {
        match l {
            LogicalModel::Simple(c) => simple_to_desc(c),
            LogicalModel::Decimal { width, scale } => Ok(TypeDescModel::Decimal { width, scale }),
            LogicalModel::List(e) => match logical_to_desc_upto(*e, -1) {
                Ok(x) => Ok(TypeDescModel::List(Box::new(x))),
                Err(m) => Err(m),
            },
            LogicalModel::Struct(fields) => logical_to_desc_upto(l, fields.len() as int),
            LogicalModel::MapOf(k, v) => match logical_to_desc_upto(*k, -1) {
                Err(m) => Err(m),
                Ok(kd) => match logical_to_desc_upto(*v, -1) {
                    Err(m) => Err(m),
                    Ok(vd) => Ok(TypeDescModel::MapOf(Box::new(kd), Box::new(vd))),
                },
            },
        }
    } else {
        match l {
            LogicalModel::Struct(fields) => {
                if n == 0 || n > fields.len() {
                    Ok(TypeDescModel::Struct(Seq::empty()))
                } else {
                    proof {
                        assert(decreases_to!(fields => fields[n - 1]));
                    }
                    match logical_to_desc_upto(l, n - 1) {
                        Err(m) => Err(m),
                        Ok(prev) => match logical_to_desc_upto(fields[n - 1].1, -1) {
                            Err(m) => Err(m),
                            Ok(x) => Ok(TypeDescModel::Struct(
                                struct_fields_of(prev).push((fields[n - 1].0, x)),
                            )),
                        },
                    }
                }
            },
            _ => Ok(TypeDescModel::Struct(Seq::empty())),
        }
    }
}

/// The fields of a struct description; empty for any other description.
pub open spec fn struct_fields_of(d: TypeDescModel) -> Seq<(Seq<char>, TypeDescModel)> {
    match d {
        TypeDescModel::Struct(fields) => fields,
        _ => Seq::empty(),
    }
}

/// The description rebuilt from a logical type, or the message of the first part that cannot be
/// rebuilt.
pub open spec fn logical_to_desc(l: LogicalModel) -> Result<TypeDescModel, Seq<char>> {
    logical_to_desc_upto(l, -1)
}

/// Every scalar inside a description is one a bare type id rebuilds.
pub open spec fn only_rebuildable_scalars(d: TypeDescModel) -> bool
    decreases d,
{
    match d {
        TypeDescModel::Scalar(t) => is_rebuildable_scalar(t),
        TypeDescModel::Decimal { .. } => true,
        TypeDescModel::List(e) => only_rebuildable_scalars(*e),
        TypeDescModel::Struct(fields) => forall|i: int|
            0 <= i < fields.len() ==> only_rebuildable_scalars(#[trigger] fields[i].1),
        TypeDescModel::MapOf(k, v) => only_rebuildable_scalars(*k) && only_rebuildable_scalars(*v),
    }
}

/// Result of a rebuild as the library returns it: the error carries the message.
pub open spec fn rebuild_result_matches(r: DuckResult<DuckTypeDesc>, expected: Result<TypeDescModel, Seq<char>>) -> bool {
    match (r, expected) {
        (Ok(d), Ok(m)) => d@ == m,
        (Err(e), Err(m)) => e.spec_message() == m,
        _ => false,
    }
}


/// A description survives the trip to a logical type and back, whenever every scalar inside it is
/// one a bare type id rebuilds; for a struct, `n >= 0` speaks of its first `n` fields.
proof fn lemma_desc_round_trip_upto(d: TypeDescModel, n: int)
    requires
        only_rebuildable_scalars(d),
        n >= 0 ==> d is Struct && n <= struct_fields_of(d).len(),
    ensures
        n < 0 ==> logical_to_desc(desc_to_logical(d)) == Ok::<TypeDescModel, Seq<char>>(d),
        n >= 0 ==> logical_to_desc_upto(desc_to_logical(d), n) == Ok::<TypeDescModel, Seq<char>>(
            TypeDescModel::Struct(struct_fields_of(d).take(n)),
        ),
    decreases d, if n < 0 { struct_fields_of(d).len() + 1 } else { n as nat },
{
    let l = desc_to_logical(d);
    if n < 0 {
        match d {
            TypeDescModel::Scalar(t) => {
                crate::type_id::lemma_type_code_round_trip(t);
            },
            TypeDescModel::Decimal { .. } => {},
            TypeDescModel::List(e) => {
                lemma_desc_round_trip_upto(*e, -1);
            },
            TypeDescModel::Struct(fields) => {
                lemma_desc_round_trip_upto(d, fields.len() as int);
                assert(fields.take(fields.len() as int) =~= fields);
            },
            TypeDescModel::MapOf(k, v) => {
                lemma_desc_round_trip_upto(*k, -1);
                lemma_desc_round_trip_upto(*v, -1);
            },
        }
    } else {
        let fields = struct_fields_of(d);
        let lf = l->Struct_0;
        assert(logical_field_count(l) == fields.len());
        if n > 0 {
            lemma_desc_round_trip_upto(d, n - 1);
            assert(decreases_to!(fields => fields[n - 1]));
            assert(only_rebuildable_scalars(fields[n - 1].1));
            lemma_desc_round_trip_upto(fields[n - 1].1, -1);
            assert(lf[n - 1] == (fields[n - 1].0, desc_to_logical(fields[n - 1].1)));
            assert(fields.take(n - 1).push((fields[n - 1].0, fields[n - 1].1)) =~= fields.take(n));
        } else {
            assert(fields.take(0) =~= Seq::<(Seq<char>, TypeDescModel)>::empty());
        }
    }
}

/// Declaring a description as a logical type and rebuilding it gives the description back,
/// whenever every scalar inside it is one a bare type id rebuilds.
pub proof fn lemma_logical_round_trip(d: TypeDescModel)
    requires
        only_rebuildable_scalars(d),
    ensures
        logical_to_desc(desc_to_logical(d)) == Ok::<TypeDescModel, Seq<char>>(d),
{
    lemma_desc_round_trip_upto(d, -1);
}

/// A logical type that can be rebuilt is exactly the one its rebuilt description declares; for a
/// struct, `n >= 0` speaks of its first `n` children.
proof fn lemma_rebuilt_declares_upto(l: LogicalModel, n: int)
    requires
        n >= 0 ==> l is Struct && n <= logical_field_count(l),
        logical_to_desc_upto(l, n) is Ok,
    ensures
        n < 0 ==> desc_to_logical(logical_to_desc_upto(l, n)->Ok_0) == l,
        n >= 0 ==> {
            let fs = struct_fields_of(logical_to_desc_upto(l, n)->Ok_0);
            &&& logical_to_desc_upto(l, n)->Ok_0 is Struct
            &&& fs.len() == n
            &&& forall|j: int| 0 <= j < n ==> (#[trigger] fs[j]).0 == (l->Struct_0)[j].0
                && desc_to_logical(fs[j].1) == (l->Struct_0)[j].1
        },
    decreases l, if n < 0 { logical_field_count(l) + 1 } else { n },
{
    if n < 0 {
        match l {
            LogicalModel::Simple(c) => {
                crate::type_id::lemma_type_from_code(c);
            },
            LogicalModel::Decimal { .. } => {},
            LogicalModel::List(e) => {
                lemma_rebuilt_declares_upto(*e, -1);
            },
            LogicalModel::Struct(fields) => {
                lemma_rebuilt_declares_upto(l, fields.len() as int);
                let d = logical_to_desc_upto(l, -1)->Ok_0;
                assert(desc_to_logical(d)->Struct_0 =~= fields);
            },
            LogicalModel::MapOf(k, v) => {
                lemma_rebuilt_declares_upto(*k, -1);
                lemma_rebuilt_declares_upto(*v, -1);
            },
        }
    } else {
        let fields = l->Struct_0;
        if n > 0 {
            assert(decreases_to!(fields => fields[n - 1]));
            lemma_rebuilt_declares_upto(l, n - 1);
            lemma_rebuilt_declares_upto(fields[n - 1].1, -1);
        }
    }
}

/// Whenever a logical type can be rebuilt as a description, declaring that description gives
/// the logical type back.
pub proof fn lemma_rebuilt_declares_same(l: LogicalModel)
    requires
        logical_to_desc(l) is Ok,
    ensures
        desc_to_logical(logical_to_desc(l)->Ok_0) == l,
{
    lemma_rebuilt_declares_upto(l, -1);
}

/// A `DECIMAL(w, s)` column is declared to DuckDB as `DECIMAL(w, s)`: the width stays the width
/// and the scale the scale, and a `DECIMAL(w, s)` logical type is rebuilt as `DECIMAL(w, s)`.
pub proof fn lemma_decimal_keeps_width_and_scale(w: u8, s: u8)
    ensures
        desc_to_logical(TypeDescModel::Decimal { width: w, scale: s }) == (LogicalModel::Decimal { width: w, scale: s }),
        logical_to_desc(LogicalModel::Decimal { width: w, scale: s }) == Ok::<TypeDescModel, Seq<char>>(TypeDescModel::Decimal { width: w, scale: s }),
        forall|w2: u8, s2: u8| desc_to_logical(TypeDescModel::Decimal { width: w, scale: s }) == (LogicalModel::Decimal { width: w2, scale: s2 })
            ==> w2 == w && s2 == s,
{
}

/// A scalar column is declared by its own type code, and a parameterless logical type whose code
/// a scalar description rebuilds comes back as that scalar.
pub proof fn lemma_scalar_keeps_type(t: TypeId)
    ensures
        desc_to_logical(TypeDescModel::Scalar(t)) == LogicalModel::Simple(spec_type_code(t)),
        is_rebuildable_scalar(t) ==> logical_to_desc(LogicalModel::Simple(spec_type_code(t))) == Ok::<TypeDescModel, Seq<char>>(TypeDescModel::Scalar(t)),
{
    crate::type_id::lemma_type_code_round_trip(t);
}

impl DuckTypeDesc {
    /// The logical type this description declares (a `DuckTypeDesc` is rebuilt into a DuckDB
    /// logical type from this shape when a result column is declared).
    pub fn to_logical_type(&self) -> (l: LogicalTypeInfo)
        ensures
            l@ == desc_to_logical(self@),
            self@ matches TypeDescModel::Decimal { width, scale } ==> l@ == (LogicalModel::Decimal { width, scale }),
            self@ matches TypeDescModel::Scalar(t) ==> l@ == LogicalModel::Simple(spec_type_code(t)),
            self@ matches TypeDescModel::List(e) ==> l@ == LogicalModel::List(Box::new(desc_to_logical(*e))),
            self@ matches TypeDescModel::MapOf(k, v)
                ==> l@ == LogicalModel::MapOf(Box::new(desc_to_logical(*k)), Box::new(desc_to_logical(*v))),
            self@ matches TypeDescModel::Struct(fields) ==> (l@ matches LogicalModel::Struct(lf)
                && lf.len() == fields.len()
                && forall|i: int| 0 <= i < fields.len()
                    ==> (#[trigger] lf[i]).0 == fields[i].0 && lf[i].1 == desc_to_logical(fields[i].1)),
        decreases self,
    {
        match self {
            DuckTypeDesc::Scalar(t) => LogicalTypeInfo::Simple(t.code()),
            DuckTypeDesc::Decimal { width, scale } => LogicalTypeInfo::Decimal { width: *width, scale: *scale },
            DuckTypeDesc::List(element) => {
                let e = element.to_logical_type();
                let l = LogicalTypeInfo::List(Box::new(e));
                assert(l@ == LogicalModel::List(Box::new(e@)));
                l
            },
            DuckTypeDesc::Struct(fields) => {
                let ghost fields_m = self@->Struct_0;
                let mut out: Vec<(String, LogicalTypeInfo)> = Vec::new();
                let mut i: usize = 0;
                while i < fields.len()
                    invariant
                        0 <= i <= fields@.len(),
                        fields_m == self@->Struct_0,
                        fields_m.len() == fields@.len(),
                        *self == DuckTypeDesc::Struct(*fields),
                        out@.len() == i,
                        forall|j: int| 0 <= j < i ==> #[trigger] out@[j].0@ == fields_m[j].0
                            && logical_model(out@[j].1) == desc_to_logical(fields_m[j].1),
                    decreases fields@.len() - i,
                {
                    assert(fields_m[i as int] == (fields@[i as int].0@, desc_model(fields@[i as int].1)));
                    proof {
                        assert(decreases_to!(fields@ => fields@[i as int]));
                    }
                    let name = fields[i].0.clone();
                    let child = fields[i].1.to_logical_type();
                    out.push((name, child));
                    i = i + 1;
                }
                let l = LogicalTypeInfo::Struct(out);
                assert(l@->Struct_0 =~= desc_to_logical(self@)->Struct_0);
                l
            },
            DuckTypeDesc::MapOf(key, value) => {
                let k = key.to_logical_type();
                let v = value.to_logical_type();
                let l = LogicalTypeInfo::MapOf(Box::new(k), Box::new(v));
                assert(l@ == LogicalModel::MapOf(Box::new(k@), Box::new(v@)));
                assert(self@ == TypeDescModel::MapOf(Box::new(key@), Box::new(value@)));
                l
            },
        }
    }

    /// Rebuilds a description from the shape of an external logical type (used at bind time when
    /// the schema comes from a file or other metadata).
    ///
    /// Primitives, wrappers, `DECIMAL`, `LIST`, `STRUCT` and `MAP` are supported and may nest
    /// arbitrarily. An unknown type code, or a type such as `ENUM`, `ARRAY`, `UNION` or `BIT`
    /// whose parameters a description cannot carry, is an error; the first such part met
    /// (depth first, left to right) decides the message.
    pub fn from_logical_type(info: &LogicalTypeInfo) -> (r: DuckResult<DuckTypeDesc>)
        ensures
            rebuild_result_matches(r, logical_to_desc(info@)),
            info@ matches LogicalModel::Decimal { width, scale }
                ==> (r matches Ok(d) && d@ == (TypeDescModel::Decimal { width, scale })),
            info@ matches LogicalModel::List(e) ==> (r matches Ok(d) ==> d@ matches TypeDescModel::List(de)
                && logical_to_desc(*e) == Ok::<TypeDescModel, Seq<char>>(*de)),
            info@ matches LogicalModel::MapOf(k, v) ==> (r matches Ok(d) ==> d@ matches TypeDescModel::MapOf(dk, dv)
                && logical_to_desc(*k) == Ok::<TypeDescModel, Seq<char>>(*dk)
                && logical_to_desc(*v) == Ok::<TypeDescModel, Seq<char>>(*dv)),
        decreases info,
    {
        match info {
            LogicalTypeInfo::Simple(code) => {
                match TypeId::from_code(*code) {
                    None => {
                        let mut m = String::from_str("dynamic table function: unknown DuckDB type id ");
                        m.append(u64_text(*code as u64).as_str());
                        m.append("; cannot build a DuckTypeDesc from this logical type");
                        Err(duck_error_owned(m))
                    },
                    Some(t) => match DuckTypeDesc::from_scalar_type_id(t) {
                        Some(d) => Ok(d),
                        None => {
                            let mut m = String::from_str("dynamic table function: the DuckDB logical type `");
                            m.append(t.debug_name());
                            m.append("` cannot be turned into a DuckTypeDesc (its parameters are not expressible); use a supported scalar, DECIMAL, LIST, STRUCT or MAP instead");
                            Err(duck_error_owned(m))
                        },
                    },
                }
            },
            LogicalTypeInfo::Decimal { width, scale } => Ok(DuckTypeDesc::Decimal { width: *width, scale: *scale }),
            LogicalTypeInfo::List(child) => {
                assert(info@ == LogicalModel::List(Box::new(child@)));
                match DuckTypeDesc::from_logical_type(child) {
                    Ok(e) => {
                        let d = DuckTypeDesc::List(Box::new(e));
                        assert(d@ == TypeDescModel::List(Box::new(e@)));
                        Ok(d)
                    },
                    Err(err) => Err(err),
                }
            },
            LogicalTypeInfo::Struct(children) => {
                let ghost l = info@;
                let ghost children_m = info@->Struct_0;
                let mut fields: Vec<(String, DuckTypeDesc)> = Vec::new();
                let ghost mut acc: Seq<(Seq<char>, TypeDescModel)> = Seq::empty();
                let mut i: usize = 0;
                while i < children.len()
                    invariant
                        0 <= i <= children@.len(),
                        l == info@,
                        children_m == l->Struct_0,
                        children_m.len() == children@.len(),
                        *info == LogicalTypeInfo::Struct(*children),
                        logical_to_desc_upto(l, i as int) == Ok::<TypeDescModel, Seq<char>>(TypeDescModel::Struct(acc)),
                        acc.len() == i,
                        fields@.len() == i,
                        forall|j: int| 0 <= j < i ==> #[trigger] acc[j] == (fields@[j].0@, desc_model(fields@[j].1)),
                    decreases children@.len() - i,
                {
                    assert(children_m[i as int] == (children@[i as int].0@, logical_model(children@[i as int].1)));
                    proof {
                        assert(decreases_to!(children@ => children@[i as int]));
                    }
                    match DuckTypeDesc::from_logical_type(&children[i].1) {
                        Ok(d) => {
                            let name = children[i].0.clone();
                            proof {
                                acc = acc.push((name@, d@));
                            }
                            fields.push((name, d));
                            i = i + 1;
                        },
                        Err(err) => {
                            assert(logical_to_desc_upto(l, (i + 1) as int) == Err::<TypeDescModel, Seq<char>>(err.spec_message()));
                            assert(logical_to_desc(l) == logical_to_desc_upto(l, children_m.len() as int));
                            proof { lemma_first_error_stays(l, (i + 1) as int, children_m.len() as int); }
                            return Err(err);
                        },
                    }
                }
                let d = DuckTypeDesc::Struct(fields);
                assert(d@->Struct_0 =~= acc);
                Ok(d)
            },
            LogicalTypeInfo::MapOf(key, value) => {
                assert(info@ == LogicalModel::MapOf(Box::new(key@), Box::new(value@)));
                match DuckTypeDesc::from_logical_type(key) {
                    Err(err) => Err(err),
                    Ok(k) => match DuckTypeDesc::from_logical_type(value) {
                        Err(err) => Err(err),
                        Ok(v) => {
                            let d = DuckTypeDesc::MapOf(Box::new(k), Box::new(v));
                            assert(d@ == TypeDescModel::MapOf(Box::new(k@), Box::new(v@)));
                            Ok(d)
                        },
                    },
                }
            },
        }
    }
}

/// Once a struct prefix fails, every longer prefix fails with the same message.
proof fn lemma_first_error_stays(l: LogicalModel, n: int, m: int)
    requires
        l is Struct,
        0 < n <= m <= logical_field_count(l),
        logical_to_desc_upto(l, n) is Err,
    ensures
        logical_to_desc_upto(l, m) == logical_to_desc_upto(l, n),
    decreases m - n,
{
    if m > n {
        lemma_first_error_stays(l, n, m - 1);
    }
}

} // verus!
