//! The plan behind `#[derive(DuckStruct)]`: which columns a row struct has, which of them are
//! nullable, what value type each column reads and writes, and which fields are the named
//! parameters of a table function.

use vstd::prelude::*;
use crate::rust_type::{RustType, generic_element, option_element_type};
use crate::naming::text_eq;

verus! {

/// The refusal of a derive on anything but a struct with named fields.
pub const NAMED_FIELDS_ONLY: &'static str = "Only named fields are allowed";

/// One named field of a struct.
#[derive(Debug)]
pub struct NamedField {
    /// The field's name.
    pub name: String,
    /// The field's type.
    pub ty: RustType,
}

/// The data of the item a derive is applied to.
#[derive(Debug)]
pub enum StructShape {
    /// A struct with named fields, in declaration order.
    NamedFields(Vec<NamedField>),
    /// A tuple struct, a unit struct, an enum or a union.
    Other,
}

/// One column of a derived row struct.
#[derive(Debug)]
pub struct DuckStructColumn<'a> {
    /// The field's (and the column's) name.
    pub name: &'a String,
    /// The field's index: the column and child-vector index.
    pub index: usize,
    /// Whether the field is a named parameter of a table function.
    pub is_named_param: bool,
    /// Whether the field is `Option<T>` (its NULLs read as `None`).
    pub nullable: bool,
    /// The type read and written for the column: `T` for `Option<T>`, the field's type otherwise.
    pub value_type: &'a RustType,
}

/// The index of the first field named `name`.
pub open spec fn first_field_named(fields: Seq<NamedField>, name: Seq<char>) -> Option<int>
    decreases fields.len(),
{
    if fields.len() == 0 {
        None
    } else if fields[0].name@ == name {
        Some(0)
    } else {
        match first_field_named(fields.drop_first(), name) {
            Some(i) => Some(i + 1),
            None => None,
        }
    }
}

/// Whether field `i` is a named parameter: it is the `named_param_from` field or comes after it.
pub open spec fn is_named_param_spec(fields: Seq<NamedField>, from: Option<Seq<char>>, i: int) -> bool {
    match from {
        Some(n) => first_field_named(fields, n) matches Some(k) && k <= i,
        None => false,
    }
}

/// The named parameters are a suffix of the fields: once a field is one, so is every field after
/// it, and with `named_param_from` given and present, the field it names is the first of them.
pub proof fn lemma_named_params_are_a_suffix(fields: Seq<NamedField>, from: Option<Seq<char>>, i: int, j: int)
    requires
        0 <= i <= j < fields.len(),
        is_named_param_spec(fields, from, i),
    ensures
        is_named_param_spec(fields, from, j),
        from matches Some(n) ==> fields[first_field_named(fields, n)->0].name@ == n
            && forall|k: int| 0 <= k < first_field_named(fields, n)->0 ==> !is_named_param_spec(fields, from, k),
{
    if let Some(n) = from {
        lemma_first_field_named_range(fields, n);
    }
}

/// The message for a `named_param_from` that names no field.
pub open spec fn named_param_missing_message(name: Seq<char>) -> Seq<char> {
    "named_param_from field `"@ + name + "` not found"@
}

/// Whether a planned column describes field `i`.
pub open spec fn column_fits(c: DuckStructColumn, fields: Seq<NamedField>, from: Option<Seq<char>>, i: int) -> bool {
    let f = fields[i];
    &&& *c.name == f.name
    &&& c.index == i
    &&& c.is_named_param == is_named_param_spec(fields, from, i)
    &&& c.nullable == (generic_element(f.ty, "Option"@) is Some)
    &&& *c.value_type == match generic_element(f.ty, "Option"@) {
        Some(t) => t,
        None => f.ty,
    }
}

/// [`first_field_named`] finds the first field of the name, or says that none has it.
proof fn lemma_first_field_named_range(fields: Seq<NamedField>, name: Seq<char>)
    ensures
        match first_field_named(fields, name) {
            Some(k) => 0 <= k < fields.len() && fields[k].name@ == name
                && forall|j: int| 0 <= j < k ==> (#[trigger] fields[j]).name@ != name,
            None => forall|j: int| 0 <= j < fields.len() ==> (#[trigger] fields[j]).name@ != name,
        },
    decreases fields.len(),
{
    if fields.len() > 0 {
        lemma_first_field_named_range(fields.drop_first(), name);
        assert forall|j: int| 1 <= j < fields.len() implies #[trigger] fields[j] == fields.drop_first()[j - 1] by {}
    }
}

/// Plans the columns of `#[derive(DuckStruct)]`: only a struct with named fields is accepted,
/// and when `named_param_from` is given, that field and every field after it are the named
/// parameters (the field must exist).
pub fn duck_struct_derive<'a>(data: &'a StructShape, named_param_from: Option<&str>) -> (r: Result<Vec<DuckStructColumn<'a>>, String>)
    ensures
        match *data {
            StructShape::Other => r matches Err(m) && m@ == NAMED_FIELDS_ONLY@,
            StructShape::NamedFields(fields) => match named_param_from {
                Some(n) if first_field_named(fields@, n@) is None =>
                    r matches Err(m) && m@ == named_param_missing_message(n@),
                _ => r matches Ok(cols) && cols@.len() == fields@.len() && forall|i: int|
                    0 <= i < fields@.len() ==> column_fits(#[trigger] cols@[i], fields@, match named_param_from {
                        Some(n) => Some(n@),
                        None => None::<Seq<char>>,
                    }, i),
            },
        },
{
    let fields = match data {
        StructShape::NamedFields(fields) => fields,
        StructShape::Other => {
            return Err(String::from_str(NAMED_FIELDS_ONLY));
        },
    };
    let ghost from: Option<Seq<char>> = match named_param_from {
        Some(n) => Some(n@),
        None => None,
    };
    let mut columns: Vec<DuckStructColumn<'a>> = Vec::new();
    let mut started = false;
    let mut i: usize = 0;
    while i < fields.len()
        invariant
            0 <= i <= fields@.len(),
            *data == StructShape::NamedFields(*fields),
            from == (match named_param_from {
                Some(n) => Some(n@),
                None => None::<Seq<char>>,
            }),
            columns@.len() == i,
            forall|j: int| 0 <= j < i ==> column_fits(#[trigger] columns@[j], fields@, from, j),
            started ==> (from matches Some(n) && first_field_named(fields@, n) matches Some(k) && k < i),
            !started ==> (match from {
                Some(n) => forall|j: int| 0 <= j < i ==> (#[trigger] fields@[j]).name@ != n,
                None => true,
            }),
        decreases fields@.len() - i,
    {
        let field = &fields[i];
        if !started {
            match named_param_from {
                Some(n) => {
                    if text_eq(field.name.as_str(), n) {
                        proof {
                            lemma_first_field_named_range(fields@, n@);
                        }
                        started = true;
                    }
                },
                None => {},
            }
        }
        proof {
            if let Some(n) = from {
                lemma_first_field_named_range(fields@, n);
            }
        }
        let inner = option_element_type(&field.ty);
        let (nullable, value_type) = match inner {
            Some(t) => (true, t),
            None => (false, &field.ty),
        };
        let column = DuckStructColumn { name: &field.name, index: i, is_named_param: started, nullable, value_type };
        columns.push(column);
        i = i + 1;
    }
    match named_param_from {
        Some(n) => {
            if !started {
                proof {
                    lemma_first_field_named_range(fields@, n@);
                }
                let mut m = String::from_str("named_param_from field `");
                m.append(n);
                m.append("` not found");
                return Err(m);
            }
        },
        None => {},
    }
    Ok(columns)
}

} // verus!
