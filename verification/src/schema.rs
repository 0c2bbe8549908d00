//! The schema of a dynamic result: an ordered list of `(column name, column type)` pairs.

use vstd::prelude::*;
use vstd::std_specs::convert::FromSpecImpl;
use crate::type_id::TypeId;
use crate::type_desc::{DuckTypeDesc, TypeDescModel, desc_model};
use crate::logical_type::{LogicalTypeInfo, desc_to_logical};

verus! {

/// A dynamic result schema: an ordered list of `(column name, column type)` pairs.
#[derive(Debug)]
pub struct DuckResultSchema {
    /// The column definitions; the order is the output column order.
    columns: Vec<(String, DuckTypeDesc)>,
}

/// The model of a list of column definitions.
pub open spec fn columns_model(columns: Seq<(String, DuckTypeDesc)>) -> Seq<(Seq<char>, TypeDescModel)> {
    Seq::new(columns.len(), |i: int| (columns[i].0@, desc_model(columns[i].1)))
}

impl View for DuckResultSchema {
    type V = Seq<(Seq<char>, TypeDescModel)>;

    closed spec fn view(&self) -> Seq<(Seq<char>, TypeDescModel)> {
        columns_model(self.columns@)
    }
}

impl DuckResultSchema {
    /// The column definitions as held.
    pub closed spec fn spec_columns(&self) -> Seq<(String, DuckTypeDesc)> {
        self.columns@
    }

    /// The view is the model of the held column definitions.
    pub proof fn lemma_view(&self)
        ensures
            self@ == columns_model(self.spec_columns()),
    {
    }

    /// Builds a schema from a list of `(column name, column type)` pairs.
    pub fn new(columns: Vec<(String, DuckTypeDesc)>) -> (s: DuckResultSchema)
        ensures
            s.spec_columns() == columns@,
            s@ == columns_model(columns@),
    {
        DuckResultSchema { columns }
    }

    /// A convenience constructor for an all-scalar schema, from `(name, type id)` pairs.
    pub fn from_scalar_types(columns: &[(&str, TypeId)]) -> (s: DuckResultSchema)
        ensures
            s@ == Seq::new(columns@.len(), |i: int| (columns@[i].0@, TypeDescModel::Scalar(columns@[i].1))),
    {
        let mut out: Vec<(String, DuckTypeDesc)> = Vec::new();
        let mut i: usize = 0;
        while i < columns.len()
            invariant
                0 <= i <= columns@.len(),
                out@.len() == i,
                forall|j: int| 0 <= j < i ==> (#[trigger] out@[j]).0@ == columns@[j].0@
                    && desc_model(out@[j].1) == TypeDescModel::Scalar(columns@[j].1),
            decreases columns@.len() - i,
        {
            let name: &str = columns[i].0;
            let type_id = columns[i].1;
            let d = DuckTypeDesc::Scalar(type_id);
            assert(desc_model(d) == TypeDescModel::Scalar(type_id));
            let owned = name.to_owned();
            assert(owned@ == columns@[i as int].0@);
            out.push((owned, d));
            i = i + 1;
        }
        let s = DuckResultSchema { columns: out };
        assert(s@ =~= Seq::new(columns@.len(), |i: int| (columns@[i].0@, TypeDescModel::Scalar(columns@[i].1))));
        s
    }

    /// The column definitions (the order is the output column order).
    pub fn columns(&self) -> (c: &[(String, DuckTypeDesc)])
        ensures
            c@ == self.spec_columns(),
    {
        self.columns.as_slice()
    }

    /// The definition of column `index`, if there is one.
    pub fn column(&self, index: usize) -> (c: Option<&(String, DuckTypeDesc)>)
        ensures
            index < self@.len() ==> c == Some(&self.spec_columns()[index as int]),
            index >= self@.len() ==> c is None,
    {
        if index < self.columns.len() {
            Some(&self.columns[index])
        } else {
            None
        }
    }

    /// The number of columns.
    pub fn len(&self) -> (n: usize)
        ensures
            n == self@.len(),
    {
        self.columns.len()
    }

    /// Whether there are no columns at all.
    pub fn is_empty(&self) -> (b: bool)
        ensures
            b == (self@.len() == 0),
    {
        self.columns.len() == 0
    }

    /// The logical type of every column (same order as [`Self::columns`]).
    pub fn to_logical_types(&self) -> (types: Vec<LogicalTypeInfo>)
        ensures
            types@.len() == self@.len(),
            forall|i: int| 0 <= i < types@.len() ==> #[trigger] types@[i]@ == desc_to_logical(self@[i].1),
    {
        let mut out: Vec<LogicalTypeInfo> = Vec::new();
        let mut i: usize = 0;
        while i < self.columns.len()
            invariant
                0 <= i <= self.columns@.len(),
                out@.len() == i,
                forall|j: int| 0 <= j < i ==> #[trigger] out@[j]@ == desc_to_logical(self@[j].1),
            decreases self.columns@.len() - i,
        {
            out.push(self.columns[i].1.to_logical_type());
            i = i + 1;
        }
        out
    }
}

impl Default for DuckResultSchema {
    /// The schema without columns.
    fn default() -> (s: DuckResultSchema)
        ensures
            s@.len() == 0,
    {
        DuckResultSchema { columns: Vec::new() }
    }
}

impl From<Vec<(String, DuckTypeDesc)>> for DuckResultSchema {
    /// `Vec<(column name, column type)>` → schema.
    fn from(columns: Vec<(String, DuckTypeDesc)>) -> (s: DuckResultSchema) {
        DuckResultSchema { columns }
    }
}

impl FromSpecImpl<Vec<(String, DuckTypeDesc)>> for DuckResultSchema {
    open spec fn obeys_from_spec() -> bool {
        true
    }

    closed spec fn from_spec(columns: Vec<(String, DuckTypeDesc)>) -> DuckResultSchema {
        DuckResultSchema { columns }
    }
}

} // verus!
