//! The checks of a `COPY ... FROM` reader: it takes exactly one positional parameter (the file
//! path), and it reads into the target table's schema, whose columns are named after the table
//! (or `column_<i>` where the table gives no name) and described by their rebuilt types.

use vstd::prelude::*;
use crate::error::{DuckResult, duck_error, duck_error_owned};
use crate::logical_type::{LogicalTypeInfo, LogicalModel, logical_to_desc};
use crate::type_desc::{DuckTypeDesc, TypeDescModel};
use crate::schema::{DuckResultSchema, columns_model};
use crate::copy_options::copy_column_name;
use crate::text::{decimal_text, u64_text};

verus! {

/// How many of some parameters are positional (declared without a name).
pub open spec fn positional_count(names: Seq<Option<Seq<char>>>) -> nat
    decreases names.len(),
{
    if names.len() == 0 {
        0
    } else {
        positional_count(names.drop_last()) + if names.last() is None { 1nat } else { 0nat }
    }
}

/// The message for a reader whose parameters are not exactly one positional path.
pub open spec fn path_parameter_message(function: Seq<char>, positional: nat) -> Seq<char> {
    function + ": a COPY FROM reader must declare exactly one positional parameter (the file path), but its arguments declare "@
        + decimal_text(positional)
}

/// Checks that a `COPY ... FROM` reader declares exactly one positional parameter, the file path;
/// `parameters` holds the name of each parameter its arguments declare (`None` for a positional
/// one).
pub fn ensure_single_path_parameter(function: &str, parameters: &[Option<&str>]) -> (r: DuckResult<()>)
    ensures
        r is Ok <==> positional_count(Seq::new(parameters@.len(), |i: int| match parameters@[i] {
            Some(n) => Some(n@),
            None => None::<Seq<char>>,
        })) == 1,
        r matches Err(e) ==> e.spec_message() == path_parameter_message(function@, positional_count(Seq::new(parameters@.len(), |i: int| match parameters@[i] {
            Some(n) => Some(n@),
            None => None::<Seq<char>>,
        }))),
{
    let ghost names = Seq::new(parameters@.len(), |i: int| match parameters@[i] {
        Some(n) => Some(n@),
        None => None::<Seq<char>>,
    });
    let mut positional: usize = 0;
    let mut i: usize = 0;
    assert(names.take(0) =~= Seq::<Option<Seq<char>>>::empty());
    while i < parameters.len()
        invariant
            0 <= i <= parameters@.len(),
            names == Seq::new(parameters@.len(), |i: int| match parameters@[i] {
                Some(n) => Some(n@),
                None => None::<Seq<char>>,
            }),
            positional == positional_count(names.take(i as int)),
            positional <= i,
        decreases parameters@.len() - i,
    {
        assert(names.take(i as int + 1).drop_last() =~= names.take(i as int));
        if parameters[i].is_none() {
            positional = positional + 1;
        }
        i = i + 1;
    }
    assert(names.take(parameters@.len() as int) =~= names);
    if positional == 1 {
        Ok(())
    } else {
        let mut m = String::from_str(function);
        m.append(": a COPY FROM reader must declare exactly one positional parameter (the file path), but its arguments declare ");
        m.append(u64_text(positional as u64).as_str());
        Err(duck_error_owned(m))
    }
}

/// The message for a target table without columns.
pub open spec fn no_target_columns_message() -> Seq<char> {
    "copy from: the target table has no columns; a COPY FROM reader reads the target schema instead of declaring result columns"@
}

/// The name of target column `index`: the table's name for it, or `column_<index>`.
pub open spec fn target_column_name(name: Option<Seq<char>>, index: int) -> Seq<char> {
    match name {
        Some(n) => n,
        None => copy_column_name(index),
    }
}

/// The schema of the first `n` target columns, or the error of the first one no description can
/// express.
pub open spec fn target_schema_upto(columns: Seq<(Option<Seq<char>>, LogicalModel)>, n: int) -> Result<Seq<(Seq<char>, TypeDescModel)>, Seq<char>>
    decreases n,
{
    if n <= 0 {
        Ok(Seq::empty())
    } else {
        match target_schema_upto(columns, n - 1) {
            Err(m) => Err(m),
            Ok(prev) => match logical_to_desc(columns[n - 1].1) {
                Err(m) => Err(m),
                Ok(d) => Ok(prev.push((target_column_name(columns[n - 1].0, n - 1), d))),
            },
        }
    }
}

/// The model of the target columns as read.
pub open spec fn target_columns_model(columns: Seq<(Option<String>, LogicalTypeInfo)>) -> Seq<(Option<Seq<char>>, LogicalModel)> {
    Seq::new(columns.len(), |i: int| (match columns[i].0 {
        Some(n) => Some(n@),
        None => None::<Seq<char>>,
    }, columns[i].1@))
}

/// Once a prefix of the target columns fails, every longer prefix fails with the same message.
proof fn lemma_target_error_stays(columns: Seq<(Option<Seq<char>>, LogicalModel)>, n: int, m: int)
    requires
        0 < n <= m,
        target_schema_upto(columns, n) is Err,
    ensures
        target_schema_upto(columns, m) == target_schema_upto(columns, n),
    decreases m - n,
{
    if m > n {
        lemma_target_error_stays(columns, n, m - 1);
    }
}

/// Builds the schema a `COPY ... FROM` reader fills from the target table's columns (each its
/// name, when the table gives one, and its logical type): a table without columns is refused, and
/// so is the first column type no description can express.
pub fn read_target_schema(columns: &[(Option<String>, LogicalTypeInfo)]) -> (r: DuckResult<DuckResultSchema>)
    ensures
        columns@.len() == 0 ==> (r matches Err(e) && e.spec_message() == no_target_columns_message()),
        columns@.len() > 0 ==> match (r, target_schema_upto(target_columns_model(columns@), columns@.len() as int)) {
            (Ok(s), Ok(m)) => s@ == m,
            (Err(e), Err(m)) => e.spec_message() == m,
            _ => false,
        },
{
    if columns.len() == 0 {
        proof {
            reveal_strlit("copy from: the target table has no columns; a COPY FROM reader reads the target schema instead of declaring result columns");
        }
        return Err(duck_error("copy from: the target table has no columns; a COPY FROM reader reads the target schema instead of declaring result columns"));
    }
    let ghost model = target_columns_model(columns@);
    let mut out: Vec<(String, DuckTypeDesc)> = Vec::new();
    let mut i: usize = 0;
    assert(columns_model(out@) =~= Seq::<(Seq<char>, TypeDescModel)>::empty());
    while i < columns.len()
        invariant
            0 <= i <= columns@.len(),
            model == target_columns_model(columns@),
            target_schema_upto(model, i as int) == Ok::<Seq<(Seq<char>, TypeDescModel)>, Seq<char>>(columns_model(out@)),
        decreases columns@.len() - i,
    {
        let (name, info) = &columns[i];
        match DuckTypeDesc::from_logical_type(info) {
            Ok(d) => {
                let column_name = match name {
                    Some(n) => n.clone(),
                    None => {
                        let mut generated = String::from_str("column_");
                        generated.append(u64_text(i as u64).as_str());
                        generated
                    },
                };
                assert(column_name@ == target_column_name(model[i as int].0, i as int));
                let ghost before = out@;
                out.push((column_name, d));
                assert(columns_model(out@) =~= columns_model(before).push((target_column_name(model[i as int].0, i as int), d@)));
                i = i + 1;
            },
            Err(e) => {
                proof {
                    lemma_target_error_stays(model, i as int + 1, columns@.len() as int);
                }
                return Err(e);
            },
        }
    }
    Ok(DuckResultSchema::new(out))
}

} // verus!
