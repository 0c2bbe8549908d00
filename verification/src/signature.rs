//! What the attribute macros read from an annotated function's signature, and the decisions
//! they take on it: which return shape a scalar, table, SQL-macro, replacement-scan or copy
//! function has, which parameter is the aggregate state, how a batch or variadic signature
//! splits, and which message a signature that fits none of the shapes is refused with.

use vstd::prelude::*;
use crate::rust_type::{
    RustType, DuckStrKind, path_named, generic_element, same_type_option, bounds_item,
    is_str_type_spec, str_kind_spec, is_dynamic_rows_ref_spec, is_path_named,
    generic_element_type, vec_element_type, option_element_type, iterator_item_type, is_str_type,
    is_sql_macro_type, replacement_scan_str_kind, is_usize_type, is_dynamic_rows_ref,
};

verus! {

/// The refusal of a parameter that is not `name: Type`.
pub const ARG_HINT: &'static str = "Only like `foo: f64` is supported";

/// The refusal of an aggregate state parameter that is not a reference.
pub const STATE_NOT_REFERENCE: &'static str = "The aggregate state parameter must be a mutable reference like `&mut MyState`";

/// The refusal of an aggregate state parameter that is a shared reference.
pub const STATE_NOT_MUTABLE: &'static str = "The aggregate state parameter must be mutable: `&mut MyState`";

/// The refusal of an aggregate function without a `&mut` state parameter.
pub const STATE_NOT_FOUND: &'static str = "Aggregate state type not found";

/// The refusal of a scalar or cast function's return type.
pub const SCALAR_RETURN_HINT: &'static str = "Only like `-> f64` `-> Option<f64>` `-> DuckOptionResult<f64>` is supported";

/// The refusal of a table function's return type.
pub const TABLE_RETURN_HINT: &'static str = "Only like
                `-> impl Iterator<Item = SomeDuckStruct>`: simple;
                `-> DuckResult<impl Iterator<Item = SomeDuckStruct>>`: handle input err;
                `-> DuckFullIteratorResult<SomeDuckStruct>`: handle input err and output row err;
            is supported";

/// The refusal of a dynamic-columns table function's return type.
pub const DYNAMIC_TABLE_RETURN_TYPE_HINT: &'static str = r#"With `#[duck_table_function(dynamic_columns = true)]` the function must build the result table
    (schema + row iterator) itself, so only these return types are supported:
    `-> DuckDynamicTable`: the schema and rows are produced directly;
    `-> DuckResult<DuckDynamicTable>`: same, but the bind step may fail;
    Build the schema with `duckfn::DuckResultSchema` and the rows with
    `duckfn::DuckDynamicRow` / `duckfn::DuckDynamicValue`, then return
    `duckfn::DuckDynamicTable::new(schema, Box::new(rows))`."#;

/// The refusal of a SQL macro function's return type.
pub const SQL_MACRO_RETURN_TYPE_HINT: &'static str = r#"Only like
    `-> SqlMacro`: plain sql macro;
    `-> DuckResult<SqlMacro>`: handle input err;
    `-> String` / `-> &'static str`: plain sql string, executed directly;
    `-> DuckResult<String>` / `-> DuckResult<&'static str>`;
is supported"#;

/// The refusal of a replacement scan's return type.
pub const REPLACEMENT_SCAN_RETURN_TYPE_HINT: &'static str = r#"Only like
    `-> Option<String>` / `-> Option<&'static str>`: redirect when matched;
    `-> DuckOptionResult<String>` / `-> DuckOptionResult<&'static str>`: redirect when matched, may fail the query;
is supported"#;

/// The refusal of a replacement scan's parameters.
pub const REPLACEMENT_SCAN_SIGNATURE_HINT: &'static str = r#"Only like
    `fn my_scan(path: &str) -> DuckOptionResult<String>`: takes the unresolved table name (usually a file path) and returns the table function to use;
is supported"#;

/// The refusal of a `COPY ... FROM` function's signature.
pub const COPY_FROM_SIGNATURE_HINT: &'static str = r#"Only like
    `fn my_read(reader: &mut MyReader, limit: usize) -> DuckResult<Vec<DuckDynamicRow>>`: the arguments are the reader state (a `&mut` type implementing `duckfn::DuckCopyFromReader`) and the maximum number of rows in this batch, in either order, and the return type is `DuckResult<Vec<DuckDynamicRow>>` (an empty `Vec` ends the stream);
is supported"#;

/// The refusal of a `COPY ... TO` function's signature.
pub const COPY_TO_SIGNATURE_HINT: &'static str = r#"Only like
    `fn my_copy(writer: &mut MyWriter, rows: &[DuckDynamicRow]) -> DuckResult<()>`: the arguments are the copy writer (a `&mut` type implementing `duckfn::DuckCopyToWriter`) and the batch of dynamic rows to write, in either order, and the return type is `DuckResult<()>`;
is supported"#;

/// The refusal of a cast function's parameters.
pub const CAST_SIGNATURE_HINT: &'static str = r#"Only like
    `fn my_cast(from: SourceType) -> TargetType`: the single argument is the source value, the return type is the target type;
    `fn my_cast(from: Option<SourceType>) -> TargetType`: NULL is passed in as None;
is supported"#;

/// The refusal of a batch scalar function's signature.
pub const BATCH_SIGNATURE_HINT: &'static str = r#"Only like
    `fn my_batch(rows: Vec<MyRow>) -> Vec<T>` or
    `fn my_batch(rows: Vec<Option<MyRow>>) -> DuckOptionResult<Vec<Option<T>>>`
is supported with `batch = true`: the single parameter is the whole batch of rows and the return
value is the whole batch of results. `MyRow` is a `DuckColumns` row struct (usually
`#[derive(DuckStruct)]`); `Vec<MyRow>` receives only the non-NULL rows (NULL rows are filled back in
at their original positions), while `Vec<Option<MyRow>>` receives the NULL rows as `None` and is
responsible for them itself. The return type may be `Vec<T>`, `Vec<Option<T>>`,
`DuckOptionResult<Vec<T>>` or `DuckOptionResult<Vec<Option<T>>>`."#;

/// The refusal of `volatile = true` on an overload.
pub const VOLATILE_OVERLOAD_MESSAGE: &'static str = "`volatile = true` cannot be combined with `overloads_name`: quack-rs' `ScalarOverloadBuilder` exposes no volatile switch, so the flag would be dropped silently. Register the function under its own name instead.";

/// The refusal of `varargs = true` on an overload.
pub const VARARGS_OVERLOAD_MESSAGE: &'static str = "`varargs = true` cannot be combined with `overloads_name`: quack-rs' `ScalarOverloadBuilder` exposes no varargs switch, so the flag would be dropped silently. Register the function under its own name instead.";

/// The refusal of `varargs = true` on a function without parameters.
pub const VARARGS_EMPTY_MESSAGE: &'static str = "`varargs = true` requires at least one parameter, and the last one must be `Vec<T>`";

/// The refusal of `varargs = true` when the last parameter is not a `Vec`.
pub const VARARGS_LAST_MESSAGE: &'static str = "With `varargs = true` the last parameter must be `Vec<T>`, where `T` is the type of one variadic argument (use `Vec<Option<U>>` for nullable arguments or `Vec<Vec<U>>` when each argument is itself a LIST)";

/// One parameter of an annotated function.
#[derive(Debug)]
pub enum FnArgWrapper {
    /// `pattern: Type`.
    Typed {
        /// The pattern's identifier when the pattern is a plain identifier (`foo` in `foo: f64`).
        ident: Option<String>,
        /// The parameter's type.
        ty: RustType,
    },
    /// `self`, `&self` or `&mut self`.
    Receiver,
}

/// The type of a parameter, when it is typed.
pub open spec fn arg_type(a: FnArgWrapper) -> Option<RustType> {
    match a {
        FnArgWrapper::Typed { ty, .. } => Some(ty),
        FnArgWrapper::Receiver => None,
    }
}

/// Whether a parameter is the aggregate state: its type is a `&mut` reference.
pub open spec fn is_agg_state_spec(a: FnArgWrapper) -> bool {
    arg_type(a) matches Some(RustType::Reference { mutable, .. }) && mutable
}

/// The state type of a parameter: the `T` of `&mut T`.
pub open spec fn state_type_spec(a: FnArgWrapper) -> Option<RustType> {
    match arg_type(a) {
        Some(RustType::Reference { mutable, elem }) => if mutable { Some(*elem) } else { None },
        _ => None,
    }
}

impl FnArgWrapper {
    /// The parameter's name; only `foo: f64` (an identifier and a type) is accepted.
    pub fn name(&self) -> (r: Result<&String, String>)
        ensures
            match r {
                Ok(n) => self matches FnArgWrapper::Typed { ident: Some(i), .. } && i == *n,
                Err(m) => !(self matches FnArgWrapper::Typed { ident: Some(_), .. }) && m@ == ARG_HINT@,
            },
    {
        match self {
            FnArgWrapper::Typed { ident: Some(i), .. } => Ok(i),
            _ => Err(String::from_str(ARG_HINT)),
        }
    }

    /// The parameter's type; a receiver has none.
    pub fn resolve_type(&self) -> (r: Result<&RustType, String>)
        ensures
            match r {
                Ok(t) => arg_type(*self) == Some(*t),
                Err(m) => arg_type(*self) is None && m@ == ARG_HINT@,
            },
    {
        match self {
            FnArgWrapper::Typed { ty, .. } => Ok(ty),
            FnArgWrapper::Receiver => Err(String::from_str(ARG_HINT)),
        }
    }

    /// The aggregate state type: the parameter must be `&mut State`, and `State` is returned.
    pub fn resolve_state_type(&self) -> (r: Result<&RustType, String>)
        ensures
            match r {
                Ok(t) => state_type_spec(*self) == Some(*t),
                Err(m) => state_type_spec(*self) is None && m@ == (match arg_type(*self) {
                    None => ARG_HINT@,
                    Some(RustType::Reference { .. }) => STATE_NOT_MUTABLE@,
                    Some(_) => STATE_NOT_REFERENCE@,
                }),
            },
    {
        let ty = match self.resolve_type() {
            Ok(t) => t,
            Err(e) => {
                return Err(e);
            },
        };
        match ty {
            RustType::Reference { mutable, elem } => {
                if *mutable {
                    Ok(&**elem)
                } else {
                    Err(String::from_str(STATE_NOT_MUTABLE))
                }
            },
            _ => Err(String::from_str(STATE_NOT_REFERENCE)),
        }
    }

    /// Whether the parameter is the aggregate state (a `&mut` reference).
    pub fn is_agg_state(&self) -> (r: bool)
        ensures
            r == is_agg_state_spec(*self),
    {
        match self {
            FnArgWrapper::Typed { ty: RustType::Reference { mutable, .. }, .. } => *mutable,
            _ => false,
        }
    }
}

/// The signature of a function annotated with one of the `#[duck_*]` attributes.
#[derive(Debug)]
pub struct ItemFnWrapper {
    /// The function's name.
    pub name: String,
    /// Its parameters, in order.
    pub inputs: Vec<FnArgWrapper>,
    /// Its return type; `None` for a function without `-> ...`.
    pub output: Option<RustType>,
}

/// The outer form of a scalar or cast function's return type.
#[derive(Debug, Clone, Copy, PartialEq, Eq, Structural)]
pub enum DuckScalarResult {
    /// `-> T`: never NULL.
    Plain,
    /// `-> Option<T>`: `None` is SQL NULL.
    Option,
    /// `-> DuckOptionResult<T>`: may fail, may be NULL.
    DuckOptionResult,
}

/// The outer form of a table function's return type.
#[derive(Debug, Clone, Copy, PartialEq, Eq, Structural)]
pub enum DuckTableResult {
    /// `-> DuckFullIteratorResult<Row>`: fails at bind and row by row.
    Full,
    /// `-> DuckResult<impl Iterator<Item = Row>>`: fails at bind.
    ResultIterator,
    /// `-> impl Iterator<Item = Row>`: never fails.
    SimpleIterator,
}

/// The outer form of a dynamic-columns table function's return type.
#[derive(Debug, Clone, Copy, PartialEq, Eq, Structural)]
pub enum DuckDynamicTableResult {
    /// `-> DuckDynamicTable`.
    Plain,
    /// `-> DuckResult<DuckDynamicTable>`.
    Result,
}

/// The return form of a SQL macro function.
#[derive(Debug, Clone, Copy, PartialEq, Eq, Structural)]
pub enum DuckSqlMacroResult {
    /// `-> SqlMacro`.
    SqlMacro,
    /// `-> DuckResult<SqlMacro>`.
    ResultSqlMacro,
    /// `-> String` or `-> &str`: SQL text run as it is.
    Str,
    /// `-> DuckResult<String>` or `-> DuckResult<&str>`.
    ResultStr,
}

/// The outer form of a replacement scan's return type.
#[derive(Debug, Clone, Copy, PartialEq, Eq, Structural)]
pub enum DuckReplacementScanResult {
    /// `-> Option<..>`.
    Option,
    /// `-> DuckOptionResult<..>`.
    OptionResult,
}

/// What a copy function's parameter receives in the generated call.
#[derive(Debug, Clone, Copy, PartialEq, Eq, Structural)]
pub enum CopyCallArg {
    /// The `&mut` reader or writer state.
    State,
    /// The row limit (`COPY ... FROM`) or the batch of rows (`COPY ... TO`).
    Data,
}

/// Which copy direction a signature is checked for.
#[derive(Debug, Clone, Copy, PartialEq, Eq, Structural)]
pub enum CopyDirection {
    /// `COPY ... FROM`: a `usize` limit, `-> DuckResult<Vec<DuckDynamicRow>>`.
    From,
    /// `COPY ... TO`: a `&[DuckDynamicRow]` batch, `-> DuckResult<...>`.
    To,
}

/// A batch scalar function's parameter, once read.
#[derive(Debug)]
pub struct BatchInput<'a> {
    /// The row type `MyRow`.
    pub row_type: &'a RustType,
    /// Whether the parameter is `Vec<Option<MyRow>>` (NULL rows passed in) rather than
    /// `Vec<MyRow>` (NULL rows left out and filled back in).
    pub nullable_rows: bool,
}

/// A batch scalar function's return type, once read.
#[derive(Debug)]
pub struct BatchReturn<'a> {
    /// `Plain` for `Vec<R>`, `DuckOptionResult` for `DuckOptionResult<Vec<R>>`.
    pub outer: DuckScalarResult,
    /// The per-row result type `R`.
    pub element: &'a RustType,
}

/// The `T` of a `-> DuckResult<T>` return type.
pub open spec fn duck_result_inner_spec(output: Option<RustType>) -> Option<RustType> {
    match output {
        Some(ty) => generic_element(ty, "DuckResult"@),
        None => None,
    }
}

/// The form and `Output` type of a scalar return type: `Option<T>` keeps itself as the output,
/// `DuckOptionResult<T>` gives `T`, any other path or an array is plain.
pub open spec fn scalar_return_spec(output: Option<RustType>) -> Option<(DuckScalarResult, RustType)> {
    match output {
        None => None,
        Some(ty) => if path_named(ty, "Option"@) {
            match generic_element(ty, "Option"@) {
                Some(_) => Some((DuckScalarResult::Option, ty)),
                None => None,
            }
        } else if path_named(ty, "DuckOptionResult"@) {
            match generic_element(ty, "DuckOptionResult"@) {
                Some(inner) => Some((DuckScalarResult::DuckOptionResult, inner)),
                None => None,
            }
        } else if ty is Path || ty is Array {
            Some((DuckScalarResult::Plain, ty))
        } else {
            None
        },
    }
}

/// The item of an `impl Iterator<Item = T>` type.
pub open spec fn impl_iterator_item(ty: RustType) -> Option<RustType> {
    match ty {
        RustType::ImplTrait(it) => bounds_item(it.bounds@),
        _ => None,
    }
}

/// The form and row type of a table function's return type.
pub open spec fn table_return_spec(output: Option<RustType>) -> Option<(DuckTableResult, RustType)> {
    match output {
        None => None,
        Some(ty) => if path_named(ty, "DuckFullIteratorResult"@)
            && generic_element(ty, "DuckFullIteratorResult"@) is Some {
            Some((DuckTableResult::Full, generic_element(ty, "DuckFullIteratorResult"@)->0))
        } else if path_named(ty, "DuckResult"@) && (match generic_element(ty, "DuckResult"@) {
            Some(inner) => impl_iterator_item(inner) is Some,
            None => false,
        }) {
            Some((DuckTableResult::ResultIterator, impl_iterator_item(generic_element(ty, "DuckResult"@)->0)->0))
        } else if impl_iterator_item(ty) is Some {
            Some((DuckTableResult::SimpleIterator, impl_iterator_item(ty)->0))
        } else {
            None
        },
    }
}

/// The form of a dynamic-columns table function's return type.
pub open spec fn dynamic_table_return_spec(output: Option<RustType>) -> Option<DuckDynamicTableResult> {
    match output {
        None => None,
        Some(ty) => if path_named(ty, "DuckDynamicTable"@) {
            Some(DuckDynamicTableResult::Plain)
        } else if generic_element(ty, "DuckResult"@) matches Some(inner) && path_named(inner, "DuckDynamicTable"@) {
            Some(DuckDynamicTableResult::Result)
        } else {
            None
        },
    }
}

/// The form of a SQL macro function's return type.
pub open spec fn sql_macro_return_spec(output: Option<RustType>) -> Option<DuckSqlMacroResult> {
    match output {
        None => None,
        Some(ty) => if is_str_type_spec(ty) {
            Some(DuckSqlMacroResult::Str)
        } else if path_named(ty, "SqlMacro"@) {
            Some(DuckSqlMacroResult::SqlMacro)
        } else if generic_element(ty, "DuckResult"@) matches Some(inner) && is_str_type_spec(inner) {
            Some(DuckSqlMacroResult::ResultStr)
        } else if generic_element(ty, "DuckResult"@) matches Some(inner) && path_named(inner, "SqlMacro"@) {
            Some(DuckSqlMacroResult::ResultSqlMacro)
        } else {
            None
        },
    }
}

/// The form and text kind of a replacement scan's return type.
pub open spec fn replacement_scan_return_spec(output: Option<RustType>) -> Option<(DuckReplacementScanResult, DuckStrKind)> {
    match output {
        None => None,
        Some(ty) => if path_named(ty, "Option"@) {
            match generic_element(ty, "Option"@) {
                Some(inner) => match str_kind_spec(inner) {
                    Some(k) => Some((DuckReplacementScanResult::Option, k)),
                    None => None,
                },
                None => None,
            }
        } else if path_named(ty, "DuckOptionResult"@) {
            match generic_element(ty, "DuckOptionResult"@) {
                Some(inner) => match str_kind_spec(inner) {
                    Some(k) => Some((DuckReplacementScanResult::OptionResult, k)),
                    None => None,
                },
                None => None,
            }
        } else {
            None
        },
    }
}

/// Whether a copy function's return type fits its direction.
pub open spec fn copy_return_ok(dir: CopyDirection, output: Option<RustType>) -> bool {
    match dir {
        CopyDirection::To => duck_result_inner_spec(output) is Some,
        CopyDirection::From => duck_result_inner_spec(output) matches Some(v)
            && generic_element(v, "Vec"@) matches Some(item) && path_named(item, "DuckDynamicRow"@),
    }
}

/// Whether a parameter's type is the data parameter of a copy direction.
pub open spec fn copy_data_type(dir: CopyDirection, ty: RustType) -> bool {
    match dir {
        CopyDirection::From => path_named(ty, "usize"@),
        CopyDirection::To => is_dynamic_rows_ref_spec(ty),
    }
}

/// The refusal of a copy signature in a direction.
pub open spec fn copy_hint(dir: CopyDirection) -> Seq<char> {
    match dir {
        CopyDirection::From => COPY_FROM_SIGNATURE_HINT@,
        CopyDirection::To => COPY_TO_SIGNATURE_HINT@,
    }
}

/// How one copy parameter reads: the state, the data, or a refusal with its message.
pub open spec fn copy_arg_role(dir: CopyDirection, a: FnArgWrapper) -> Result<CopyCallArg, Seq<char>> {
    if is_agg_state_spec(a) {
        Ok(CopyCallArg::State)
    } else {
        match arg_type(a) {
            None => Err(ARG_HINT@),
            Some(ty) => if copy_data_type(dir, ty) { Ok(CopyCallArg::Data) } else { Err(copy_hint(dir)) },
        }
    }
}

/// The outcome of checking a copy signature: the state type and the roles of the two
/// parameters, or the refusal (the parameters are read in order, so the first one that does not
/// fit gives the message).
pub open spec fn copy_signature_spec(dir: CopyDirection, f: ItemFnWrapper) -> Result<(RustType, Seq<CopyCallArg>), Seq<char>> {
    let args = f.inputs@;
    if args.len() != 2 {
        Err(copy_hint(dir))
    } else {
        match copy_arg_role(dir, args[0]) {
            Err(m) => Err(m),
            Ok(first) => match copy_arg_role(dir, args[1]) {
                Err(m) => Err(m),
                Ok(second) => if first == second {
                    Err(copy_hint(dir))
                } else if !copy_return_ok(dir, f.output) {
                    Err(copy_hint(dir))
                } else {
                    let state = if first == CopyCallArg::State { args[0] } else { args[1] };
                    Ok((state_type_spec(state)->0, seq![first, second]))
                },
            },
        }
    }
}

/// The row type and nullability of a batch function's parameter.
pub open spec fn batch_input_spec(f: ItemFnWrapper) -> Result<(RustType, bool), Seq<char>> {
    if f.inputs@.len() != 1 {
        Err(BATCH_SIGNATURE_HINT@)
    } else {
        match arg_type(f.inputs@[0]) {
            None => Err(ARG_HINT@),
            Some(ty) => match generic_element(ty, "Vec"@) {
                None => Err(BATCH_SIGNATURE_HINT@),
                Some(element) => match generic_element(element, "Option"@) {
                    Some(row) => Ok((row, true)),
                    None => Ok((element, false)),
                },
            },
        }
    }
}

/// The outer form and per-row result type of a batch function's return type.
pub open spec fn batch_return_spec(output: Option<RustType>) -> Option<(DuckScalarResult, RustType)> {
    match output {
        None => None,
        Some(ty) => {
            let wrapped = path_named(ty, "DuckOptionResult"@);
            let vec_type = if wrapped { generic_element(ty, "DuckOptionResult"@) } else { Some(ty) };
            match vec_type {
                None => None,
                Some(v) => match generic_element(v, "Vec"@) {
                    None => None,
                    Some(e) => Some((
                        if wrapped { DuckScalarResult::DuckOptionResult } else { DuckScalarResult::Plain },
                        e,
                    )),
                },
            }
        },
    }
}

/// The index of the first `&mut` parameter.
pub open spec fn first_state_index(args: Seq<FnArgWrapper>) -> Option<int>
    decreases args.len(),
{
    if args.len() == 0 {
        None
    } else if is_agg_state_spec(args[0]) {
        Some(0)
    } else {
        match first_state_index(args.drop_first()) {
            Some(i) => Some(i + 1),
            None => None,
        }
    }
}

/// The split of a variadic signature: the number of fixed parameters and the element type of
/// the last, `Vec<T>`, parameter.
pub open spec fn split_varargs_spec(f: ItemFnWrapper, varargs: bool, overloaded: bool) -> Result<(nat, Option<RustType>), Seq<char>> {
    let args = f.inputs@;
    if !varargs {
        Ok((args.len(), None))
    } else if overloaded {
        Err(VARARGS_OVERLOAD_MESSAGE@)
    } else if args.len() == 0 {
        Err(VARARGS_EMPTY_MESSAGE@)
    } else {
        match arg_type(args.last()) {
            None => Err(ARG_HINT@),
            Some(ty) => match generic_element(ty, "Vec"@) {
                None => Err(VARARGS_LAST_MESSAGE@),
                Some(e) => Ok(((args.len() - 1) as nat, Some(e))),
            },
        }
    }
}

impl ItemFnWrapper {
    /// The SQL name the signature registers under: the function-set name when it is an overload,
    /// the function's own name otherwise.
    pub fn sql_name(&self, overloads_name: Option<&str>) -> (r: String)
        ensures
            r@ == (match overloads_name {
                Some(n) => n@,
                None => self.name@,
            }),
    {
        match overloads_name {
            Some(name) => String::from_str(name),
            None => String::from_str(self.name.as_str()),
        }
    }

    /// The parameters, in order.
    pub fn args(&self) -> (r: &Vec<FnArgWrapper>)
        ensures
            r@ == self.inputs@,
    {
        &self.inputs
    }

    /// The `T` of a `-> DuckResult<T>` return type; `None` for any other return type.
    pub fn duck_result_inner(&self) -> (r: Option<&RustType>)
        ensures
            same_type_option(r, duck_result_inner_spec(self.output)),
    {
        match &self.output {
            Some(ty) => generic_element_type(ty, "DuckResult"),
            None => None,
        }
    }

    /// The form and `Output` type of a scalar (or cast) function's return type.
    pub fn scalar_return_type(&self) -> (r: Result<(DuckScalarResult, &RustType), String>)
        ensures
            match r {
                Ok((k, t)) => scalar_return_spec(self.output) == Some((k, *t)),
                Err(m) => scalar_return_spec(self.output) is None && m@ == SCALAR_RETURN_HINT@,
            },
    {
        match &self.output {
            Some(ty) => {
                if is_path_named(ty, "Option") {
                    if option_element_type(ty).is_some() {
                        return Ok((DuckScalarResult::Option, ty));
                    }
                    return Err(String::from_str(SCALAR_RETURN_HINT));
                }
                if is_path_named(ty, "DuckOptionResult") {
                    return match generic_element_type(ty, "DuckOptionResult") {
                        Some(inner) => Ok((DuckScalarResult::DuckOptionResult, inner)),
                        None => Err(String::from_str(SCALAR_RETURN_HINT)),
                    };
                }
                match ty {
                    RustType::Path(_) | RustType::Array(_) => Ok((DuckScalarResult::Plain, ty)),
                    _ => Err(String::from_str(SCALAR_RETURN_HINT)),
                }
            },
            None => Err(String::from_str(SCALAR_RETURN_HINT)),
        }
    }

    /// The form and row type of a table function's return type.
    pub fn table_return_type(&self) -> (r: Result<(DuckTableResult, &RustType), String>)
        ensures
            match r {
                Ok((k, t)) => table_return_spec(self.output) == Some((k, *t)),
                Err(m) => table_return_spec(self.output) is None && m@ == TABLE_RETURN_HINT@,
            },
    {
        let ty = match &self.output {
            Some(ty) => ty,
            None => {
                return Err(String::from_str(TABLE_RETURN_HINT));
            },
        };
        if is_path_named(ty, "DuckFullIteratorResult") {
            match generic_element_type(ty, "DuckFullIteratorResult") {
                Some(inner) => {
                    return Ok((DuckTableResult::Full, inner));
                },
                None => {},
            }
        }
        if is_path_named(ty, "DuckResult") {
            match generic_element_type(ty, "DuckResult") {
                Some(RustType::ImplTrait(it)) => match iterator_item_type(it) {
                    Some(item) => {
                        return Ok((DuckTableResult::ResultIterator, item));
                    },
                    None => {},
                },
                _ => {},
            }
        }
        match ty {
            RustType::ImplTrait(it) => match iterator_item_type(it) {
                Some(item) => Ok((DuckTableResult::SimpleIterator, item)),
                None => Err(String::from_str(TABLE_RETURN_HINT)),
            },
            _ => Err(String::from_str(TABLE_RETURN_HINT)),
        }
    }

    /// The form of a dynamic-columns table function's return type.
    pub fn dynamic_table_return_type(&self) -> (r: Result<DuckDynamicTableResult, String>)
        ensures
            match r {
                Ok(k) => dynamic_table_return_spec(self.output) == Some(k),
                Err(m) => dynamic_table_return_spec(self.output) is None && m@ == DYNAMIC_TABLE_RETURN_TYPE_HINT@,
            },
    {
        match &self.output {
            Some(ty) => {
                if is_path_named(ty, "DuckDynamicTable") {
                    return Ok(DuckDynamicTableResult::Plain);
                }
                match generic_element_type(ty, "DuckResult") {
                    Some(inner) => {
                        if is_path_named(inner, "DuckDynamicTable") {
                            return Ok(DuckDynamicTableResult::Result);
                        }
                    },
                    None => {},
                }
                Err(String::from_str(DYNAMIC_TABLE_RETURN_TYPE_HINT))
            },
            None => Err(String::from_str(DYNAMIC_TABLE_RETURN_TYPE_HINT)),
        }
    }

    /// The form of a SQL macro function's return type.
    pub fn sql_macro_return_type(&self) -> (r: Result<DuckSqlMacroResult, String>)
        ensures
            match r {
                Ok(k) => sql_macro_return_spec(self.output) == Some(k),
                Err(m) => sql_macro_return_spec(self.output) is None && m@ == SQL_MACRO_RETURN_TYPE_HINT@,
            },
    {
        match &self.output {
            Some(ty) => {
                if is_str_type(ty) {
                    return Ok(DuckSqlMacroResult::Str);
                }
                if is_path_named(ty, "SqlMacro") {
                    return Ok(DuckSqlMacroResult::SqlMacro);
                }
                match generic_element_type(ty, "DuckResult") {
                    Some(inner) => {
                        if is_str_type(inner) {
                            return Ok(DuckSqlMacroResult::ResultStr);
                        }
                        if is_sql_macro_type(inner) {
                            return Ok(DuckSqlMacroResult::ResultSqlMacro);
                        }
                    },
                    None => {},
                }
                Err(String::from_str(SQL_MACRO_RETURN_TYPE_HINT))
            },
            None => Err(String::from_str(SQL_MACRO_RETURN_TYPE_HINT)),
        }
    }

    /// The form and text kind of a replacement scan's return type.
    pub fn replacement_scan_return_type(&self) -> (r: Result<(DuckReplacementScanResult, DuckStrKind), String>)
        ensures
            match r {
                Ok(k) => replacement_scan_return_spec(self.output) == Some(k),
                Err(m) => replacement_scan_return_spec(self.output) is None && m@ == REPLACEMENT_SCAN_RETURN_TYPE_HINT@,
            },
    {
        let ty = match &self.output {
            Some(ty) => ty,
            None => {
                return Err(String::from_str(REPLACEMENT_SCAN_RETURN_TYPE_HINT));
            },
        };
        let (form, inner) = if is_path_named(ty, "Option") {
            (DuckReplacementScanResult::Option, option_element_type(ty))
        } else if is_path_named(ty, "DuckOptionResult") {
            (DuckReplacementScanResult::OptionResult, generic_element_type(ty, "DuckOptionResult"))
        } else {
            return Err(String::from_str(REPLACEMENT_SCAN_RETURN_TYPE_HINT));
        };
        match inner {
            Some(t) => match replacement_scan_str_kind(t) {
                Some(k) => Ok((form, k)),
                None => Err(String::from_str(REPLACEMENT_SCAN_RETURN_TYPE_HINT)),
            },
            None => Err(String::from_str(REPLACEMENT_SCAN_RETURN_TYPE_HINT)),
        }
    }

    /// How a replacement scan receives the table name: borrowed when its single parameter is a
    /// reference, owned otherwise.
    pub fn replacement_scan_path_expr(&self) -> (r: Result<DuckStrKind, String>)
        ensures
            match r {
                Ok(k) => {
                    &&& self.inputs@.len() == 1
                    &&& arg_type(self.inputs@[0]) matches Some(t)
                    &&& k == (if t is Reference { DuckStrKind::Borrowed } else { DuckStrKind::Owned })
                },
                Err(m) => if self.inputs@.len() != 1 {
                    m@ == REPLACEMENT_SCAN_SIGNATURE_HINT@
                } else {
                    arg_type(self.inputs@[0]) is None && m@ == ARG_HINT@
                },
            },
    {
        if self.inputs.len() != 1 {
            return Err(String::from_str(REPLACEMENT_SCAN_SIGNATURE_HINT));
        }
        match self.inputs[0].resolve_type() {
            Ok(RustType::Reference { .. }) => Ok(DuckStrKind::Borrowed),
            Ok(_) => Ok(DuckStrKind::Owned),
            Err(e) => Err(e),
        }
    }

    /// Whether the return type fits a copy direction; the direction's refusal otherwise.
    fn copy_return_type(&self, dir: CopyDirection) -> (r: Result<(), String>)
        ensures
            r is Ok <==> copy_return_ok(dir, self.output),
            r matches Err(m) ==> m@ == copy_hint(dir),
    {
        let inner = self.duck_result_inner();
        let ok = match dir {
            CopyDirection::To => inner.is_some(),
            CopyDirection::From => match inner {
                Some(v) => match vec_element_type(v) {
                    Some(item) => is_path_named(item, "DuckDynamicRow"),
                    None => false,
                },
                None => false,
            },
        };
        if ok {
            Ok(())
        } else {
            Err(copy_hint_text(dir))
        }
    }

    /// Checks a copy function's signature: exactly two parameters, the `&mut` state and the data
    /// parameter of the direction, in either order, and the direction's return type. Gives the
    /// state type and what each parameter receives.
    fn copy_signature(&self, dir: CopyDirection) -> (r: Result<(&RustType, Vec<CopyCallArg>), String>)
        ensures
            match r {
                Ok((t, roles)) => copy_signature_spec(dir, *self) == Ok::<(RustType, Seq<CopyCallArg>), Seq<char>>((*t, roles@)),
                Err(m) => copy_signature_spec(dir, *self) == Err::<(RustType, Seq<CopyCallArg>), Seq<char>>(m@),
            },
    {
        if self.inputs.len() != 2 {
            return Err(copy_hint_text(dir));
        }
        let first = match copy_arg_role_of(dir, &self.inputs[0]) {
            Ok(role) => role,
            Err(e) => {
                return Err(e);
            },
        };
        let second = match copy_arg_role_of(dir, &self.inputs[1]) {
            Ok(role) => role,
            Err(e) => {
                return Err(e);
            },
        };
        if first == second {
            return Err(copy_hint_text(dir));
        }
        match self.copy_return_type(dir) {
            Ok(()) => {},
            Err(e) => {
                return Err(e);
            },
        }
        let state_arg = if first == CopyCallArg::State { &self.inputs[0] } else { &self.inputs[1] };
        let state = match state_arg.resolve_state_type() {
            Ok(t) => t,
            Err(e) => {
                return Err(e);
            },
        };
        let mut roles: Vec<CopyCallArg> = Vec::new();
        roles.push(first);
        roles.push(second);
        assert(roles@ =~= seq![first, second]);
        Ok((state, roles))
    }

    /// Checks a `COPY ... FROM` signature: `(reader: &mut MyReader, limit: usize)` in either order,
    /// `-> DuckResult<Vec<DuckDynamicRow>>`. Gives the reader type and what each parameter receives.
    pub fn copy_from_signature(&self) -> (r: Result<(&RustType, Vec<CopyCallArg>), String>)
        ensures
            match r {
                Ok((t, roles)) => copy_signature_spec(CopyDirection::From, *self) == Ok::<(RustType, Seq<CopyCallArg>), Seq<char>>((*t, roles@)),
                Err(m) => copy_signature_spec(CopyDirection::From, *self) == Err::<(RustType, Seq<CopyCallArg>), Seq<char>>(m@),
            },
    {
        self.copy_signature(CopyDirection::From)
    }

    /// Checks a `COPY ... TO` signature: `(writer: &mut MyWriter, rows: &[DuckDynamicRow])` in
    /// either order, `-> DuckResult<..>`. Gives the writer type and what each parameter receives.
    pub fn copy_to_signature(&self) -> (r: Result<(&RustType, Vec<CopyCallArg>), String>)
        ensures
            match r {
                Ok((t, roles)) => copy_signature_spec(CopyDirection::To, *self) == Ok::<(RustType, Seq<CopyCallArg>), Seq<char>>((*t, roles@)),
                Err(m) => copy_signature_spec(CopyDirection::To, *self) == Err::<(RustType, Seq<CopyCallArg>), Seq<char>>(m@),
            },
    {
        self.copy_signature(CopyDirection::To)
    }

    /// Whether the return type is `DuckResult<Vec<DuckDynamicRow>>`.
    pub fn copy_from_return_type(&self) -> (r: Result<(), String>)
        ensures
            r is Ok <==> copy_return_ok(CopyDirection::From, self.output),
            r matches Err(m) ==> m@ == COPY_FROM_SIGNATURE_HINT@,
    {
        self.copy_return_type(CopyDirection::From)
    }

    /// Whether the return type is `DuckResult<..>`.
    pub fn copy_to_return_type(&self) -> (r: Result<(), String>)
        ensures
            r is Ok <==> copy_return_ok(CopyDirection::To, self.output),
            r matches Err(m) ==> m@ == COPY_TO_SIGNATURE_HINT@,
    {
        self.copy_return_type(CopyDirection::To)
    }

    /// The source type of a cast function: its single parameter's type.
    pub fn cast_input_type(&self) -> (r: Result<&RustType, String>)
        ensures
            match r {
                Ok(t) => self.inputs@.len() == 1 && arg_type(self.inputs@[0]) == Some(*t),
                Err(m) => if self.inputs@.len() != 1 {
                    m@ == CAST_SIGNATURE_HINT@
                } else {
                    arg_type(self.inputs@[0]) is None && m@ == ARG_HINT@
                },
            },
    {
        if self.inputs.len() != 1 {
            return Err(String::from_str(CAST_SIGNATURE_HINT));
        }
        self.inputs[0].resolve_type()
    }

    /// Reads a batch function's parameter: exactly one, `Vec<MyRow>` or `Vec<Option<MyRow>>`.
    pub fn batch_input(&self) -> (r: Result<BatchInput<'_>, String>)
        ensures
            match r {
                Ok(b) => batch_input_spec(*self) == Ok::<(RustType, bool), Seq<char>>((*b.row_type, b.nullable_rows)),
                Err(m) => batch_input_spec(*self) == Err::<(RustType, bool), Seq<char>>(m@),
            },
    {
        if self.inputs.len() != 1 {
            return Err(String::from_str(BATCH_SIGNATURE_HINT));
        }
        let ty = match self.inputs[0].resolve_type() {
            Ok(t) => t,
            Err(e) => {
                return Err(e);
            },
        };
        let element = match vec_element_type(ty) {
            Some(e) => e,
            None => {
                return Err(String::from_str(BATCH_SIGNATURE_HINT));
            },
        };
        match option_element_type(element) {
            Some(row_type) => Ok(BatchInput { row_type, nullable_rows: true }),
            None => Ok(BatchInput { row_type: element, nullable_rows: false }),
        }
    }

    /// Reads a batch function's return type: `Vec<R>` or `DuckOptionResult<Vec<R>>`.
    pub fn batch_return(&self) -> (r: Result<BatchReturn<'_>, String>)
        ensures
            match r {
                Ok(b) => batch_return_spec(self.output) == Some((b.outer, *b.element)),
                Err(m) => batch_return_spec(self.output) is None && m@ == BATCH_SIGNATURE_HINT@,
            },
    {
        let ty = match &self.output {
            Some(ty) => ty,
            None => {
                return Err(String::from_str(BATCH_SIGNATURE_HINT));
            },
        };
        let (outer, vec_type) = if is_path_named(ty, "DuckOptionResult") {
            match generic_element_type(ty, "DuckOptionResult") {
                Some(inner) => (DuckScalarResult::DuckOptionResult, inner),
                None => {
                    return Err(String::from_str(BATCH_SIGNATURE_HINT));
                },
            }
        } else {
            (DuckScalarResult::Plain, ty)
        };
        match vec_element_type(vec_type) {
            Some(element) => Ok(BatchReturn { outer, element }),
            None => Err(String::from_str(BATCH_SIGNATURE_HINT)),
        }
    }

    /// Splits a variadic signature into the fixed parameters (their number) and the element
    /// type of the trailing `Vec<T>`; without `varargs` every parameter is fixed.
    pub fn split_varargs(&self, varargs: bool, overloads_name: Option<&str>) -> (r: Result<(usize, Option<&RustType>), String>)
        ensures
            match r {
                Ok((n, e)) => split_varargs_spec(*self, varargs, overloads_name is Some) matches Ok((sn, se))
                    && sn == n && same_type_option(e, se),
                Err(m) => split_varargs_spec(*self, varargs, overloads_name is Some) == Err::<(nat, Option<RustType>), Seq<char>>(m@),
            },
    {
        let n = self.inputs.len();
        if !varargs {
            return Ok((n, None));
        }
        if overloads_name.is_some() {
            return Err(String::from_str(VARARGS_OVERLOAD_MESSAGE));
        }
        if n == 0 {
            return Err(String::from_str(VARARGS_EMPTY_MESSAGE));
        }
        let last_type = match self.inputs[n - 1].resolve_type() {
            Ok(t) => t,
            Err(e) => {
                return Err(e);
            },
        };
        match vec_element_type(last_type) {
            Some(element) => Ok((n - 1, Some(element))),
            None => Err(String::from_str(VARARGS_LAST_MESSAGE)),
        }
    }

    /// Whether the scalar function declares itself volatile; refused on an overload, which has
    /// no volatile switch.
    pub fn volatile_override(&self, volatile: bool, overloads_name: Option<&str>) -> (r: Result<bool, String>)
        ensures
            match r {
                Ok(v) => v == volatile && (volatile ==> overloads_name is None),
                Err(m) => volatile && overloads_name is Some && m@ == VOLATILE_OVERLOAD_MESSAGE@,
            },
    {
        if !volatile {
            return Ok(false);
        }
        if overloads_name.is_some() {
            return Err(String::from_str(VOLATILE_OVERLOAD_MESSAGE));
        }
        Ok(true)
    }

    /// The aggregate state parameter: the first `&mut` parameter.
    pub fn agg_state_arg(&self) -> (r: Result<&FnArgWrapper, String>)
        ensures
            match r {
                Ok(a) => first_state_index(self.inputs@) matches Some(i) && self.inputs@[i] == *a,
                Err(m) => first_state_index(self.inputs@) is None && m@ == STATE_NOT_FOUND@,
            },
    {
        let mut i: usize = 0;
        assert(self.inputs@.skip(0) =~= self.inputs@);
        while i < self.inputs.len()
            invariant
                0 <= i <= self.inputs@.len(),
                first_state_index(self.inputs@) == (match first_state_index(self.inputs@.skip(i as int)) {
                    Some(j) => Some(j + i),
                    None => None::<int>,
                }),
                forall|j: int| 0 <= j < i ==> !is_agg_state_spec(#[trigger] self.inputs@[j]),
            decreases self.inputs@.len() - i,
        {
            assert(self.inputs@.skip(i as int).drop_first() =~= self.inputs@.skip(i as int + 1));
            assert(self.inputs@.skip(i as int)[0] == self.inputs@[i as int]);
            if self.inputs[i].is_agg_state() {
                return Ok(&self.inputs[i]);
            }
            i = i + 1;
        }
        assert(self.inputs@.skip(i as int) =~= Seq::<FnArgWrapper>::empty());
        Err(String::from_str(STATE_NOT_FOUND))
    }

    /// Whether an aggregate's row handler must append `Ok(())`: true when the annotated function
    /// returns nothing.
    pub fn build_agg_row_return(&self) -> (r: bool)
        ensures
            r == self.output is None,
    {
        self.output.is_none()
    }
}

/// The refusal of a copy signature, as text.
fn copy_hint_text(dir: CopyDirection) -> (m: String)
    ensures
        m@ == copy_hint(dir),
{
    match dir {
        CopyDirection::From => String::from_str(COPY_FROM_SIGNATURE_HINT),
        CopyDirection::To => String::from_str(COPY_TO_SIGNATURE_HINT),
    }
}

/// How one copy parameter reads, as [`copy_arg_role`] says.
fn copy_arg_role_of(dir: CopyDirection, a: &FnArgWrapper) -> (r: Result<CopyCallArg, String>)
    ensures
        match r {
            Ok(role) => copy_arg_role(dir, *a) == Ok::<CopyCallArg, Seq<char>>(role),
            Err(m) => copy_arg_role(dir, *a) == Err::<CopyCallArg, Seq<char>>(m@),
        },
{
    if a.is_agg_state() {
        return Ok(CopyCallArg::State);
    }
    let ty = match a.resolve_type() {
        Ok(t) => t,
        Err(e) => {
            return Err(e);
        },
    };
    let fits = match dir {
        CopyDirection::From => is_usize_type(ty),
        CopyDirection::To => is_dynamic_rows_ref(ty),
    };
    if fits {
        Ok(CopyCallArg::Data)
    } else {
        Err(copy_hint_text(dir))
    }
}

} // verus!
