use duckfn::rust_type::{
    extract_generic_arg_type, generic_element_type, is_dynamic_rows_ref, is_str_type, is_usize_type,
    iterator_item_type, option_element_type, replacement_scan_str_kind, require_generic_arg_type,
    vec_element_type, DuckStrKind, GenericArg, ImplTrait, PathArgs, PathSegment, RustType, TypeBound,
};
use duckfn::signature::{
    CopyCallArg, DuckDynamicTableResult, DuckReplacementScanResult, DuckScalarResult,
    DuckSqlMacroResult, DuckTableResult, FnArgWrapper, ItemFnWrapper, ARG_HINT, BATCH_SIGNATURE_HINT,
    CAST_SIGNATURE_HINT, COPY_FROM_SIGNATURE_HINT, COPY_TO_SIGNATURE_HINT,
    DYNAMIC_TABLE_RETURN_TYPE_HINT, REPLACEMENT_SCAN_RETURN_TYPE_HINT, REPLACEMENT_SCAN_SIGNATURE_HINT,
    SCALAR_RETURN_HINT, SQL_MACRO_RETURN_TYPE_HINT, STATE_NOT_FOUND, STATE_NOT_MUTABLE,
    STATE_NOT_REFERENCE, TABLE_RETURN_HINT, VARARGS_EMPTY_MESSAGE, VARARGS_LAST_MESSAGE,
    VARARGS_OVERLOAD_MESSAGE, VOLATILE_OVERLOAD_MESSAGE,
};
use duckfn::struct_derive::{duck_struct_derive, NamedField, StructShape, NAMED_FIELDS_ONLY};

fn segment(name: &str, args: Vec<GenericArg>) -> PathSegment {
    PathSegment {
        ident: name.to_string(),
        arguments: if args.is_empty() { PathArgs::Bare } else { PathArgs::AngleBracketed(args) },
    }
}

fn ty(name: &str) -> RustType {
    RustType::Path(vec![segment(name, vec![])])
}

fn generic(name: &str, inner: RustType) -> RustType {
    RustType::Path(vec![segment(name, vec![GenericArg::Type(inner)])])
}

fn reference(mutable: bool, elem: RustType) -> RustType {
    RustType::Reference { mutable, elem: Box::new(elem) }
}

fn iterator_of(item: RustType) -> RustType {
    RustType::ImplTrait(ImplTrait {
        bounds: vec![TypeBound::Trait(vec![segment(
            "Iterator",
            vec![GenericArg::AssocType { ident: "Item".to_string(), ty: item }],
        )])],
    })
}

fn arg(name: &str, ty: RustType) -> FnArgWrapper {
    FnArgWrapper::Typed { ident: Some(name.to_string()), ty }
}

fn func(inputs: Vec<FnArgWrapper>, output: Option<RustType>) -> ItemFnWrapper {
    ItemFnWrapper { name: "f".to_string(), inputs, output }
}

fn same(a: &RustType, b: &RustType) -> bool {
    format!("{a:?}") == format!("{b:?}")
}

#[test]
fn generic_arguments_are_read_from_the_last_segment() {
    let qualified = RustType::Path(vec![
        segment("std", vec![]),
        segment("vec", vec![]),
        segment("Vec", vec![GenericArg::Type(ty("i64"))]),
    ]);
    assert!(same(vec_element_type(&qualified).expect("Vec<i64>"), &ty("i64")));
    assert!(option_element_type(&qualified).is_none());
    assert!(vec_element_type(&ty("Vec")).is_none());
    let lifetime_first = RustType::Path(vec![segment("Cow", vec![GenericArg::Other, GenericArg::Type(ty("str"))])]);
    assert!(generic_element_type(&lifetime_first, "Cow").is_none());
    if let RustType::Path(segments) = &qualified {
        assert!(extract_generic_arg_type(&segments[0]).is_none());
        assert!(same(extract_generic_arg_type(&segments[2]).expect("type argument"), &ty("i64")));
    }
    assert!(same(require_generic_arg_type(&GenericArg::Type(ty("u8"))).expect("type"), &ty("u8")));
    assert_eq!(require_generic_arg_type(&GenericArg::Other).expect_err("lifetime"), "expected a type");
}

#[test]
fn iterator_items_and_type_predicates() {
    let with_send = ImplTrait {
        bounds: vec![
            TypeBound::Trait(vec![segment("Send", vec![])]),
            TypeBound::Other,
            TypeBound::Trait(vec![segment(
                "Iterator",
                vec![
                    GenericArg::AssocType { ident: "Other".to_string(), ty: ty("u8") },
                    GenericArg::AssocType { ident: "Item".to_string(), ty: ty("Row") },
                ],
            )]),
        ],
    };
    assert!(same(iterator_item_type(&with_send).expect("Item"), &ty("Row")));
    assert!(iterator_item_type(&ImplTrait { bounds: vec![TypeBound::Other] }).is_none());
    assert!(is_usize_type(&ty("usize")));
    assert!(!is_usize_type(&reference(false, ty("usize"))));
    assert!(is_dynamic_rows_ref(&reference(false, RustType::Slice(Box::new(ty("DuckDynamicRow"))))));
    assert!(!is_dynamic_rows_ref(&reference(false, generic("Vec", ty("DuckDynamicRow")))));
    assert!(is_str_type(&reference(false, reference(false, ty("str")))));
    assert!(is_str_type(&ty("String")));
    assert!(!is_str_type(&RustType::Slice(Box::new(ty("str")))));
    assert_eq!(replacement_scan_str_kind(&ty("String")), Some(DuckStrKind::Owned));
    assert_eq!(replacement_scan_str_kind(&reference(false, ty("str"))), Some(DuckStrKind::Borrowed));
    assert_eq!(replacement_scan_str_kind(&reference(false, ty("String"))), None);
}

#[test]
fn scalar_return_shapes() {
    let plain = func(vec![], Some(ty("f64")));
    let (kind, output) = plain.scalar_return_type().expect("plain");
    assert_eq!(kind, DuckScalarResult::Plain);
    assert!(same(output, &ty("f64")));
    let optional = func(vec![], Some(generic("Option", ty("f64"))));
    let (kind, output) = optional.scalar_return_type().expect("option");
    assert_eq!(kind, DuckScalarResult::Option);
    assert!(same(output, &generic("Option", ty("f64"))));
    let fallible = func(vec![], Some(generic("DuckOptionResult", ty("String"))));
    let (kind, output) = fallible.scalar_return_type().expect("fallible");
    assert_eq!(kind, DuckScalarResult::DuckOptionResult);
    assert!(same(output, &ty("String")));
    let array = func(vec![], Some(RustType::Array(Box::new(ty("u8")))));
    assert_eq!(array.scalar_return_type().expect("array").0, DuckScalarResult::Plain);
    for bad in [func(vec![], None), func(vec![], Some(ty("Option"))), func(vec![], Some(RustType::Other))] {
        assert_eq!(bad.scalar_return_type().expect_err("refused"), SCALAR_RETURN_HINT);
    }
    let wrapped = func(vec![], Some(generic("DuckResult", ty("i32"))));
    assert!(same(wrapped.duck_result_inner().expect("inner"), &ty("i32")));
    assert!(plain.duck_result_inner().is_none());
}

#[test]
fn table_return_shapes() {
    let simple = func(vec![], Some(iterator_of(ty("Row"))));
    let (kind, row) = simple.table_return_type().expect("simple");
    assert_eq!(kind, DuckTableResult::SimpleIterator);
    assert!(same(row, &ty("Row")));
    let result = func(vec![], Some(generic("DuckResult", iterator_of(ty("Row")))));
    assert_eq!(result.table_return_type().expect("result").0, DuckTableResult::ResultIterator);
    let full = func(vec![], Some(generic("DuckFullIteratorResult", ty("Row"))));
    let (kind, row) = full.table_return_type().expect("full");
    assert_eq!(kind, DuckTableResult::Full);
    assert!(same(row, &ty("Row")));
    let vec = func(vec![], Some(generic("Vec", ty("Row"))));
    assert_eq!(vec.table_return_type().expect_err("refused"), TABLE_RETURN_HINT);

    let dynamic = func(vec![], Some(ty("DuckDynamicTable")));
    assert_eq!(dynamic.dynamic_table_return_type().expect("plain"), DuckDynamicTableResult::Plain);
    let dynamic = func(vec![], Some(generic("DuckResult", ty("DuckDynamicTable"))));
    assert_eq!(dynamic.dynamic_table_return_type().expect("result"), DuckDynamicTableResult::Result);
    let dynamic = func(vec![], Some(generic("DuckResult", ty("String"))));
    assert_eq!(dynamic.dynamic_table_return_type().expect_err("refused"), DYNAMIC_TABLE_RETURN_TYPE_HINT);
}

#[test]
fn sql_macro_and_replacement_scan_shapes() {
    let cases = [
        (ty("SqlMacro"), DuckSqlMacroResult::SqlMacro),
        (generic("DuckResult", ty("SqlMacro")), DuckSqlMacroResult::ResultSqlMacro),
        (reference(false, ty("str")), DuckSqlMacroResult::Str),
        (generic("DuckResult", ty("String")), DuckSqlMacroResult::ResultStr),
    ];
    for (output, expected) in cases {
        assert_eq!(func(vec![], Some(output)).sql_macro_return_type().expect("accepted"), expected);
    }
    assert_eq!(func(vec![], Some(ty("i32"))).sql_macro_return_type().expect_err("refused"), SQL_MACRO_RETURN_TYPE_HINT);
    assert_eq!(func(vec![], None).sql_macro_return_type().expect_err("refused"), SQL_MACRO_RETURN_TYPE_HINT);

    let scan = func(vec![arg("path", reference(false, ty("str")))], Some(generic("Option", ty("String"))));
    assert_eq!(scan.replacement_scan_return_type().expect("option"), (DuckReplacementScanResult::Option, DuckStrKind::Owned));
    assert_eq!(scan.replacement_scan_path_expr().expect("borrowed"), DuckStrKind::Borrowed);
    let scan = func(vec![arg("path", ty("String"))], Some(generic("DuckOptionResult", reference(false, ty("str")))));
    assert_eq!(
        scan.replacement_scan_return_type().expect("fallible"),
        (DuckReplacementScanResult::OptionResult, DuckStrKind::Borrowed)
    );
    assert_eq!(scan.replacement_scan_path_expr().expect("owned"), DuckStrKind::Owned);
    let bad = func(vec![], Some(generic("Option", ty("i32"))));
    assert_eq!(bad.replacement_scan_return_type().expect_err("refused"), REPLACEMENT_SCAN_RETURN_TYPE_HINT);
    assert_eq!(bad.replacement_scan_path_expr().expect_err("no path"), REPLACEMENT_SCAN_SIGNATURE_HINT);
}

#[test]
fn copy_signatures() {
    let rows = func(vec![], Some(generic("DuckResult", generic("Vec", ty("DuckDynamicRow")))));
    let reader = func(
        vec![arg("reader", reference(true, ty("MyReader"))), arg("limit", ty("usize"))],
        rows.output,
    );
    let (state, roles) = reader.copy_from_signature().expect("reader first");
    assert!(same(state, &ty("MyReader")));
    assert_eq!(roles, vec![CopyCallArg::State, CopyCallArg::Data]);
    assert!(reader.copy_from_return_type().is_ok());
    let swapped = func(
        vec![arg("limit", ty("usize")), arg("reader", reference(true, ty("MyReader")))],
        Some(generic("DuckResult", generic("Vec", ty("DuckDynamicRow")))),
    );
    assert_eq!(swapped.copy_from_signature().expect("limit first").1, vec![CopyCallArg::Data, CopyCallArg::State]);
    let two_limits = func(
        vec![arg("a", ty("usize")), arg("b", ty("usize"))],
        Some(generic("DuckResult", generic("Vec", ty("DuckDynamicRow")))),
    );
    assert_eq!(two_limits.copy_from_signature().expect_err("no reader"), COPY_FROM_SIGNATURE_HINT);
    let wrong_return = func(
        vec![arg("reader", reference(true, ty("MyReader"))), arg("limit", ty("usize"))],
        Some(generic("DuckResult", ty("String"))),
    );
    assert_eq!(wrong_return.copy_from_signature().expect_err("return"), COPY_FROM_SIGNATURE_HINT);
    let receiver = func(vec![FnArgWrapper::Receiver, arg("limit", ty("usize"))], None);
    assert_eq!(receiver.copy_from_signature().expect_err("receiver"), ARG_HINT);

    let writer = func(
        vec![
            arg("rows", reference(false, RustType::Slice(Box::new(ty("DuckDynamicRow"))))),
            arg("writer", reference(true, ty("MyWriter"))),
        ],
        Some(generic("DuckResult", RustType::Other)),
    );
    let (state, roles) = writer.copy_to_signature().expect("writer");
    assert!(same(state, &ty("MyWriter")));
    assert_eq!(roles, vec![CopyCallArg::Data, CopyCallArg::State]);
    let no_result = func(
        vec![
            arg("writer", reference(true, ty("MyWriter"))),
            arg("rows", reference(false, RustType::Slice(Box::new(ty("DuckDynamicRow"))))),
        ],
        None,
    );
    assert_eq!(no_result.copy_to_return_type().expect_err("return"), COPY_TO_SIGNATURE_HINT);
    assert_eq!(no_result.copy_to_signature().expect_err("return"), COPY_TO_SIGNATURE_HINT);
}

#[test]
fn cast_and_batch_signatures() {
    let cast = func(vec![arg("from", generic("Option", ty("i64")))], Some(ty("String")));
    assert!(same(cast.cast_input_type().expect("one"), &generic("Option", ty("i64"))));
    let two = func(vec![arg("a", ty("i64")), arg("b", ty("i64"))], Some(ty("String")));
    assert_eq!(two.cast_input_type().expect_err("two"), CAST_SIGNATURE_HINT);

    let batch = func(vec![arg("rows", generic("Vec", ty("MyRow")))], Some(generic("Vec", ty("String"))));
    let input = batch.batch_input().expect("rows");
    assert!(same(input.row_type, &ty("MyRow")));
    assert!(!input.nullable_rows);
    let output = batch.batch_return().expect("results");
    assert_eq!(output.outer, DuckScalarResult::Plain);
    assert!(same(output.element, &ty("String")));

    let nullable = func(
        vec![arg("rows", generic("Vec", generic("Option", ty("MyRow"))))],
        Some(generic("DuckOptionResult", generic("Vec", generic("Option", ty("String"))))),
    );
    let input = nullable.batch_input().expect("rows");
    assert!(same(input.row_type, &ty("MyRow")));
    assert!(input.nullable_rows);
    let output = nullable.batch_return().expect("results");
    assert_eq!(output.outer, DuckScalarResult::DuckOptionResult);
    assert!(same(output.element, &generic("Option", ty("String"))));

    let not_vec = func(vec![arg("row", ty("MyRow"))], Some(ty("String")));
    assert_eq!(not_vec.batch_input().expect_err("not a Vec"), BATCH_SIGNATURE_HINT);
    assert_eq!(not_vec.batch_return().expect_err("not a Vec"), BATCH_SIGNATURE_HINT);
    assert_eq!(func(vec![], None).batch_input().expect_err("no rows"), BATCH_SIGNATURE_HINT);
}

#[test]
fn variadic_and_volatile_flags() {
    let f = func(vec![arg("sep", ty("String")), arg("parts", generic("Vec", ty("String")))], Some(ty("String")));
    let (fixed, element) = f.split_varargs(false, None).expect("not variadic");
    assert_eq!(fixed, 2);
    assert!(element.is_none());
    let (fixed, element) = f.split_varargs(true, None).expect("variadic");
    assert_eq!(fixed, 1);
    assert!(same(element.expect("element"), &ty("String")));
    assert_eq!(f.split_varargs(true, Some("set")).expect_err("overload"), VARARGS_OVERLOAD_MESSAGE);
    assert_eq!(func(vec![], None).split_varargs(true, None).expect_err("empty"), VARARGS_EMPTY_MESSAGE);
    let last_plain = func(vec![arg("x", ty("i64"))], None);
    assert_eq!(last_plain.split_varargs(true, None).expect_err("not a Vec"), VARARGS_LAST_MESSAGE);

    assert_eq!(f.volatile_override(false, Some("set")), Ok(false));
    assert_eq!(f.volatile_override(true, None), Ok(true));
    assert_eq!(f.volatile_override(true, Some("set")).expect_err("overload"), VOLATILE_OVERLOAD_MESSAGE);
    assert_eq!(f.sql_name(None), "f");
    assert_eq!(f.sql_name(Some("concat_all")), "concat_all");
}

#[test]
fn aggregate_state_parameter() {
    let agg = func(
        vec![arg("value", ty("f64")), arg("state", reference(true, ty("SumState"))), arg("other", reference(true, ty("X")))],
        None,
    );
    let state = agg.agg_state_arg().expect("state");
    assert!(state.is_agg_state());
    assert!(same(state.resolve_state_type().expect("state type"), &ty("SumState")));
    assert_eq!(state.name().expect("named"), "state");
    assert!(agg.build_agg_row_return());
    let shared = func(vec![arg("state", reference(false, ty("SumState")))], Some(generic("DuckResult", RustType::Other)));
    assert_eq!(shared.agg_state_arg().expect_err("shared"), STATE_NOT_FOUND);
    assert!(!shared.build_agg_row_return());
    assert_eq!(shared.args()[0].resolve_state_type().expect_err("shared"), STATE_NOT_MUTABLE);
    assert_eq!(arg("v", ty("f64")).resolve_state_type().expect_err("value"), STATE_NOT_REFERENCE);
    assert_eq!(FnArgWrapper::Receiver.resolve_state_type().expect_err("receiver"), ARG_HINT);
    assert_eq!(FnArgWrapper::Typed { ident: None, ty: ty("f64") }.name().expect_err("pattern"), ARG_HINT);
}

#[test]
fn struct_derive_columns() {
    let data = StructShape::NamedFields(vec![
        NamedField { name: "id".to_string(), ty: ty("i64") },
        NamedField { name: "label".to_string(), ty: generic("Option", ty("String")) },
        NamedField { name: "limit".to_string(), ty: ty("usize") },
        NamedField { name: "verbose".to_string(), ty: ty("bool") },
    ]);
    let columns = duck_struct_derive(&data, Some("limit")).expect("named params");
    let flags: Vec<(usize, bool, bool)> = columns.iter().map(|c| (c.index, c.is_named_param, c.nullable)).collect();
    assert_eq!(flags, vec![(0, false, false), (1, false, true), (2, true, false), (3, true, false)]);
    assert_eq!(columns[1].name, "label");
    assert!(same(columns[1].value_type, &ty("String")));
    let columns = duck_struct_derive(&data, None).expect("no named params");
    assert!(columns.iter().all(|c| !c.is_named_param));
    assert_eq!(
        duck_struct_derive(&data, Some("missing")).err().expect("missing"),
        "named_param_from field `missing` not found"
    );
    assert_eq!(duck_struct_derive(&StructShape::Other, None).err().expect("tuple struct"), NAMED_FIELDS_ONLY);
}
