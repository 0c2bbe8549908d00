use duckfn::copy_from::{ensure_single_path_parameter, read_target_schema};
use duckfn::dynamic_value::DuckDynamicValue;
use duckfn::logical_type::LogicalTypeInfo;
use duckfn::row_read::{check_chunk_columns, rows_from_columns};
use duckfn::schema::DuckResultSchema;
use duckfn::type_desc::DuckTypeDesc;
use duckfn::type_id::TypeId;

#[test]
fn a_reader_takes_exactly_one_path() {
    assert!(ensure_single_path_parameter("read_x", &[None]).is_ok());
    assert!(ensure_single_path_parameter("read_x", &[Some("header"), None, Some("delim")]).is_ok());
    assert_eq!(
        ensure_single_path_parameter("read_x", &[]).expect_err("no path").as_str(),
        "read_x: a COPY FROM reader must declare exactly one positional parameter (the file path), but its arguments declare 0"
    );
    assert_eq!(
        ensure_single_path_parameter("read_x", &[None, None]).expect_err("two paths").as_str(),
        "read_x: a COPY FROM reader must declare exactly one positional parameter (the file path), but its arguments declare 2"
    );
}

#[test]
fn target_schema_names_and_types() {
    let columns = vec![
        (Some("id".to_string()), LogicalTypeInfo::Simple(5)),
        (None, LogicalTypeInfo::List(Box::new(LogicalTypeInfo::Simple(17)))),
    ];
    let schema = read_target_schema(&columns).expect("supported types");
    let names: Vec<&str> = schema.columns().iter().map(|(name, _)| name.as_str()).collect();
    assert_eq!(names, ["id", "column_1"]);
    assert!(matches!(schema.columns()[0].1, DuckTypeDesc::Scalar(TypeId::BigInt)));
    assert!(matches!(&schema.columns()[1].1, DuckTypeDesc::List(e) if matches!(**e, DuckTypeDesc::Scalar(TypeId::Varchar))));
    assert_eq!(
        read_target_schema(&[]).expect_err("no columns").as_str(),
        "copy from: the target table has no columns; a COPY FROM reader reads the target schema instead of declaring result columns"
    );
    let enum_column = vec![(Some("e".to_string()), LogicalTypeInfo::Simple(23))];
    assert_eq!(
        read_target_schema(&enum_column).expect_err("enum").as_str(),
        "dynamic table function: the DuckDB logical type `Enum` cannot be turned into a DuckTypeDesc (its parameters are not expressible); use a supported scalar, DECIMAL, LIST, STRUCT or MAP instead"
    );
}

#[test]
fn chunk_must_carry_the_schema_columns() {
    let schema = DuckResultSchema::from_scalar_types(&[("a", TypeId::Integer), ("b", TypeId::Varchar)]);
    assert!(check_chunk_columns(2, &schema).is_ok());
    assert!(check_chunk_columns(3, &schema).is_ok());
    assert_eq!(
        check_chunk_columns(1, &schema).expect_err("too few").as_str(),
        "dynamic value: the chunk has 1 columns but the schema declares 2"
    );
}

#[test]
fn cells_regroup_into_rows() {
    let columns = vec![
        vec![Some(DuckDynamicValue::Integer(1)), None, Some(DuckDynamicValue::Integer(3))],
        vec![Some(DuckDynamicValue::varchar("a")), Some(DuckDynamicValue::varchar("b")), None],
    ];
    let rows = rows_from_columns(columns, 3);
    let seen: Vec<String> = rows.iter().map(|row| format!("{:?}", row.values())).collect();
    assert_eq!(
        seen,
        [
            format!("{:?}", [Some(DuckDynamicValue::Integer(1)), Some(DuckDynamicValue::varchar("a"))]),
            format!("{:?}", [None, Some(DuckDynamicValue::varchar("b"))]),
            format!("{:?}", [Some(DuckDynamicValue::Integer(3)), None]),
        ]
    );
    assert!(rows_from_columns(Vec::new(), 0).is_empty());
    let no_columns = rows_from_columns(Vec::new(), 2);
    assert_eq!(no_columns.len(), 2);
    assert!(no_columns.iter().all(|row| row.is_empty()));
}
