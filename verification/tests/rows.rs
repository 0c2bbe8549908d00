use duckfn::column_writer::{column_values, ChildLink, ScalarWrite, VectorOp};
use duckfn::dynamic_value::DuckDynamicValue;
use duckfn::row::{validate_batch, DuckDynamicRow};
use duckfn::schema::DuckResultSchema;
use duckfn::type_desc::DuckTypeDesc;
use duckfn::type_id::TypeId;

fn schema() -> DuckResultSchema {
    DuckResultSchema::new(vec![
        (String::from("id"), DuckTypeDesc::scalar(TypeId::BigInt)),
        (String::from("tags"), DuckTypeDesc::list(DuckTypeDesc::scalar(TypeId::Varchar))),
    ])
}

fn text(s: &str) -> DuckDynamicValue {
    DuckDynamicValue::Varchar(String::from(s))
}

#[test]
fn schema_accessors() {
    let s = schema();
    assert_eq!(s.len(), 2);
    assert!(!s.is_empty());
    assert_eq!(s.column(1).map(|(name, _)| name.as_str()), Some("tags"));
    assert!(s.column(2).is_none());
    assert_eq!(s.columns()[0].1.to_sql_string(), "BIGINT");
    assert!(DuckResultSchema::default().is_empty());
    let scalars = DuckResultSchema::from_scalar_types(&[("a", TypeId::Integer), ("b", TypeId::Varchar)]);
    assert_eq!(scalars.columns()[1].0, "b");
    assert_eq!(scalars.columns()[1].1.to_sql_string(), "VARCHAR");
    let from: DuckResultSchema = vec![(String::from("x"), DuckTypeDesc::scalar(TypeId::Date))].into();
    assert_eq!(from.len(), 1);
    assert_eq!(s.to_logical_types().len(), 2);
}

#[test]
fn row_accessors() {
    let row = DuckDynamicRow::new(vec![Some(DuckDynamicValue::BigInt(7)), None]);
    assert_eq!(row.len(), 2);
    assert!(!row.is_empty());
    assert!(matches!(row.value(0), Some(DuckDynamicValue::BigInt(7))));
    assert!(row.value(1).is_none());
    assert!(row.value(5).is_none());
    assert_eq!(row.values().len(), 2);
    assert!(DuckDynamicRow::default().is_empty());
    let from: DuckDynamicRow = vec![None].into();
    assert_eq!(from.len(), 1);
}

#[test]
fn validation_reports_the_cell_count_first() {
    let short = DuckDynamicRow::new(vec![Some(DuckDynamicValue::BigInt(1))]);
    let error = validate_batch(&schema(), &[None, Some(&short)]).expect_err("one cell short");
    assert_eq!(error.as_str(), "dynamic table function: row 1 has 1 columns but the schema declares 2");
}

#[test]
fn validation_names_the_mismatching_column() {
    let good = DuckDynamicRow::new(vec![Some(DuckDynamicValue::BigInt(1)), None]);
    let bad = DuckDynamicRow::new(vec![None, Some(DuckDynamicValue::list(vec![Some(DuckDynamicValue::Integer(3))]))]);
    let error = validate_batch(&schema(), &[Some(&good), Some(&bad)]).expect_err("INTEGER in a VARCHAR list");
    assert_eq!(
        error.as_str(),
        "dynamic table function: row 1 column `tags` expects VARCHAR[] but got a value of type LIST"
    );
    let wrong_scalar = DuckDynamicRow::new(vec![Some(DuckDynamicValue::Integer(1)), None]);
    let error = validate_batch(&schema(), &[Some(&wrong_scalar)]).expect_err("INTEGER for BIGINT");
    assert_eq!(
        error.as_str(),
        "dynamic table function: row 0 column `id` expects BIGINT but got a value of type INTEGER"
    );
    assert!(validate_batch(&schema(), &[Some(&good), None]).is_ok());
}

#[test]
fn column_values_skip_null_rows_and_cells() {
    let a = DuckDynamicRow::new(vec![Some(DuckDynamicValue::BigInt(1)), None]);
    let b = DuckDynamicRow::new(vec![Some(DuckDynamicValue::BigInt(2))]);
    let values = column_values(&[Some(&a), None, Some(&b)], 1);
    assert_eq!(values.len(), 3);
    assert!(values.iter().all(Option::is_none));
    let ids = column_values(&[Some(&a), None, Some(&b)], 0);
    assert!(matches!(ids[2], Some(DuckDynamicValue::BigInt(2))));
}

#[test]
fn write_plan_of_a_list_column() {
    let first = DuckDynamicRow::new(vec![
        Some(DuckDynamicValue::BigInt(10)),
        Some(DuckDynamicValue::list(vec![Some(text("a")), None])),
    ]);
    let second = DuckDynamicRow::new(vec![None, Some(DuckDynamicValue::list(vec![Some(text("b"))]))]);
    let ops = DuckDynamicRow::write_batch(&schema(), &[Some(&first), None, Some(&second)]).expect("valid batch");
    let rendered: Vec<String> = ops.iter().map(|op| format!("{op:?}")).collect();
    let expected = [
        "ColumnVector { vector: 0, column: 0 }",
        "OpenWriter { vector: 0 }",
        "ColumnVector { vector: 2, column: 1 }",
        "Reserve { vector: 2, total: 3 }",
        "ChildVector { vector: 4, parent: 2, link: ListElement }",
        "OpenWriter { vector: 4 }",
        "OpenWriter { vector: 2 }",
        "WriteScalar { vector: 0, row: 0, value: BigInt(10) }",
        "SetEntry { vector: 2, row: 0, offset: 0, length: 2 }",
        "WriteScalar { vector: 4, row: 0, value: Varchar(\"a\") }",
        "SetNull { vector: 4, row: 1 }",
        "SetNull { vector: 0, row: 1 }",
        "NullEntry { vector: 2, row: 1 }",
        "SetNull { vector: 0, row: 2 }",
        "SetEntry { vector: 2, row: 2, offset: 2, length: 1 }",
        "WriteScalar { vector: 4, row: 2, value: Varchar(\"b\") }",
        "FinishElements { vector: 2, size: 3 }",
    ];
    assert_eq!(rendered, expected);
}

#[test]
fn write_plan_of_map_and_struct_columns() {
    let schema = DuckResultSchema::new(vec![
        (
            String::from("m"),
            DuckTypeDesc::map(DuckTypeDesc::scalar(TypeId::Varchar), DuckTypeDesc::scalar(TypeId::TimestampTz)),
        ),
        (
            String::from("s"),
            DuckTypeDesc::struct_type(vec![(String::from("x"), DuckTypeDesc::Decimal { width: 4, scale: 1 })]),
        ),
    ]);
    let row = DuckDynamicRow::new(vec![
        Some(DuckDynamicValue::map(vec![(text("k"), DuckDynamicValue::TimestampTz(99))])),
        None,
    ]);
    let ops = DuckDynamicRow::write_batch(&schema, &[Some(&row)]).expect("valid batch");
    assert!(matches!(ops[1], VectorOp::Reserve { vector: 0, total: 1 }));
    assert!(matches!(ops[2], VectorOp::ChildVector { vector: 2, parent: 0, link: ChildLink::MapKeys }));
    assert!(matches!(ops[3], VectorOp::ChildVector { vector: 3, parent: 0, link: ChildLink::MapValues }));
    assert!(ops.iter().any(|op| matches!(op, VectorOp::WriteScalar { vector: 3, row: 0, value: ScalarWrite::TimestampMs(99) })));
    assert!(ops.iter().any(|op| matches!(op, VectorOp::ChildVector { parent: 7, link: ChildLink::StructField(0), .. })));
    let nulls = ops.iter().filter(|op| matches!(op, VectorOp::SetNull { row: 0, .. })).count();
    assert_eq!(nulls, 2);
    assert!(matches!(ops.last(), Some(VectorOp::FinishElements { vector: 0, size: 1 })));
}

#[test]
fn an_invalid_batch_plans_nothing() {
    let row = DuckDynamicRow::new(vec![Some(text("not a number")), None]);
    let error = DuckDynamicRow::write_batch(&schema(), &[Some(&row)]).expect_err("VARCHAR for BIGINT");
    assert_eq!(
        error.as_str(),
        "dynamic table function: row 0 column `id` expects BIGINT but got a value of type VARCHAR"
    );
}

#[test]
fn scalar_writes_follow_the_physical_writers() {
    assert!(matches!(DuckDynamicValue::TimestampTz(5).scalar_write(), Ok(ScalarWrite::TimestampMs(5))));
    assert!(matches!(
        DuckDynamicValue::Decimal { width: 9, scale: 2, unscaled: -7 }.scalar_write(),
        Ok(ScalarWrite::Decimal { width: 9, scale: 2, unscaled: -7 })
    ));
    match DuckDynamicValue::Blob(vec![1, 2, 3]).scalar_write() {
        Ok(ScalarWrite::Blob(bytes)) => assert_eq!(bytes, vec![1, 2, 3]),
        other => panic!("{other:?}"),
    }
    let error = DuckDynamicValue::struct_value(vec![]).scalar_write().expect_err("nested");
    assert_eq!(
        error.as_str(),
        "dynamic table function: a nested value must be written through its column writer, not as a scalar"
    );
}

#[test]
fn values_from_plain_rust_values() {
    assert!(matches!(DuckDynamicValue::from(true), DuckDynamicValue::Boolean(true)));
    assert!(matches!(DuckDynamicValue::from(3i16), DuckDynamicValue::SmallInt(3)));
    assert!(matches!(DuckDynamicValue::from(3i32), DuckDynamicValue::Integer(3)));
    assert!(matches!(DuckDynamicValue::from(3i64), DuckDynamicValue::BigInt(3)));
    assert!(matches!(DuckDynamicValue::from(String::from("s")), DuckDynamicValue::Varchar(ref s) if s == "s"));
    assert!(matches!(DuckDynamicValue::varchar("t"), DuckDynamicValue::Varchar(ref s) if s == "t"));
}

/// What a plan leaves in the vectors of a chunk: taken vectors, cells and entries.
#[derive(Default)]
struct Chunk {
    columns: std::collections::HashMap<usize, usize>,
    children: std::collections::HashMap<(usize, String), usize>,
    cells: std::collections::HashMap<(usize, usize), Option<String>>,
    entries: std::collections::HashMap<(usize, usize), (usize, usize)>,
}

fn run_plan(ops: &[VectorOp]) -> Chunk {
    let mut chunk = Chunk::default();
    for op in ops {
        match op {
            VectorOp::ColumnVector { vector, column } => {
                chunk.columns.insert(*column, *vector);
            }
            VectorOp::ChildVector { vector, parent, link } => {
                chunk.children.insert((*parent, format!("{link:?}")), *vector);
            }
            VectorOp::SetEntry { vector, row, offset, length } => {
                chunk.entries.insert((*vector, *row), (*offset, *length));
            }
            VectorOp::WriteScalar { vector, row, value } => {
                chunk.cells.insert((*vector, *row), Some(format!("{value:?}")));
            }
            VectorOp::SetNull { vector, row } => {
                chunk.cells.insert((*vector, *row), None);
            }
            VectorOp::NullEntry { vector, row } => {
                chunk.cells.insert((*vector, *row), None);
                chunk.entries.insert((*vector, *row), (0, 0));
            }
            _ => {}
        }
    }
    chunk
}

/// Reads row `row` of vector `vector` back as a column of `desc`, rendered as an optional value.
fn read_row(chunk: &Chunk, vector: usize, desc: &DuckTypeDesc, row: usize) -> String {
    if let Some(None) = chunk.cells.get(&(vector, row)) {
        return String::from("None");
    }
    let child = |link: ChildLink| chunk.children[&(vector, format!("{link:?}"))];
    let (offset, length) = chunk.entries.get(&(vector, row)).copied().unwrap_or((0, 0));
    match desc {
        DuckTypeDesc::Scalar(id) => match chunk.cells.get(&(vector, row)) {
            Some(Some(text)) if *id == TypeId::TimestampTz => format!("Some({})", text.replacen("TimestampMs", "TimestampTz", 1)),
            Some(Some(text)) => format!("Some({text})"),
            _ => String::from("None"),
        },
        DuckTypeDesc::Decimal { .. } => match chunk.cells.get(&(vector, row)) {
            Some(Some(text)) => format!("Some({text})"),
            _ => String::from("None"),
        },
        DuckTypeDesc::List(element) => {
            let items: Vec<String> =
                (offset..offset + length).map(|j| read_row(chunk, child(ChildLink::ListElement), element, j)).collect();
            format!("Some(List([{}]))", items.join(", "))
        }
        DuckTypeDesc::Struct(fields) => {
            let items: Vec<String> = fields
                .iter()
                .enumerate()
                .map(|(i, (_, field))| read_row(chunk, child(ChildLink::StructField(i)), field, row))
                .collect();
            format!("Some(Struct([{}]))", items.join(", "))
        }
        DuckTypeDesc::MapOf(key, value) => {
            let strip = |s: String| s.strip_prefix("Some(").and_then(|t| t.strip_suffix(')')).map(String::from).unwrap_or(s);
            let pairs: Vec<String> = (offset..offset + length)
                .map(|j| {
                    let k = strip(read_row(chunk, child(ChildLink::MapKeys), key, j));
                    let v = strip(read_row(chunk, child(ChildLink::MapValues), value, j));
                    format!("({k}, {v})")
                })
                .collect();
            format!("Some(MapOf([{}]))", pairs.join(", "))
        }
    }
}

#[test]
fn written_batch_reads_back_as_its_rows() {
    let schema = DuckResultSchema::new(vec![
        (String::from("id"), DuckTypeDesc::scalar(TypeId::BigInt)),
        (String::from("tags"), DuckTypeDesc::list(DuckTypeDesc::list(DuckTypeDesc::scalar(TypeId::Varchar)))),
        (
            String::from("m"),
            DuckTypeDesc::map(DuckTypeDesc::scalar(TypeId::Varchar), DuckTypeDesc::scalar(TypeId::TimestampTz)),
        ),
        (
            String::from("s"),
            DuckTypeDesc::struct_type(vec![
                (String::from("x"), DuckTypeDesc::Decimal { width: 4, scale: 1 }),
                (String::from("y"), DuckTypeDesc::list(DuckTypeDesc::scalar(TypeId::Integer))),
            ]),
        ),
    ]);
    let first = DuckDynamicRow::new(vec![
        Some(DuckDynamicValue::BigInt(1)),
        Some(DuckDynamicValue::list(vec![
            Some(DuckDynamicValue::list(vec![Some(text("a")), None])),
            None,
            Some(DuckDynamicValue::list(vec![])),
        ])),
        Some(DuckDynamicValue::map(vec![(text("k"), DuckDynamicValue::TimestampTz(99))])),
        Some(DuckDynamicValue::struct_value(vec![
            Some(DuckDynamicValue::Decimal { width: 4, scale: 1, unscaled: 12 }),
            Some(DuckDynamicValue::list(vec![Some(DuckDynamicValue::Integer(5))])),
        ])),
    ]);
    let second = DuckDynamicRow::new(vec![
        None,
        Some(DuckDynamicValue::list(vec![Some(DuckDynamicValue::list(vec![Some(text("b"))]))])),
        None,
        Some(DuckDynamicValue::struct_value(vec![None, None])),
    ]);
    let third = DuckDynamicRow::new(vec![Some(DuckDynamicValue::BigInt(3)), None, Some(DuckDynamicValue::map(vec![])), None]);
    let rows = [Some(&first), None, Some(&second), Some(&third)];
    let ops = DuckDynamicRow::write_batch(&schema, &rows).expect("valid batch");
    let chunk = run_plan(&ops);
    for (r, row) in rows.iter().enumerate() {
        for (c, (_, desc)) in schema.columns().iter().enumerate() {
            let expected = match row {
                Some(row) => format!("{:?}", row.value(c)),
                None => String::from("None"),
            };
            assert_eq!(read_row(&chunk, chunk.columns[&c], desc, r), expected, "row {r} column {c}");
        }
    }
}
