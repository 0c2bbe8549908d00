use duckfn::copy_options::{copy_schema, DuckCopyOptions};
use duckfn::dynamic_value::DuckDynamicValue;
use duckfn::logical_type::LogicalTypeInfo;

fn options() -> DuckCopyOptions {
    DuckCopyOptions::new(vec![
        (String::from("Delimiter"), Some(DuckDynamicValue::Varchar(String::from(";")))),
        (String::from("HEADER"), Some(DuckDynamicValue::Boolean(true))),
        (String::from("limit"), Some(DuckDynamicValue::UInteger(42))),
        (String::from("huge"), Some(DuckDynamicValue::UBigInt(u64::MAX))),
        (String::from("nothing"), None),
        (String::from("header"), Some(DuckDynamicValue::Boolean(false))),
    ])
}

#[test]
fn lookups_ignore_ascii_case_and_take_the_first_match() {
    let o = options();
    assert_eq!(o.get_str("delimiter"), Some(";"));
    assert_eq!(o.get_str("DELIMITER"), Some(";"));
    assert_eq!(o.get_bool("header"), Some(true));
    assert!(o.get("missing").is_none());
    assert_eq!(o.len(), 6);
    assert!(!o.is_empty());
    assert_eq!(o.entries()[0].0, "Delimiter");
}

#[test]
fn a_null_option_is_given_but_has_no_value() {
    let o = options();
    assert!(o.contains("NOTHING"));
    assert!(o.get("nothing").is_none());
    assert!(!o.contains("absent"));
}

#[test]
fn typed_lookups() {
    let o = options();
    assert_eq!(o.get_i64("LIMIT"), Some(42));
    assert_eq!(o.get_i64("huge"), None);
    assert_eq!(o.get_i64("header"), None);
    assert_eq!(o.get_bool("limit"), None);
    assert_eq!(o.get_str("limit"), None);
    let small = DuckCopyOptions::new(vec![
        (String::from("a"), Some(DuckDynamicValue::TinyInt(-3))),
        (String::from("b"), Some(DuckDynamicValue::UBigInt(9_223_372_036_854_775_807))),
        (String::from("c"), Some(DuckDynamicValue::HugeInt(1))),
    ]);
    assert_eq!(small.get_i64("a"), Some(-3));
    assert_eq!(small.get_i64("b"), Some(i64::MAX));
    assert_eq!(small.get_i64("c"), None);
    assert!(DuckCopyOptions::default().is_empty());
}

#[test]
fn copy_schema_names_columns_by_position() {
    let schema = copy_schema(&[LogicalTypeInfo::Simple(5), LogicalTypeInfo::List(Box::new(LogicalTypeInfo::Simple(17)))])
        .expect("expressible");
    assert_eq!(schema.columns()[0].0, "column_0");
    assert_eq!(schema.columns()[1].0, "column_1");
    assert_eq!(schema.columns()[1].1.to_sql_string(), "VARCHAR[]");
    let error = copy_schema(&[LogicalTypeInfo::Simple(5), LogicalTypeInfo::Simple(33)]).expect_err("ARRAY");
    assert!(error.as_str().contains("`Array`"), "{}", error.as_str());
}
