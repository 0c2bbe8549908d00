use duckfn::dynamic_value::{DuckDynamicValue, DuckInterval};
use duckfn::logical_type::LogicalTypeInfo;
use duckfn::type_desc::DuckTypeDesc;
use duckfn::type_id::TypeId;

fn all_ids() -> Vec<TypeId> {
    (0u32..=60).filter_map(TypeId::from_code).collect()
}

#[test]
fn type_codes_match_the_c_api() {
    let ids = all_ids();
    assert_eq!(ids.len(), 39);
    for id in ids {
        let code = id.code();
        let quack = quack_rs::types::TypeId::try_from_duckdb_type(code).expect("known code");
        assert_eq!(quack.to_duckdb_type(), code);
        assert_eq!(format!("{quack:?}"), id.debug_name());
        assert_eq!(quack.sql_name(), id.sql_name());
        assert_eq!(TypeId::from_code(code), Some(id));
    }
    assert_eq!(TypeId::from_code(0), None);
    assert_eq!(TypeId::from_code(40), None);
    assert_eq!(TypeId::from_code(9999), None);
    assert_eq!(TypeId::BigInt.code(), libduckdb_sys::DUCKDB_TYPE_DUCKDB_TYPE_BIGINT);
    assert_eq!(TypeId::MapType.code(), libduckdb_sys::DUCKDB_TYPE_DUCKDB_TYPE_MAP);
}

#[test]
fn sql_string_renders_nested_types() {
    let desc = DuckTypeDesc::map(
        DuckTypeDesc::scalar(TypeId::Varchar),
        DuckTypeDesc::list(DuckTypeDesc::scalar(TypeId::BigInt)),
    );
    assert_eq!(desc.to_sql_string(), "MAP(VARCHAR, BIGINT[])");
    let record = DuckTypeDesc::struct_type(vec![
        (String::from("id"), DuckTypeDesc::scalar(TypeId::Integer)),
        (String::from("price"), DuckTypeDesc::Decimal { width: 18, scale: 3 }),
    ]);
    assert_eq!(record.to_sql_string(), "STRUCT(id INTEGER, price DECIMAL(18, 3))");
    assert_eq!(DuckTypeDesc::struct_type(vec![]).to_sql_string(), "STRUCT()");
}

#[test]
fn type_ids_of_descriptions_and_values() {
    assert_eq!(DuckTypeDesc::Decimal { width: 4, scale: 1 }.type_id(), TypeId::Decimal);
    assert_eq!(DuckTypeDesc::list(DuckTypeDesc::scalar(TypeId::Date)).type_id(), TypeId::List);
    assert_eq!(DuckDynamicValue::map(vec![]).type_id(), TypeId::MapType);
    assert_eq!(DuckDynamicValue::TimestampTz(5).type_id(), TypeId::TimestampTz);
    assert!(DuckDynamicValue::struct_value(vec![]).is_nested());
    assert!(!DuckDynamicValue::Uuid(1).is_nested());
    assert_eq!(DuckDynamicValue::list(vec![]).scalar_type_id(), None);
    assert_eq!(DuckDynamicValue::Integer(1).scalar_type_id(), Some(TypeId::Integer));
}

#[test]
fn scalar_type_ids_that_rebuild() {
    assert!(DuckTypeDesc::from_scalar_type_id(TypeId::Interval).is_some());
    for id in [TypeId::Enum, TypeId::Array, TypeId::Union, TypeId::Bit, TypeId::List, TypeId::Decimal, TypeId::Any] {
        assert!(DuckTypeDesc::from_scalar_type_id(id).is_none(), "{id:?}");
    }
}

#[test]
fn inferred_descriptions() {
    let list = DuckDynamicValue::list(vec![None, Some(DuckDynamicValue::BigInt(1))]);
    assert_eq!(DuckTypeDesc::from_value(&list).to_sql_string(), "BIGINT[]");
    assert_eq!(DuckTypeDesc::from_value(&DuckDynamicValue::list(vec![])).to_sql_string(), "VARCHAR[]");
    let record = DuckDynamicValue::struct_value(vec![Some(DuckDynamicValue::Boolean(true)), None]);
    assert_eq!(
        DuckTypeDesc::from_value(&record).to_sql_string(),
        "STRUCT(field_0 BOOLEAN, field_1 VARCHAR)"
    );
    let map = DuckDynamicValue::map(vec![(DuckDynamicValue::Integer(1), DuckDynamicValue::Varchar(String::from("a")))]);
    assert_eq!(DuckTypeDesc::from_value(&map).to_sql_string(), "MAP(INTEGER, VARCHAR)");
    assert_eq!(DuckTypeDesc::from_value(&DuckDynamicValue::map(vec![])).to_sql_string(), "MAP(VARCHAR, VARCHAR)");
    let decimal = DuckDynamicValue::Decimal { width: 9, scale: 2, unscaled: 12345 };
    assert_eq!(DuckTypeDesc::from_value(&decimal).to_sql_string(), "DECIMAL(9, 2)");
}

#[test]
fn inferred_description_accepts_its_value() {
    let value = DuckDynamicValue::struct_value(vec![
        Some(DuckDynamicValue::list(vec![Some(DuckDynamicValue::Double(1.5f64.to_bits())), None])),
        Some(DuckDynamicValue::Interval(DuckInterval { months: 1, days: 2, micros: 3 })),
        None,
    ]);
    let desc = DuckTypeDesc::from_value(&value);
    assert!(desc.matches_value(&value));
}

#[test]
fn matching_values_against_descriptions() {
    let desc = DuckTypeDesc::list(DuckTypeDesc::Decimal { width: 10, scale: 2 });
    let good = DuckDynamicValue::list(vec![Some(DuckDynamicValue::Decimal { width: 10, scale: 2, unscaled: 1 }), None]);
    let bad = DuckDynamicValue::list(vec![Some(DuckDynamicValue::Decimal { width: 10, scale: 3, unscaled: 1 })]);
    assert!(desc.matches_value(&good));
    assert!(!desc.matches_value(&bad));
    assert!(!DuckTypeDesc::scalar(TypeId::List).matches_value(&DuckDynamicValue::list(vec![])));
    let record = DuckTypeDesc::struct_type(vec![(String::from("a"), DuckTypeDesc::scalar(TypeId::Integer))]);
    assert!(!record.matches_value(&DuckDynamicValue::struct_value(vec![])));
    assert!(record.matches_value(&DuckDynamicValue::struct_value(vec![None])));
    let map = DuckTypeDesc::map(DuckTypeDesc::scalar(TypeId::Varchar), DuckTypeDesc::scalar(TypeId::BigInt));
    let pairs = DuckDynamicValue::map(vec![(DuckDynamicValue::Varchar(String::from("k")), DuckDynamicValue::Integer(1))]);
    assert!(!map.matches_value(&pairs));
}

#[test]
fn scalar_type_desc_of_values() {
    assert_eq!(DuckDynamicValue::Varchar(String::from("x")).scalar_type_desc().to_sql_string(), "VARCHAR");
    assert_eq!(
        DuckDynamicValue::Decimal { width: 5, scale: 0, unscaled: 0 }.scalar_type_desc().to_sql_string(),
        "DECIMAL(5, 0)"
    );
    assert_eq!(DuckDynamicValue::list(vec![]).scalar_type_desc().to_sql_string(), "LIST");
}

#[test]
fn logical_type_round_trip() {
    let desc = DuckTypeDesc::struct_type(vec![
        (String::from("tags"), DuckTypeDesc::list(DuckTypeDesc::scalar(TypeId::Varchar))),
        (
            String::from("m"),
            DuckTypeDesc::map(DuckTypeDesc::scalar(TypeId::Date), DuckTypeDesc::Decimal { width: 3, scale: 1 }),
        ),
    ]);
    let info = desc.to_logical_type();
    let back = DuckTypeDesc::from_logical_type(&info).expect("rebuildable");
    assert_eq!(back.to_sql_string(), desc.to_sql_string());
    match info {
        LogicalTypeInfo::Struct(children) => {
            assert_eq!(children.len(), 2);
            assert_eq!(children[0].0, "tags");
            assert!(matches!(&children[0].1, LogicalTypeInfo::List(e) if matches!(**e, LogicalTypeInfo::Simple(17))));
        },
        other => panic!("{other:?}"),
    }
}

#[test]
fn logical_types_that_cannot_be_rebuilt() {
    let unknown = DuckTypeDesc::from_logical_type(&LogicalTypeInfo::Simple(999)).expect_err("unknown code");
    assert_eq!(
        unknown.as_str(),
        "dynamic table function: unknown DuckDB type id 999; cannot build a DuckTypeDesc from this logical type"
    );
    let nested = LogicalTypeInfo::List(Box::new(LogicalTypeInfo::Struct(vec![
        (String::from("ok"), LogicalTypeInfo::Simple(4)),
        (String::from("e"), LogicalTypeInfo::Simple(23)),
        (String::from("later"), LogicalTypeInfo::Simple(1000)),
    ])));
    let error = DuckTypeDesc::from_logical_type(&nested).expect_err("ENUM is not expressible");
    assert_eq!(
        error.as_str(),
        "dynamic table function: the DuckDB logical type `Enum` cannot be turned into a DuckTypeDesc (its parameters are not expressible); use a supported scalar, DECIMAL, LIST, STRUCT or MAP instead"
    );
    let map = DuckTypeDesc::from_logical_type(&LogicalTypeInfo::Simple(26)).expect_err("a bare MAP code");
    assert!(map.as_str().contains("`Map`"), "{}", map.as_str());
}
