use duckfn::entrypoint::entry_point_symbol;
use duckfn::error::duck_error;
use duckfn::helpers::{panic_to_duck_error, panic_to_string, vec_option_to_ref, PanicPayload};
use duckfn::overloads::overload_groups;
use duckfn::value_read::{read_kind, require_map_key, require_map_value, ReadKind};
use duckfn::dynamic_value::DuckDynamicValue;
use duckfn::type_desc::DuckTypeDesc;
use duckfn::type_id::TypeId;

#[test]
fn entry_point_symbols() {
    assert_eq!(entry_point_symbol("my_ext").expect("valid"), "my_ext_init_c_api");
    assert_eq!(entry_point_symbol("").expect_err("empty"), "extension name must not be empty");
    assert_eq!(
        entry_point_symbol("My-Ext").expect_err("bad characters"),
        "extension name must contain only lowercase letters, digits, and underscores"
    );
    assert_eq!(entry_point_symbol("1ext").expect_err("starts with a digit"), "invalid extension name `1ext`");
    assert_eq!(entry_point_symbol("_").expect("underscore"), "__init_c_api");
}

#[test]
fn borrowing_a_batch() {
    let values = vec![Some(1), None, Some(3)];
    let refs = vec_option_to_ref(&values);
    assert_eq!(refs, [Some(&1), None, Some(&3)]);
}

#[test]
fn panic_payloads() {
    assert_eq!(panic_to_string(PanicPayload::Text(String::from("boom"))), "boom");
    assert_eq!(panic_to_string(PanicPayload::Other), "unknown panic");
    assert_eq!(panic_to_duck_error(PanicPayload::Other).as_str(), "unknown panic");
    assert_eq!(duck_error("plain").as_str(), "plain");
}

#[test]
fn overloads_group_by_name_in_submission_order() {
    let mut groups = overload_groups(&["f", "g", "f", "h", "f"]);
    groups.sort();
    assert_eq!(
        groups,
        vec![
            (String::from("f"), vec![0, 2, 4]),
            (String::from("g"), vec![1]),
            (String::from("h"), vec![3]),
        ]
    );
    assert!(overload_groups(&[]).is_empty());
}

#[test]
fn read_kinds_and_map_entries() {
    assert_eq!(read_kind(&DuckTypeDesc::scalar(TypeId::Uuid)).expect("readable"), ReadKind::Scalar(TypeId::Uuid));
    assert_eq!(read_kind(&DuckTypeDesc::list(DuckTypeDesc::scalar(TypeId::Bit))).expect("list"), ReadKind::List);
    let error = read_kind(&DuckTypeDesc::scalar(TypeId::Bit)).expect_err("BIT");
    assert_eq!(
        error.as_str(),
        "dynamic table function: DuckTypeDesc `Bit` is not supported by DuckDynamicValue::from_duck_value"
    );
    assert!(require_map_key(Some(DuckDynamicValue::Integer(1))).is_ok());
    assert_eq!(require_map_key(None).expect_err("null key").as_str(), "dynamic table function: MAP key cannot be null");
    assert_eq!(
        require_map_value(None).expect_err("null value").as_str(),
        "dynamic table function: MAP value cannot be null"
    );
}
