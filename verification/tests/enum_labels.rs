use duckfn::enum_labels::{
    check_enum_shape, member_position, not_a_member_error, plan_duck_enum, EnumDeriveError, VariantRename, VariantShape,
};
use duckfn::naming::{CreateTypeMode, RenameRule};

fn unit(name: &str) -> VariantShape {
    VariantShape { name: String::from(name), is_unit: true, rename: VariantRename::Absent }
}

#[test]
fn shape_checks_come_in_order() {
    assert!(matches!(check_enum_shape(false, true, 0), Err(EnumDeriveError::NotAnEnum)));
    assert!(matches!(check_enum_shape(true, true, 0), Err(EnumDeriveError::Generic)));
    assert!(matches!(check_enum_shape(true, false, 0), Err(EnumDeriveError::NoVariants)));
    assert!(check_enum_shape(true, false, 2).is_ok());
    assert_eq!(EnumDeriveError::NoVariants.message(), "a DuckDB ENUM needs at least one variant");
    assert_eq!(
        EnumDeriveError::Generic.message(),
        "`#[derive(DuckEnum)]` does not support generics: a DuckDB ENUM has no type parameters"
    );
}

#[test]
fn plan_with_defaults() {
    let plan = plan_duck_enum("PriorityLevel", &vec![unit("Low"), unit("High")], None, None, None).expect("valid");
    assert_eq!(plan.labels, ["Low", "High"]);
    assert_eq!(plan.module_name, "__duck_enum_priority_level");
    assert_eq!(plan.sql_name, "priority_level");
    assert_eq!(plan.create_type, CreateTypeMode::Off);
}

#[test]
fn plan_with_rules_renames_and_sql_name() {
    let variants = vec![
        unit("HttpError"),
        VariantShape { name: String::from("Ok"), is_unit: true, rename: VariantRename::Label(String::from("fine")) },
    ];
    let plan = plan_duck_enum(
        "Status",
        &variants,
        Some(RenameRule::ScreamingKebab),
        Some(String::from("status_t")),
        Some(CreateTypeMode::Print),
    )
    .expect("valid");
    assert_eq!(plan.labels, ["HTTP-ERROR", "fine"]);
    assert_eq!(plan.sql_name, "status_t");
    assert_eq!(plan.create_type, CreateTypeMode::Print);
}

#[test]
fn duplicate_labels_are_refused() {
    let variants = vec![unit("Red"), VariantShape { name: String::from("Crimson"), is_unit: true, rename: VariantRename::Label(String::from("red")) }, unit("RED")];
    let error = plan_duck_enum("Color", &variants, Some(RenameRule::Lower), None, None).expect_err("duplicate");
    match &error {
        EnumDeriveError::DuplicateLabel { index, label } => {
            assert_eq!(*index, 1);
            assert_eq!(label, "red");
        },
        other => panic!("{other:?}"),
    }
    assert_eq!(error.message(), "duplicate ENUM label `red`: every variant needs a distinct label");
}

#[test]
fn data_variants_and_bad_attributes_are_refused() {
    let variants = vec![unit("A"), VariantShape { name: String::from("B"), is_unit: false, rename: VariantRename::Invalid }];
    assert!(matches!(plan_duck_enum("E", &variants, None, None, None), Err(EnumDeriveError::DataVariant { index: 1 })));
    let variants = vec![VariantShape { name: String::from("A"), is_unit: true, rename: VariantRename::Invalid }, unit("A")];
    assert!(matches!(plan_duck_enum("E", &variants, None, None, None), Err(EnumDeriveError::InvalidRename { index: 0 })));
}

#[test]
fn labels_find_their_index() {
    let members = ["low", "high", "urgent"];
    assert_eq!(member_position(&members, "high"), Some(1));
    assert_eq!(member_position(&members, "urgent"), Some(2));
    assert_eq!(member_position(&members, "HIGH"), None);
    assert_eq!(member_position(&[], "x"), None);
}

#[test]
fn not_a_member_message() {
    let error = not_a_member_error("mid", "priority", &["low", "high"]);
    assert_eq!(error.as_str(), "ENUM value \"mid\" is not a member of the `priority` dictionary [\"low\", \"high\"]");
    let expected = format!(
        "ENUM value {:?} is not a member of the `{}` dictionary {:?}",
        "a\"b",
        "t",
        ["x\ny"]
    );
    assert_eq!(not_a_member_error("a\"b", "t", &["x\ny"]).as_str(), expected);
}
