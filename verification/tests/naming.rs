use duckfn::naming::{to_snake_case, CreateTypeMode, RenameRule};

#[test]
fn snake_case_examples() {
    assert_eq!(to_snake_case("PriorityLevel"), "priority_level");
    assert_eq!(to_snake_case("HTTPCode"), "http_code");
    assert_eq!(to_snake_case("already_snake"), "already_snake");
    assert_eq!(to_snake_case("Version2Beta"), "version2_beta");
    assert_eq!(to_snake_case("camelCase"), "camel_case");
    assert_eq!(to_snake_case("A"), "a");
    assert_eq!(to_snake_case(""), "");
}

#[test]
fn rename_rules_on_a_pascal_case_name() {
    let name = "HttpError";
    assert_eq!(RenameRule::Verbatim.apply(name), "HttpError");
    assert_eq!(RenameRule::Pascal.apply(name), "HttpError");
    assert_eq!(RenameRule::Lower.apply(name), "httperror");
    assert_eq!(RenameRule::Upper.apply(name), "HTTPERROR");
    assert_eq!(RenameRule::Snake.apply(name), "http_error");
    assert_eq!(RenameRule::ScreamingSnake.apply(name), "HTTP_ERROR");
    assert_eq!(RenameRule::Camel.apply(name), "httpError");
    assert_eq!(RenameRule::Kebab.apply(name), "http-error");
    assert_eq!(RenameRule::ScreamingKebab.apply(name), "HTTP-ERROR");
    assert_eq!(RenameRule::Camel.apply(""), "");
    assert_eq!(RenameRule::default(), RenameRule::Verbatim);
}

#[test]
fn rename_rules_by_name() {
    assert_eq!(RenameRule::from_name("snake_case"), Some(RenameRule::Snake));
    assert_eq!(RenameRule::from_name("SCREAMING-KEBAB-CASE"), Some(RenameRule::ScreamingKebab));
    assert_eq!(RenameRule::from_name("camelCase"), Some(RenameRule::Camel));
    assert_eq!(RenameRule::from_name("Snake_Case"), None);
    assert_eq!(RenameRule::from_name(""), None);
}

#[test]
fn create_type_modes() {
    assert_eq!(CreateTypeMode::from_bool(true), CreateTypeMode::Create);
    assert_eq!(CreateTypeMode::from_bool(false), CreateTypeMode::Off);
    assert_eq!(CreateTypeMode::from_string("print"), Some(CreateTypeMode::Print));
    assert_eq!(CreateTypeMode::from_string("Print"), None);
    assert_eq!(CreateTypeMode::default(), CreateTypeMode::Off);
}

#[test]
fn snake_case_output_is_lowercase_and_stable() {
    for name in ["PriorityLevel", "HTTPCode", "already_snake", "mixed2Case", "ABC", "a-B c", "XMLHttpRequest"] {
        let once = to_snake_case(name);
        assert!(!once.chars().any(|c| c.is_ascii_uppercase()), "{once}");
        assert_eq!(to_snake_case(&once), once);
    }
    assert_eq!(to_snake_case("XMLHttpRequest"), "xml_http_request");
    assert_eq!(RenameRule::ScreamingKebab.apply("HttpError"), "HTTP-ERROR");
    assert_eq!(RenameRule::Camel.apply("HttpError"), "httpError");
}
