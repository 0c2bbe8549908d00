use duckfn::descriptions::{
    csv_document, csv_record, flatten_newlines, join_texts, output_path, select_exported, FunctionDescription, Summary,
    ALL_FILE_NAME, CSV_HEADER, FILE_NAME,
};

fn doc(name: &str, description: Option<&str>, comment: Option<&str>, examples: &[&str]) -> FunctionDescription {
    FunctionDescription {
        function: String::from(name),
        description: description.map(String::from),
        comment: comment.map(String::from),
        examples: examples.iter().map(|e| String::from(*e)).collect(),
    }
}

#[test]
fn newlines_collapse_into_one_space() {
    assert_eq!(flatten_newlines("plain"), "plain");
    assert_eq!(flatten_newlines("a\nb"), "a b");
    assert_eq!(flatten_newlines("a\r\n\r\nb"), "a b");
    assert_eq!(flatten_newlines("\nx\r"), " x ");
    assert_eq!(flatten_newlines(""), "");
}

#[test]
fn flattened_text_has_no_line_break() {
    for text in ["one\ntwo\r\nthree", "\r\r\r", "x\n\ny\rz"] {
        let out = flatten_newlines(text);
        assert!(!out.contains('\n') && !out.contains('\r'), "{out:?}");
    }
}

#[test]
fn examples_join_into_one_field() {
    let d = doc("f", Some("adds\nthings"), None, &["SELECT f(1)", "SELECT f(2)"]);
    assert!(d.is_documented());
    assert_eq!(csv_record(&d), ["f", "adds things", "", "SELECT f(1), SELECT f(2)"]);
    assert_eq!(join_texts(&vec![], ", "), "");
    assert_eq!(join_texts(&vec![String::from("x")], ", "), "x");
}

#[test]
fn export_selects_documented_functions_unless_all() {
    let declared = vec![
        doc("a", Some("described"), None, &[]),
        doc("b", None, None, &[]),
        doc("c", None, Some("commented"), &[]),
        doc("d", None, None, &["SELECT d()"]),
    ];
    let (rows, summary) = select_exported(&declared, false);
    let names: Vec<&str> = rows.iter().map(|r| r.function.as_str()).collect();
    assert_eq!(names, ["a", "c", "d"]);
    assert_eq!(summary, Summary { written: 3, without_description: 2, skipped: 1 });
    let (all_rows, all_summary) = select_exported(&declared, true);
    assert_eq!(all_rows.len(), 4);
    assert_eq!(all_summary, Summary { written: 4, without_description: 3, skipped: 0 });
    assert!(!declared[1].is_documented());
}

#[test]
fn csv_document_quotes_fields_that_need_it() {
    let rows = vec![doc("f", Some("say \"hi\", then go"), None, &[])];
    let bytes = csv_document(&rows);
    let text = String::from_utf8(bytes).expect("UTF-8");
    assert_eq!(text, "function,description,comment,example\nf,\"say \"\"hi\"\", then go\",,\n");
    assert_eq!(CSV_HEADER, ["function", "description", "comment", "example"]);
}

#[test]
fn output_path_is_under_target() {
    let p = output_path("/work/ext", false);
    assert_eq!(std::path::Path::new(&p), std::path::Path::new("/work/ext/target/function_descriptions.csv"));
    let all = output_path("/work/ext", true);
    assert!(all.ends_with(ALL_FILE_NAME));
    assert!(p.ends_with(FILE_NAME));
}

#[test]
fn output_path_puts_one_separator_between_parts() {
    assert_eq!(output_path("/proj", false), "/proj/target/function_descriptions.csv");
    assert_eq!(output_path("/proj", true), "/proj/target/function_descriptions_all.csv");
    assert_eq!(output_path("/proj/", false), "/proj/target/function_descriptions.csv");
}
