use duckfn::vfs::{
    decode_text, file_error, path_c_string, plan_write, split_lines, utf8_error, utf8_error_at, zero_file_error,
    OpenFlags, WriteMode, WritePlan,
};

#[test]
fn write_mode_defaults_to_replace() {
    assert_eq!(WriteMode::default(), WriteMode::Replace);
    assert_ne!(WriteMode::Append, WriteMode::FailIfExists);
}

#[test]
fn path_with_nul_byte_is_rejected() {
    let error = path_c_string("read", "a\0b").expect_err("NUL must be rejected");
    assert!(error.as_str().contains("duckfn::duck_vfs::read"), "{}", error.as_str());
    assert!(error.as_str().contains("NUL"), "{}", error.as_str());
    assert!(path_c_string("read", "plain/path.txt").is_ok());
}

#[test]
fn invalid_utf8_error_points_at_the_byte() {
    let bytes: Vec<u8> = vec![b'a', 0xFF];
    let error = std::str::from_utf8(&bytes).expect_err("must not be UTF-8");
    let message = utf8_error("x.txt", error);
    assert!(message.as_str().contains("'x.txt'"), "{}", message.as_str());
    assert!(message.as_str().contains("offset 1"), "{}", message.as_str());
}

#[test]
fn lines_split_on_lf_and_tolerate_crlf() {
    assert!(split_lines("").is_empty());
    assert_eq!(split_lines("a"), ["a"]);
    assert_eq!(split_lines("a\n"), ["a"]);
    assert_eq!(split_lines("a\nb"), ["a", "b"]);
    assert_eq!(split_lines("a\nb\n"), ["a", "b"]);
    assert_eq!(split_lines("a\r\nb\r\n"), ["a", "b"]);
    assert_eq!(split_lines("\n"), [""]);
    assert_eq!(split_lines("a\n\nb"), ["a", "", "b"]);
}

#[test]
fn split_lines_strips_only_a_final_carriage_return() {
    assert_eq!(split_lines("a\rb\r\n"), ["a\rb"]);
    assert!(split_lines("\r").is_empty());
    assert_eq!(split_lines("\r\n\r\n"), ["", ""]);
    assert_eq!(split_lines("x\r\r\ny"), ["x\r", "y"]);
}

#[test]
fn split_lines_never_leaves_a_newline_in_a_line() {
    for text in ["a\nb\nc", "\n\n\n", "one\r\ntwo\nthree\r", "no newline at all"] {
        for line in split_lines(text) {
            assert!(!line.contains('\n'), "{line:?}");
        }
    }
}

#[test]
fn nul_path_message_quotes_the_path_with_debug_escapes() {
    let error = path_c_string("write", "a\0b").expect_err("NUL must be rejected");
    assert_eq!(error.as_str(), "duckfn::duck_vfs::write: the path contains a NUL byte: \"a\\0b\"");
}

#[test]
fn accepted_path_keeps_its_text() {
    let path = path_c_string("read", "dir/file.txt").expect("plain path");
    assert_eq!(path.as_str(), "dir/file.txt");
}

#[test]
fn replace_zeroes_only_a_longer_file() {
    let longer = plan_write("f", WriteMode::Replace, true, 10, 3).expect("replace never fails");
    assert_eq!(
        longer,
        WritePlan {
            zero_first: true,
            flags: OpenFlags { write: true, create: true, create_new: false, append: false },
        }
    );
    let shorter = plan_write("f", WriteMode::Replace, true, 3, 3).expect("replace never fails");
    assert!(!shorter.zero_first);
    let missing = plan_write("f", WriteMode::Replace, false, 0, 0).expect("replace never fails");
    assert!(!missing.zero_first);
}

#[test]
fn fail_if_exists_refuses_an_existing_file() {
    let error = plan_write("out.csv", WriteMode::FailIfExists, true, 5, 1).expect_err("exists");
    assert_eq!(
        error.as_str(),
        "duckfn::duck_vfs::write: 'out.csv' already exists and WriteMode::FailIfExists was requested; delete it or write to another path"
    );
    let plan = plan_write("out.csv", WriteMode::FailIfExists, false, 0, 1).expect("missing file");
    assert_eq!(plan.flags, OpenFlags { write: true, create: true, create_new: true, append: false });
    assert!(!plan.zero_first);
}

#[test]
fn append_creates_and_appends() {
    let plan = plan_write("log", WriteMode::Append, true, 100, 1).expect("append never fails");
    assert_eq!(plan.flags, OpenFlags { write: true, create: true, create_new: false, append: true });
    assert!(!plan.zero_first);
}

#[test]
fn file_errors_name_operation_and_path() {
    let with_detail = file_error("size", "a.txt", Some(String::from("No such file")));
    assert_eq!(with_detail.as_str(), "duckfn::duck_vfs::size: 'a.txt': No such file");
    let without = file_error("read", "b", None);
    assert_eq!(without.as_str(), "duckfn::duck_vfs::read: 'b': unknown file system error");
    let zero = zero_file_error("c", "boom");
    assert_eq!(
        zero.as_str(),
        "duckfn::duck_vfs: cannot replace 'c': the file already exists and is longer than the new contents, and zeroing it with COPY failed: boom"
    );
}

#[test]
fn utf8_error_message_is_exact() {
    let error = utf8_error_at("x.txt", 7);
    assert_eq!(
        error.as_str(),
        "duckfn::duck_vfs::read_string: 'x.txt' is not valid UTF-8 (invalid byte at offset 7); use read_string_lossy to replace it or read for raw bytes"
    );
}

#[test]
fn decode_text_accepts_utf8_and_reports_the_first_bad_byte() {
    assert_eq!(decode_text("p", "héllo".as_bytes().to_vec()).expect("valid"), "héllo");
    let error = decode_text("p", vec![b'o', b'k', 0xC3]).expect_err("truncated sequence");
    assert!(error.as_str().contains("offset 2"), "{}", error.as_str());
}

#[test]
fn joined_lines_split_back() {
    let lines = ["first", "", "third\rx", "last"];
    let joined = lines.join("\n");
    assert_eq!(split_lines(&joined), lines);
    assert_eq!(split_lines(&(joined.clone() + "\n")), lines);
}

#[test]
fn decode_error_names_the_end_of_the_valid_prefix() {
    let error = decode_text("x.txt", vec![b'a', 0xFF]).expect_err("not UTF-8");
    assert!(error.as_str().contains("'x.txt'"), "{}", error.as_str());
    assert!(error.as_str().contains("offset 1"), "{}", error.as_str());
    let error = decode_text("y", "é".as_bytes().iter().copied().chain([0xE2, 0x82]).collect()).expect_err("truncated");
    assert!(error.as_str().contains("offset 2"), "{}", error.as_str());
}

#[test]
fn offsets_render_in_decimal() {
    for (offset, text) in [(0usize, "offset 0)"), (9, "offset 9)"), (10, "offset 10)"), (1234567, "offset 1234567)")] {
        let error = utf8_error_at("p", offset);
        assert!(error.as_str().contains(text), "{}", error.as_str());
    }
}
