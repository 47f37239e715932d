use seth::decimal::parse_i32;
use seth::numeration::generate_line_numeration;
use seth::path::{get_file_name, to_cleaned_path};
use seth::text::{count_lines, normalize_line_endings, str_eq};

#[test]
fn numeration_of_zero_is_empty() {
    assert_eq!(generate_line_numeration(0), "");
}

#[test]
fn numeration_of_one() {
    assert_eq!(generate_line_numeration(1), "1\n");
}

#[test]
fn numeration_counts_in_order() {
    assert_eq!(generate_line_numeration(5), "1\n2\n3\n4\n5\n");
}

#[test]
fn numeration_renders_multi_digit_numbers() {
    let block = generate_line_numeration(12);
    let lines: Vec<&str> = block.lines().collect();
    assert_eq!(lines.len(), 12);
    assert_eq!(lines[9], "10");
    assert_eq!(lines[11], "12");
}

#[test]
fn count_lines_empty_is_zero() {
    assert_eq!(count_lines(""), 0);
}

#[test]
fn count_lines_unterminated_final_line() {
    assert_eq!(count_lines("a\nb"), 2);
}

#[test]
fn count_lines_trailing_newline() {
    assert_eq!(count_lines("a\nb\n"), 2);
}

#[test]
fn count_lines_single_newline() {
    assert_eq!(count_lines("\n"), 1);
}

#[test]
fn normalize_collapses_crlf() {
    assert_eq!(normalize_line_endings("a\r\nb\r\nc"), "a\nb\nc");
}

#[test]
fn normalize_keeps_plain_text() {
    assert_eq!(normalize_line_endings("a\nb"), "a\nb");
}

#[test]
fn normalize_keeps_lone_carriage_return() {
    assert_eq!(normalize_line_endings("a\rb"), "a\rb");
}

#[test]
fn str_eq_agrees_with_equality() {
    assert!(str_eq("same", "same"));
    assert!(!str_eq("same", "sam"));
    assert!(!str_eq("same", "samE"));
}

#[test]
fn cleaned_path_strips_verbatim_prefix() {
    assert_eq!(to_cleaned_path("\\\\?\\C:\\dir\\file.txt"), "C:/dir/file.txt");
}

#[test]
fn cleaned_path_unifies_separators() {
    assert_eq!(to_cleaned_path("C:\\dir\\file.txt"), "C:/dir/file.txt");
}

#[test]
fn cleaned_path_keeps_unix_paths() {
    assert_eq!(to_cleaned_path("/home/user/file.txt"), "/home/user/file.txt");
}

#[test]
fn file_name_is_last_segment() {
    assert_eq!(get_file_name("/home/user/file.txt"), "file.txt");
}

#[test]
fn file_name_without_separator_is_whole_token() {
    assert_eq!(get_file_name("file.txt"), "file.txt");
}

#[test]
fn file_name_of_root_is_placeholder() {
    assert_eq!(get_file_name("/"), "Unknown file name");
    assert_eq!(get_file_name(""), "Unknown file name");
}

#[test]
fn parse_i32_plain_number() {
    assert_eq!(parse_i32("300"), Some(300));
}

#[test]
fn parse_i32_signs() {
    assert_eq!(parse_i32("+42"), Some(42));
    assert_eq!(parse_i32("-42"), Some(-42));
}

#[test]
fn parse_i32_limits() {
    assert_eq!(parse_i32("2147483647"), Some(i32::MAX));
    assert_eq!(parse_i32("-2147483648"), Some(i32::MIN));
    assert_eq!(parse_i32("2147483648"), None);
    assert_eq!(parse_i32("-2147483649"), None);
    assert_eq!(parse_i32("99999999999999999999"), None);
}

#[test]
fn parse_i32_rejects_garbage() {
    assert_eq!(parse_i32(""), None);
    assert_eq!(parse_i32("-"), None);
    assert_eq!(parse_i32("18px"), None);
    assert_eq!(parse_i32("1 2"), None);
}
