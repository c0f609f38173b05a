use fileserver::text::find_char;
use fileserver::text::first_line;

#[test]
fn find_char_reports_first_occurrence() {
    assert_eq!(find_char("GET /x HTTP/1.1", ' '), Some(3));
    assert_eq!(find_char("a b c", ' '), Some(1));
}

#[test]
fn find_char_reports_absence() {
    assert_eq!(find_char("GET", ' '), None);
    assert_eq!(find_char("", ' '), None);
}

#[test]
fn empty_buffer_has_no_line() {
    assert_eq!(first_line(""), None);
}

#[test]
fn buffer_without_newline_is_one_line() {
    assert_eq!(first_line("GET /x HTTP/1.1"), Some("GET /x HTTP/1.1"));
}

#[test]
fn line_ends_at_newline() {
    assert_eq!(first_line("GET /x HTTP/1.1\nrest"), Some("GET /x HTTP/1.1"));
}

#[test]
fn carriage_return_before_newline_is_stripped() {
    assert_eq!(
        first_line("GET /x HTTP/1.1\r\nHost: nowhere\r\n"),
        Some("GET /x HTTP/1.1")
    );
}

#[test]
fn leading_newline_gives_an_empty_line() {
    assert_eq!(first_line("\nGET /x HTTP/1.1"), Some(""));
}

#[test]
fn lone_trailing_carriage_return_is_kept() {
    assert_eq!(first_line("abc\r"), Some("abc\r"));
}
