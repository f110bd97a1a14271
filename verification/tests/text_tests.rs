use weo::text::{chars_to_string, split_lines, strip_nuls, to_chars, trim};

fn s(cs: &Vec<char>) -> String {
    chars_to_string(cs)
}

#[test]
fn strip_nuls_removes_every_nul() {
    let cs = to_chars("a\0b\0\0c");
    assert_eq!(s(&strip_nuls(&cs)), "abc");
}

#[test]
fn strip_nuls_keeps_clean_text() {
    let cs = to_chars("abc");
    assert_eq!(s(&strip_nuls(&cs)), "abc");
}

#[test]
fn split_lines_drops_final_line_feed() {
    let cs = to_chars("a\nb\n");
    let lines = split_lines(&cs);
    assert_eq!(lines.len(), 2);
    assert_eq!(s(&lines[0]), "a");
    assert_eq!(s(&lines[1]), "b");
}

#[test]
fn split_lines_keeps_open_last_line() {
    let cs = to_chars("a\nb");
    let lines = split_lines(&cs);
    assert_eq!(lines.len(), 2);
    assert_eq!(s(&lines[1]), "b");
}

#[test]
fn split_lines_handles_crlf() {
    let cs = to_chars("a\r\nb\r\n");
    let lines = split_lines(&cs);
    assert_eq!(lines.len(), 2);
    assert_eq!(s(&lines[0]), "a");
    assert_eq!(s(&lines[1]), "b");
}

#[test]
fn split_lines_keeps_bare_trailing_carriage_return() {
    let cs = to_chars("a\r");
    let lines = split_lines(&cs);
    assert_eq!(lines.len(), 1);
    assert_eq!(s(&lines[0]), "a\r");
}

#[test]
fn split_lines_keeps_empty_middle_line() {
    let cs = to_chars("a\n\nb");
    let lines = split_lines(&cs);
    assert_eq!(lines.len(), 3);
    assert_eq!(s(&lines[1]), "");
}

#[test]
fn split_lines_of_empty_text() {
    let cs = to_chars("");
    assert!(split_lines(&cs).is_empty());
}

#[test]
fn trim_removes_surrounding_whitespace() {
    let cs = to_chars("  \t hi there \r\n");
    assert_eq!(s(&trim(&cs)), "hi there");
}

#[test]
fn trim_of_all_whitespace_is_empty() {
    let cs = to_chars(" \t\r\n ");
    assert_eq!(s(&trim(&cs)), "");
}

#[test]
fn trim_keeps_inner_text_untouched() {
    let cs = to_chars("EXISTS");
    assert_eq!(s(&trim(&cs)), "EXISTS");
}
