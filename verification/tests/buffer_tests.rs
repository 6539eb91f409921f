use tedit::buffer::LineBuffer;

fn chars(s: &str) -> Vec<char> {
    s.chars().collect()
}

fn buf(lines: &[&str]) -> LineBuffer {
    LineBuffer::new(lines.iter().map(|s| chars(s)).collect())
}

fn as_strings(b: &LineBuffer) -> Vec<String> {
    b.lines.iter().map(|l| l.iter().collect()).collect()
}

#[test]
fn empty_input_is_one_empty_line() {
    let b = LineBuffer::new(Vec::new());
    assert_eq!(as_strings(&b), vec![String::new()]);
}

#[test]
fn insert_char_shifts_right() {
    let mut b = buf(&["abc"]);
    b.insert_char(0, 1, 'x');
    assert_eq!(as_strings(&b), vec!["axbc".to_string()]);
}

#[test]
fn insert_char_at_line_end() {
    let mut b = buf(&["abc"]);
    b.insert_char(0, 3, 'x');
    assert_eq!(as_strings(&b), vec!["abcx".to_string()]);
}

#[test]
fn insert_char_beyond_end_is_noop() {
    let mut b = buf(&["abc"]);
    b.insert_char(0, 4, 'x');
    assert_eq!(as_strings(&b), vec!["abc".to_string()]);
}

#[test]
fn delete_char_removes_before_offset() {
    let mut b = buf(&["abc"]);
    b.delete_char(0, 2);
    assert_eq!(as_strings(&b), vec!["ac".to_string()]);
}

#[test]
fn delete_char_at_zero_is_noop() {
    let mut b = buf(&["abc"]);
    b.delete_char(0, 0);
    assert_eq!(as_strings(&b), vec!["abc".to_string()]);
}

#[test]
fn insert_then_delete_restores_line() {
    let mut b = buf(&["hello"]);
    b.insert_char(0, 2, 'z');
    assert_eq!(as_strings(&b), vec!["hezllo".to_string()]);
    b.delete_char(0, 3);
    assert_eq!(as_strings(&b), vec!["hello".to_string()]);
}

#[test]
fn split_line_keeps_both_halves() {
    let mut b = buf(&["hello", "tail"]);
    b.split_line(0, 2);
    assert_eq!(
        as_strings(&b),
        vec!["he".to_string(), "llo".to_string(), "tail".to_string()]
    );
}

#[test]
fn split_line_at_end_makes_empty_line() {
    let mut b = buf(&["hello"]);
    b.split_line(0, 5);
    assert_eq!(as_strings(&b), vec!["hello".to_string(), String::new()]);
}

#[test]
fn join_line_appends_next() {
    let mut b = buf(&["foo", "bar", "baz"]);
    b.join_line(0);
    assert_eq!(as_strings(&b), vec!["foobar".to_string(), "baz".to_string()]);
}

#[test]
fn join_last_line_is_noop() {
    let mut b = buf(&["foo", "bar"]);
    b.join_line(1);
    assert_eq!(as_strings(&b), vec!["foo".to_string(), "bar".to_string()]);
}

#[test]
fn split_then_join_restores_buffer() {
    let mut b = buf(&["roundtrip", "next"]);
    b.split_line(0, 5);
    b.join_line(0);
    assert_eq!(as_strings(&b), vec!["roundtrip".to_string(), "next".to_string()]);
}

#[test]
fn to_text_joins_with_newlines() {
    let b = buf(&["x", "y"]);
    let t: String = b.to_text().iter().collect();
    assert_eq!(t, "x\ny\n");
}

#[test]
fn to_text_single_empty_line() {
    let b = buf(&[""]);
    let t: String = b.to_text().iter().collect();
    assert_eq!(t, "\n");
}

#[test]
fn from_text_splits_lines() {
    let b = LineBuffer::from_text(&chars("x\ny\n"));
    assert_eq!(as_strings(&b), vec!["x".to_string(), "y".to_string()]);
}

#[test]
fn from_text_without_trailing_newline() {
    let b = LineBuffer::from_text(&chars("a\nb"));
    assert_eq!(as_strings(&b), vec!["a".to_string(), "b".to_string()]);
}

#[test]
fn from_text_keeps_interior_empty_lines() {
    let b = LineBuffer::from_text(&chars("a\n\nb\n"));
    assert_eq!(
        as_strings(&b),
        vec!["a".to_string(), String::new(), "b".to_string()]
    );
}

#[test]
fn from_text_empty_is_one_empty_line() {
    let b = LineBuffer::from_text(&chars(""));
    assert_eq!(as_strings(&b), vec![String::new()]);
}

#[test]
fn from_text_to_text_roundtrip() {
    let text = "first\nsecond\n\nlast\n";
    let b = LineBuffer::from_text(&chars(text));
    let back: String = b.to_text().iter().collect();
    assert_eq!(back, text);
}
