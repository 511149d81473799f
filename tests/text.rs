use xaction::text::{split_lines, split_words, trimmed_lines};

#[test]
fn words_split_at_ascii_whitespace() {
    assert_eq!(split_words("  a = \"b\"\tc\r"), vec!["a", "=", "\"b\"", "c"]);
    assert!(split_words(" \t ").is_empty());
    assert_eq!(split_words("x\u{a0}y"), vec!["x\u{a0}y"]);
}

#[test]
fn lines_drop_a_final_empty_piece() {
    assert_eq!(split_lines("a\nb\n"), vec!["a", "b"]);
    assert_eq!(split_lines("a\n\nb"), vec!["a", "", "b"]);
    assert!(split_lines("").is_empty());
    assert_eq!(split_lines("\n"), vec![""]);
}

#[test]
fn trimmed_lines_trim_each_line() {
    assert_eq!(trimmed_lines(" v1.0.0 \r\n\tv1.1.0\n"), vec!["v1.0.0", "v1.1.0"]);
}
