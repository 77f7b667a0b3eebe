use wagyan::text::convert_escapes;

#[test]
fn escaped_newline_becomes_line_break() {
    assert_eq!(convert_escapes("line1\\nline2"), "line1\nline2");
}

#[test]
fn text_without_escapes_is_unchanged() {
    assert_eq!(convert_escapes("plain text"), "plain text");
    assert_eq!(convert_escapes(""), "");
    assert_eq!(convert_escapes("n"), "n");
}

#[test]
fn real_line_break_is_kept() {
    assert_eq!(convert_escapes("a\nb"), "a\nb");
}

#[test]
fn every_escape_is_converted() {
    assert_eq!(convert_escapes("\\n\\na\\n"), "\n\na\n");
}

#[test]
fn lone_backslash_is_kept() {
    assert_eq!(convert_escapes("\\"), "\\");
    assert_eq!(convert_escapes("a\\"), "a\\");
    assert_eq!(convert_escapes("a\\b"), "a\\b");
}

#[test]
fn other_escapes_are_not_known() {
    assert_eq!(convert_escapes("a\\tb\\rc\\0"), "a\\tb\\rc\\0");
    assert_eq!(convert_escapes("\\N"), "\\N");
}

#[test]
fn doubled_backslash_does_not_protect_the_pair() {
    // Two backslashes and an `n`: the second backslash pairs with the `n`.
    assert_eq!(convert_escapes("\\\\n"), "\\\n");
    assert_eq!(convert_escapes("\\\\\\n"), "\\\\\n");
    assert_eq!(convert_escapes("\\\\"), "\\\\");
}

#[test]
fn characters_beyond_ascii_pass_through() {
    assert_eq!(convert_escapes("日本\\n語"), "日本\n語");
}

#[test]
fn conversion_is_the_replacement_of_each_pair() {
    for text in ["", "\\", "\\n", "n\\", "\\\\n\\", "a\\nb\\\\nn\\n\\", "\\n\\n\\n"] {
        assert_eq!(convert_escapes(text), text.replace("\\n", "\n"));
    }
}
