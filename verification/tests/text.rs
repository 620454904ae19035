use egui_controls::text::{
    chars_of, is_whitespace, join, push_escaped, push_hex, push_string_literal, substring,
    text_is, trim, unquote,
};

fn literal_of(value: &str) -> String {
    let mut out = String::new();
    push_string_literal(&mut out, value);
    out
}

#[test]
fn whitespace_is_what_std_calls_whitespace() {
    let mut code: u32 = 0;
    while code <= 0x10FFFF {
        if let Some(c) = char::from_u32(code) {
            assert_eq!(is_whitespace(c), c.is_whitespace(), "U+{:04X}", code);
        }
        code += 1;
    }
}

#[test]
fn trim_removes_whitespace_at_both_ends() {
    assert_eq!(trim("  some text \t\n"), "some text");
    assert_eq!(trim("inner  space"), "inner  space");
    assert_eq!(trim("\u{3000}wide\u{a0}"), "wide");
}

#[test]
fn trim_of_blank_text_is_empty() {
    assert_eq!(trim(""), "");
    assert_eq!(trim(" \t \n"), "");
}

#[test]
fn trim_agrees_with_std() {
    for sample in ["", " ", "a", " a", "a ", "  a b  ", "\n\ta\u{2028}", "\u{85}x\u{1680}y\u{205f}"] {
        assert_eq!(trim(sample), sample.trim());
    }
}

#[test]
fn unquote_strips_one_quote_at_each_end() {
    assert_eq!(unquote("\" Some text\""), " Some text");
    assert_eq!(unquote("\"\"inner\"\""), "\"inner\"");
    assert_eq!(unquote("plain"), "plain");
    assert_eq!(unquote("\"open"), "open");
    assert_eq!(unquote("close\""), "close");
}

#[test]
fn unquote_of_short_texts() {
    assert_eq!(unquote(""), "");
    assert_eq!(unquote("\""), "");
    assert_eq!(unquote("\"\""), "");
}

#[test]
fn unquote_leaves_a_raw_literal_its_prefix() {
    assert_eq!(unquote("r\"raw\""), "r\"raw");
}

#[test]
fn join_puts_single_spaces_between_lines() {
    let lines = vec!["one".to_string(), "two".to_string(), "three".to_string()];
    assert_eq!(join(&lines), "one two three");
}

#[test]
fn join_of_none_and_of_one() {
    assert_eq!(join(&Vec::new()), "");
    assert_eq!(join(&vec!["alone".to_string()]), "alone");
}

#[test]
fn join_keeps_empty_lines() {
    let lines = vec!["a".to_string(), String::new(), "b".to_string()];
    assert_eq!(join(&lines), "a  b");
}

#[test]
fn chars_and_substring() {
    let chars = chars_of("héllo");
    assert_eq!(chars, vec!['h', 'é', 'l', 'l', 'o']);
    assert_eq!(substring(&chars, 1, 4), "éll");
    assert_eq!(substring(&chars, 2, 2), "");
    assert_eq!(substring(&chars, 0, 5), "héllo");
}

#[test]
fn text_is_compares_whole_texts() {
    assert!(text_is("doc", "doc"));
    assert!(!text_is("doc", "docs"));
    assert!(!text_is("Doc", "doc"));
    assert!(text_is("", ""));
}

#[test]
fn hex_has_no_leading_zeros() {
    for (n, expected) in [(0u32, "0"), (9, "9"), (10, "a"), (15, "f"), (16, "10"), (255, "ff"),
        (0xe9, "e9"), (0x2028, "2028"), (0x10ffff, "10ffff"), (u32::MAX, "ffffffff")]
    {
        let mut out = String::from("x");
        push_hex(&mut out, n);
        assert_eq!(out, format!("x{}", expected));
    }
}

#[test]
fn escapes_of_single_characters() {
    for (c, expected) in [('a', "a"), (' ', " "), ('~', "~"), ('\'', "'"), ('"', "\\\""),
        ('\\', "\\\\"), ('\n', "\\n"), ('\r', "\\r"), ('\t', "\\t"), ('\0', "\\u{0}"),
        ('\u{7f}', "\\u{7f}"), ('é', "\\u{e9}"), ('\u{1F600}', "\\u{1f600}")]
    {
        let mut out = String::from(">");
        push_escaped(&mut out, c);
        assert_eq!(out, format!(">{}", expected));
    }
}

#[test]
fn string_literal_of_plain_text() {
    assert_eq!(literal_of("Setting"), "\"Setting\"");
    assert_eq!(literal_of(""), "\"\"");
}

#[test]
fn string_literal_appends_to_what_is_there() {
    let mut out = String::from("ui.label(");
    push_string_literal(&mut out, "say \"hi\"");
    assert_eq!(out, "ui.label(\"say \\\"hi\\\"\"");
}

#[test]
fn string_literal_reads_back_as_its_value() {
    for value in ["", "plain", "say \"hi\"", "back\\slash", "line\nbreak\r\ttab", "naïve café ☕",
        "\u{0}\u{1}\u{7f}", "\u{202e}rtl", "{braces} 'single'", "\u{10ffff}"]
    {
        let literal = literal_of(value);
        assert!(literal.is_ascii());
        let parsed: syn::LitStr = syn::parse_str(&literal).unwrap();
        assert_eq!(parsed.value(), value);
    }
}
