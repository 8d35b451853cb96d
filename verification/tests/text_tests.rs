use calibre_db::text::{nonblank_lines_of, text_eq_ignore_ascii_case, trim_text, char_is_white_space};

#[test]
fn trimming_unicode_white_space() {
    assert_eq!(trim_text("  a b \t\n"), "a b");
    assert_eq!(trim_text("\u{a0}\u{2003}x\u{3000}"), "x");
    assert_eq!(trim_text("   "), "");
    assert_eq!(trim_text(""), "");
    assert_eq!(trim_text("\u{200b}x"), "\u{200b}x");
    for c in ['\u{9}', '\u{d}', ' ', '\u{85}', '\u{1680}', '\u{200a}', '\u{2028}', '\u{205f}'] {
        assert!(char_is_white_space(c));
        assert_eq!(c.is_whitespace(), char_is_white_space(c));
    }
    for c in ['a', '\u{8}', '\u{e}', '\u{200b}', '\u{feff}', '\u{180e}'] {
        assert_eq!(c.is_whitespace(), char_is_white_space(c));
    }
}

#[test]
fn nonblank_lines_trimmed() {
    assert_eq!(nonblank_lines_of("a\n b \n\n"), vec!["a".to_string(), "b".to_string()]);
    assert_eq!(nonblank_lines_of(""), Vec::<String>::new());
    assert_eq!(nonblank_lines_of("x\r\ny"), vec!["x".to_string(), "y".to_string()]);
}

#[test]
fn ascii_case_insensitive_equality() {
    assert!(text_eq_ignore_ascii_case("PdF", "pdf"));
    assert!(!text_eq_ignore_ascii_case("pdf ", "pdf"));
    assert!(!text_eq_ignore_ascii_case("pdé", "pdÉ"));
    assert!(text_eq_ignore_ascii_case("", ""));
}
