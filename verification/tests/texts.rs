use executors::text::{
    decimal_of, is_before, join, lines_of, remove_char, replace_char, signed_decimal_of,
    split_before, starts_with, to_ascii_uppercase, trim, trim_end_of, trim_start_of,
};

#[test]
fn white_space_is_trimmed_by_its_property() {
    assert_eq!(trim(" \t\u{a0}a b\u{2003}\n"), "a b");
    assert_eq!(trim_start_of("\u{3000}x "), "x ");
    assert_eq!(trim_end_of(" x\u{85}"), " x");
    assert_eq!(trim("\u{200b}"), "\u{200b}");
    assert_eq!(trim("  "), "");
}

#[test]
fn only_listed_characters_are_white_space() {
    let blank: Vec<char> = ('\0'..=char::MAX).filter(|c| trim(&c.to_string()).is_empty()).collect();
    let known = "\t\n\u{b}\u{c}\r \u{85}\u{a0}\u{1680}\u{2000}\u{2001}\u{2002}\u{2003}\u{2004}\
                 \u{2005}\u{2006}\u{2007}\u{2008}\u{2009}\u{200a}\u{2028}\u{2029}\u{202f}\u{205f}\
                 \u{3000}";
    assert_eq!(blank, known.chars().collect::<Vec<char>>());
}

#[test]
fn lines_end_in_line_feeds_with_or_without_returns() {
    assert_eq!(lines_of("a\r\nb\n\nc\r"), vec!["a", "b", "", "c\r"]);
    assert!(lines_of("").is_empty());
    assert_eq!(lines_of("\n"), vec![""]);
    let parts = vec!["a".to_string(), "b".to_string(), "c".to_string()];
    assert_eq!(join(&parts, 2, ", "), "a, b");
    assert_eq!(join(&parts, 0, ", "), "");
}

#[test]
fn characters_are_replaced_one_by_one() {
    assert_eq!(replace_char("a-b-c", '-', '_'), "a_b_c");
    assert_eq!(remove_char("a\r\nb\r", '\r'), "a\nb");
    assert_eq!(to_ascii_uppercase("aZ\u{e9}_1"), "AZ\u{e9}_1");
    assert_eq!(split_before("one two three", " t"), "one");
    assert_eq!(split_before("one", " t"), "one");
    assert!(starts_with("__x", "__"));
    assert!(!starts_with("_", "__"));
}

#[test]
fn numbers_are_written_in_decimal() {
    assert_eq!(decimal_of(0), "0");
    assert_eq!(decimal_of(18_446_744_073_709_551_615), "18446744073709551615");
    assert_eq!(signed_decimal_of(-2_147_483_648), "-2147483648");
    assert_eq!(signed_decimal_of(15), "15");
}

#[test]
fn texts_are_ordered_by_their_characters() {
    assert!(is_before("AMP", "GEMINI"));
    assert!(is_before("A", "AB"));
    assert!(!is_before("AB", "A"));
    assert!(!is_before("A", "A"));
    assert!(is_before("Z", "a"));
}
