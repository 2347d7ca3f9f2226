use rainbow_blog::text::{
    contains_char, eq_ignore_ascii_case, is_blank, parse_i64, strip_prefix, to_hex_lower, trim,
    trim_by, trim_start_matches, TrimClass,
};

#[test]
fn trimming_matches_std() {
    for s in ["", "  ", " a b ", "\u{3000}x\u{85}", "\tq\n", "x", "\u{200B}y"] {
        assert_eq!(trim(s), s.trim());
        assert_eq!(is_blank(s), s.trim().is_empty());
        assert_eq!(trim_by(s, TrimClass::Exactly('x')), s.trim_matches('x'));
    }
}

#[test]
fn prefixes() {
    assert_eq!(strip_prefix("héllo", "hé"), Some("llo"));
    assert_eq!(strip_prefix("hé", "héllo"), None);
    assert_eq!(trim_start_matches("ababc", "ab"), "c");
    assert_eq!(trim_start_matches("abc", "x"), "abc");
}

#[test]
fn integer_parsing_matches_std() {
    for s in ["0", "-0", "+12", "-9223372036854775808", "9223372036854775807",
              "9223372036854775808", "", "-", "+", "1_0", " 1", "١", "00012", "-+1"] {
        assert_eq!(parse_i64(s), s.parse::<i64>().ok(), "{:?}", s);
    }
}

#[test]
fn case_insensitive_comparison() {
    assert!(eq_ignore_ascii_case("NoNe", "none"));
    assert!(!eq_ignore_ascii_case("nonee", "none"));
    assert!(!eq_ignore_ascii_case("ñone", "none"));
    assert!(contains_char("a:b", ':'));
    assert!(!contains_char("ab", ':'));
}

#[test]
fn hex_rendering() {
    assert_eq!(to_hex_lower(&[0x00, 0x0f, 0xa0, 0xff]), "000fa0ff");
    assert_eq!(to_hex_lower(&[]), "");
}
