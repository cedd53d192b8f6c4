use zed_lib::text::{eq_ignore_ascii_case, str_eq, take_chars, trim};

#[test]
fn trim_removes_unicode_whitespace_at_both_ends() {
    assert_eq!(trim("  a b  "), "a b");
    assert_eq!(trim("\u{3000}\u{2003}x\u{85}\u{a0}"), "x");
    assert_eq!(trim("\u{200b}x"), "\u{200b}x");
    assert_eq!(trim(""), "");
    for s in ["", " ", "a", " a", "a ", "\t\na b\r\n", "\u{2028}z\u{2029}"] {
        assert_eq!(trim(s), s.trim());
        assert_eq!(trim(trim(s)), trim(s));
    }
}

#[test]
fn string_comparisons() {
    assert!(str_eq("école", "école"));
    assert!(!str_eq("école", "ecole"));
    assert!(eq_ignore_ascii_case("ABC-é", "abc-é"));
    assert!(!eq_ignore_ascii_case("É", "é"));
    assert!(!eq_ignore_ascii_case("abc", "abcd"));
    assert_eq!(take_chars("héllo", 2), "hé");
    assert_eq!(take_chars("hé", 5), "hé");
}
