use germina::text::{contains, eq_ignore_ascii_case, parse_u64, split_whitespace, starts_with, str_eq, u64_to_decimal, chars_of, trim_chars, string_of};

fn trim(s: &str) -> String {
    string_of(&trim_chars(&chars_of(s)))
}

#[test]
fn trim_removes_unicode_whitespace_at_both_ends() {
    assert_eq!(trim("  on \t\n"), "on");
    assert_eq!(trim("\u{3000}x y\u{a0}"), "x y");
    assert_eq!(trim("   "), "");
    assert_eq!(trim(""), "");
    assert_eq!(trim("a"), "a");
}

#[test]
fn split_whitespace_matches_std() {
    for s in ["node start -n client", "  a  b\tc\n", "", "   ", "x", "\u{2003}α\u{2003}β "] {
        let expected: Vec<String> = s.split_whitespace().map(|w| w.to_string()).collect();
        assert_eq!(split_whitespace(s), expected, "input {:?}", s);
    }
}

#[test]
fn parse_u64_matches_std() {
    for s in ["0", "42", "+7", "18446744073709551615", "18446744073709551616", "", "+", "-1", "12a", " 1", "007"] {
        assert_eq!(parse_u64(s), s.parse::<u64>().ok(), "input {:?}", s);
    }
}

#[test]
fn decimal_matches_to_string() {
    for n in [0u64, 9, 10, 17171, u64::MAX] {
        assert_eq!(u64_to_decimal(n), n.to_string());
    }
}

#[test]
fn string_predicates() {
    assert!(starts_with("Germina Client (Debug)", "Germina Client ("));
    assert!(!starts_with("Germina", "Germina Client ("));
    assert!(contains("cmake version 3.28", "3.28"));
    assert!(!contains("cmake", "ninja"));
    assert!(contains("abc", ""));
    assert!(eq_ignore_ascii_case("EXIT", "exit"));
    assert!(!eq_ignore_ascii_case("exits", "exit"));
    assert!(str_eq("rpc", "rpc"));
    assert!(!str_eq("rpc", "log"));
}
