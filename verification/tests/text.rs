use zenmonitor::text::{
    chars_of, decimal_string, parse_u64_token, same_chars, signed_decimal_string, split_lines, split_words,
    starts_with,
};

fn cv(s: &str) -> Vec<char> {
    s.chars().collect()
}

#[test]
fn decimal_strings() {
    for n in [0u64, 7, 10, 99, 100, 12345, u64::MAX] {
        assert_eq!(decimal_string(n), n.to_string());
    }
    for n in [0i64, -1, 9, -10, i64::MIN, i64::MAX, -86400] {
        assert_eq!(signed_decimal_string(n), n.to_string());
    }
}

#[test]
fn u64_tokens_parse_as_std_does() {
    for s in ["0", "42", "+7", "007", "18446744073709551615", "18446744073709551616", "", "+", "-1", "-0", "1a", " 1", "١"] {
        assert_eq!(parse_u64_token(&cv(s)), s.parse::<u64>().ok(), "{:?}", s);
    }
}

#[test]
fn lines_split_at_newlines() {
    let ls = split_lines(&cv("a\nbc\n\nd"));
    assert_eq!(ls, vec![cv("a"), cv("bc"), cv(""), cv("d")]);
    assert_eq!(split_lines(&cv("")), vec![cv("")]);
    assert_eq!(split_lines(&cv("x\n")), vec![cv("x"), cv("")]);
}

#[test]
fn words_split_as_split_whitespace() {
    for s in ["  MemTotal:   16384000 kB  ", "", "   ", "a", "a\u{3000}b\u{85}c\td", "x\u{2009}y"] {
        let expected: Vec<Vec<char>> = s.split_whitespace().map(cv).collect();
        assert_eq!(split_words(&cv(s)), expected, "{:?}", s);
    }
}

#[test]
fn char_helpers() {
    assert_eq!(chars_of("héllo"), cv("héllo"));
    assert!(same_chars(&cv("lo"), "lo"));
    assert!(!same_chars(&cv("lo"), "l"));
    assert!(starts_with(&cv("/proc/1"), "/proc"));
    assert!(!starts_with(&cv("/pro"), "/proc"));
    assert!(starts_with(&cv("x"), ""));
}
