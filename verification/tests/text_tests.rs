use winnbot::text::{
    chars_of, join_strings, lines_of, parse_u64, push_decimal, split_chars,
    split_whitespace_chars, str_eq, to_lowercase, trim_chars,
};

fn s(v: &[char]) -> String {
    v.iter().collect()
}

#[test]
fn parse_u64_accepts_digits_and_plus() {
    assert_eq!(parse_u64("0"), Some(0));
    assert_eq!(parse_u64("42"), Some(42));
    assert_eq!(parse_u64("+7"), Some(7));
    assert_eq!(parse_u64("007"), Some(7));
    assert_eq!(parse_u64("18446744073709551615"), Some(u64::MAX));
}

#[test]
fn parse_u64_rejects_other_text() {
    assert_eq!(parse_u64(""), None);
    assert_eq!(parse_u64("+"), None);
    assert_eq!(parse_u64("-5"), None);
    assert_eq!(parse_u64(" 5"), None);
    assert_eq!(parse_u64("5 "), None);
    assert_eq!(parse_u64("12a"), None);
    assert_eq!(parse_u64("18446744073709551616"), None);
}

#[test]
fn parse_u64_agrees_with_std() {
    for t in ["1", "+1", "-1", "", "99999999999999999999", "123456789", "0x10", "٣"] {
        assert_eq!(parse_u64(t), t.parse::<u64>().ok(), "{:?}", t);
    }
}

#[test]
fn decimal_roundtrip() {
    for n in [0u64, 9, 10, 99, 100, 12345, u64::MAX] {
        let mut text = String::new();
        push_decimal(&mut text, n);
        assert_eq!(text, n.to_string());
        assert_eq!(parse_u64(&text), Some(n));
    }
}

#[test]
fn lines_follow_str_lines() {
    for t in ["", "a", "a\n", "a\r\nb", "a\n\nb\n", "\n", "a\rb\r", "x\r\n\r\n"] {
        let expected: Vec<String> = t.lines().map(|l| l.to_string()).collect();
        assert_eq!(lines_of(t), expected, "{:?}", t);
    }
}

#[test]
fn split_follows_str_split() {
    let cases = [("a, b, c", ", "), ("a,, b", ", "), ("", "\n"), ("x - y - z", " - "), ("aaa", "aa")];
    for (t, sep) in cases {
        let parts = split_chars(&chars_of(t), &chars_of(sep));
        let got: Vec<String> = parts.iter().map(|p| s(p)).collect();
        let expected: Vec<String> = t.split(sep).map(|p| p.to_string()).collect();
        assert_eq!(got, expected, "{:?} / {:?}", t, sep);
    }
}

#[test]
fn whitespace_words_and_trim_follow_std() {
    for t in ["  a b\tc \n", "", "   ", "x", "a\u{3000}b\u{85}c"] {
        let words = split_whitespace_chars(&chars_of(t));
        let got: Vec<String> = words.iter().map(|p| s(p)).collect();
        let expected: Vec<String> = t.split_whitespace().map(|p| p.to_string()).collect();
        assert_eq!(got, expected);
        assert_eq!(s(&trim_chars(&chars_of(t))), t.trim());
    }
}

#[test]
fn join_and_compare() {
    let parts = vec!["e2e4".to_string(), "e7e5".to_string()];
    assert_eq!(join_strings(&parts, " "), "e2e4 e7e5");
    assert_eq!(join_strings(&Vec::new(), " "), "");
    assert!(str_eq("abc", "abc"));
    assert!(!str_eq("abc", "abd"));
    assert_eq!(to_lowercase("E2E4"), "e2e4");
}
