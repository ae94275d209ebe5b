use bundlrs::text::{
    chars_of, decimal_u128, parse_u128_str, replace_all_chars, replace_first_chars, trim_str,
};

fn v(s: &str) -> Vec<char> {
    s.chars().collect()
}

fn st(v: &[char]) -> String {
    v.iter().collect()
}

#[test]
fn parse_u128_plain_digits() {
    assert_eq!(parse_u128_str("1700000000000"), Some(1700000000000u128));
}

#[test]
fn parse_u128_accepts_plus_sign() {
    assert_eq!(parse_u128_str("+42"), Some(42));
}

#[test]
fn parse_u128_rejects_malformed() {
    assert_eq!(parse_u128_str(""), None);
    assert_eq!(parse_u128_str("+"), None);
    assert_eq!(parse_u128_str("-1"), None);
    assert_eq!(parse_u128_str("12a"), None);
    assert_eq!(parse_u128_str(" 1"), None);
}

#[test]
fn parse_u128_bounds() {
    assert_eq!(
        parse_u128_str("340282366920938463463374607431768211455"),
        Some(u128::MAX)
    );
    assert_eq!(parse_u128_str("340282366920938463463374607431768211456"), None);
}

#[test]
fn parse_u128_agrees_with_std() {
    for s in ["0", "007", "+0", "99999999999999999999", "1_0", "٣"] {
        assert_eq!(parse_u128_str(s), s.parse::<u128>().ok(), "input {s:?}");
    }
}

#[test]
fn decimal_writes_numbers() {
    assert_eq!(st(&decimal_u128(0)), "0");
    assert_eq!(st(&decimal_u128(31536000)), "31536000");
    assert_eq!(st(&decimal_u128(u128::MAX)), u128::MAX.to_string());
}

#[test]
fn decimal_reads_back() {
    for n in [0u128, 1, 9, 10, 1234567890123, u128::MAX] {
        assert_eq!(parse_u128_str(&st(&decimal_u128(n))), Some(n));
    }
}

#[test]
fn trim_strips_unicode_white_space() {
    assert_eq!(trim_str(" \t alice\u{3000}\n"), "alice".to_string());
    assert_eq!(trim_str("   "), "".to_string());
    assert_eq!(trim_str("a b"), "a b".to_string());
}

#[test]
fn trim_agrees_with_std_and_is_idempotent() {
    for s in ["", " x ", "\u{85}y\u{a0}", "\u{2003}z z\u{200b}", "\r\n"] {
        assert_eq!(trim_str(s), s.trim().to_string());
        assert_eq!(trim_str(&trim_str(s)), trim_str(s));
    }
}

#[test]
fn replace_all_is_left_to_right_non_overlapping() {
    assert_eq!(st(&replace_all_chars(&v("aaaa"), &v("aa"), &v("b"))), "bb");
    assert_eq!(st(&replace_all_chars(&v("aaa"), &v("aa"), &v("b"))), "ba");
    assert_eq!(st(&replace_all_chars(&v("x &quot;y&quot;"), &v("&quot;"), &v("\""))), "x \"y\"");
}

#[test]
fn replace_all_agrees_with_std() {
    for (s, p, r) in [("abcabc", "bc", "X"), ("", "a", "b"), ("abc", "abcd", "z"), ("aaa", "a", "aa")] {
        assert_eq!(st(&replace_all_chars(&v(s), &v(p), &v(r))), s.replace(p, r));
    }
}

#[test]
fn replace_all_absent_pattern_keeps_text() {
    assert_eq!(st(&replace_all_chars(&v("hello"), &v("xyz"), &v("Q"))), "hello");
}

#[test]
fn replace_all_empty_pattern_keeps_text() {
    assert_eq!(st(&replace_all_chars(&v("hello"), &v(""), &v("Q"))), "hello");
}

#[test]
fn replace_first_only_first() {
    assert_eq!(st(&replace_first_chars(&v("a-b-c"), &v("-"), &v("+"))), "a+b-c");
    assert_eq!(st(&replace_first_chars(&v("abc"), &v("z"), &v("+"))), "abc");
    assert_eq!("a-b-c".replacen("-", "+", 1), "a+b-c");
}

#[test]
fn chars_of_keeps_characters() {
    assert_eq!(chars_of("héllo"), vec!['h', 'é', 'l', 'l', 'o']);
}
