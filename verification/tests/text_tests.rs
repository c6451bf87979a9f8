use clipforge::lines::{char_is_space, join_with, split_lines, trimmed};
use clipforge::millis::{read_seconds, seconds_fixed_string, seconds_string};
use clipforge::text::{
    chars_of, decimal_string, find, find_last, matches_at, parse_digits, parse_number, same_text,
    scan_until, text_includes, text_of, text_of_all,
};

fn chars(s: &str) -> Vec<char> {
    s.chars().collect()
}

fn seconds(s: &str) -> Option<i64> {
    let c = chars(s);
    read_seconds(&c, 0, c.len())
}

#[test]
fn chars_and_text_round_trip() {
    let c = chars_of("héllo wörld");
    assert_eq!(c, chars("héllo wörld"));
    assert_eq!(text_of_all(&c), "héllo wörld");
    assert_eq!(text_of(&c, 1, 5), "éllo");
    assert_eq!(text_of(&c, 3, 3), "");
}

#[test]
fn decimal_numerals() {
    assert_eq!(decimal_string(0), "0");
    assert_eq!(decimal_string(7), "7");
    assert_eq!(decimal_string(10), "10");
    assert_eq!(decimal_string(90000), "90000");
    assert_eq!(decimal_string(u64::MAX), "18446744073709551615");
}

#[test]
fn numbers_are_read() {
    let c = chars("x123y");
    assert_eq!(parse_number(&c, 1, 4, u64::MAX), Some(123));
    assert_eq!(parse_number(&c, 0, 4, u64::MAX), None);
    assert_eq!(parse_number(&c, 1, 1, u64::MAX), None);
    assert_eq!(parse_number(&c, 1, 4, 122), None);
    assert_eq!(parse_number(&c, 1, 4, 123), Some(123));
    let c = chars("+42");
    assert_eq!(parse_number(&c, 0, 3, u64::MAX), Some(42));
    assert_eq!(parse_digits(&c, 0, 3, u64::MAX), None);
    let c = chars("+");
    assert_eq!(parse_number(&c, 0, 1, u64::MAX), None);
    let c = chars("007");
    assert_eq!(parse_number(&c, 0, 3, u64::MAX), Some(7));
    let c = chars("18446744073709551615");
    assert_eq!(parse_number(&c, 0, c.len(), u64::MAX), Some(u64::MAX));
    let c = chars("18446744073709551616");
    assert_eq!(parse_number(&c, 0, c.len(), u64::MAX), None);
    let c = chars("-5");
    assert_eq!(parse_number(&c, 0, 2, u64::MAX), None);
}

#[test]
fn search_in_text() {
    let s = chars("an Error happened");
    let p = chars("Error");
    assert_eq!(find(&s, &p), Some(3));
    assert!(matches_at(&s, &p, 3));
    assert!(!matches_at(&s, &p, 4));
    assert!(!matches_at(&s, &p, 15));
    assert_eq!(find(&s, &chars("error")), None);
    assert_eq!(find(&s, &chars("")), Some(0));
    assert_eq!(find(&chars(""), &chars("")), Some(0));
    assert_eq!(find(&chars("ab"), &chars("abc")), None);
    assert!(text_includes("buffer underrun", "underrun"));
    assert!(!text_includes("buffer", "underrun"));
    assert_eq!(find_last(&chars("[a] [b] c"), '['), Some(4));
    assert_eq!(find_last(&chars("abc"), '['), None);
    assert_eq!(scan_until(&chars("ab-cd-e"), 0, 7, '-'), 2);
    assert_eq!(scan_until(&chars("ab-cd-e"), 3, 7, '-'), 5);
    assert_eq!(scan_until(&chars("ab-cd-e"), 6, 7, '-'), 7);
    assert!(same_text("screen", "screen"));
    assert!(!same_text("screen", "Screen"));
}

fn lines_of(s: &str) -> Vec<String> {
    split_lines(&chars(s)).iter().map(|l| l.iter().collect()).collect()
}

#[test]
fn lines_are_split_like_the_standard_library() {
    for text in [
        "",
        "a",
        "a\n",
        "a\nb",
        "a\r\nb\r\n",
        "\n",
        "\n\n",
        "a\n\nb",
        "a\r",
        "a\r\n",
        "\r\n",
        "a\rb\nc",
        "one\ntwo\r\nthree",
        "x\r\r\ny",
    ] {
        let expected: Vec<String> = text.lines().map(|l| l.to_string()).collect();
        assert_eq!(lines_of(text), expected);
    }
}

#[test]
fn trimming_like_the_standard_library() {
    for text in ["", " ", "  a  ", "\t a b \r\n", "a", "\u{a0}x\u{3000}", "\u{2003}é \u{85}"] {
        let c = chars(text);
        let t: String = trimmed(&c, 0, c.len()).iter().collect();
        assert_eq!(t, text.trim());
    }
    let c = chars("ab  cd  ef");
    let t: String = trimmed(&c, 2, 8).iter().collect();
    assert_eq!(t, "cd");
}

#[test]
fn white_space_is_what_the_standard_library_says() {
    for n in 0u32..0x3100 {
        if let Some(c) = char::from_u32(n) {
            assert_eq!(char_is_space(c), c.is_whitespace());
        }
    }
}

#[test]
fn joining_parts() {
    assert_eq!(join_with(&vec![], "; "), "");
    assert_eq!(join_with(&vec![chars("a")], "; "), "a");
    assert_eq!(join_with(&vec![chars("a"), chars("b"), chars("c")], "; "), "a; b; c");
}

#[test]
fn seconds_in_shortest_notation() {
    assert_eq!(seconds_string(0), "0");
    assert_eq!(seconds_string(2500), "2.5");
    assert_eq!(seconds_string(2000), "2");
    assert_eq!(seconds_string(2050), "2.05");
    assert_eq!(seconds_string(2005), "2.005");
    assert_eq!(seconds_string(5), "0.005");
    assert_eq!(seconds_string(-1500), "-1.5");
    assert_eq!(seconds_string(1234567891), "1234567.891");
    assert_eq!(seconds_string(i64::MIN as i128), "-9223372036854775.808");
}

#[test]
fn seconds_with_three_places() {
    assert_eq!(seconds_fixed_string(0), "0.000");
    assert_eq!(seconds_fixed_string(2500), "2.500");
    assert_eq!(seconds_fixed_string(12345), "12.345");
    assert_eq!(seconds_fixed_string(7), "0.007");
    assert_eq!(seconds_fixed_string(-250), "-0.250");
}

#[test]
fn millisecond_rounding() {
    assert_eq!(seconds("2.500"), Some(2500));
    assert_eq!(seconds("2.5004"), Some(2500));
    assert_eq!(seconds_string(seconds("2.5004").unwrap() as i128), "2.5");
    assert_eq!(seconds("2.5005"), Some(2501));
    assert_eq!(seconds("2.5"), Some(2500));
    assert_eq!(seconds("12.345000"), Some(12345));
    assert_eq!(seconds("0.9996"), Some(1000));
    assert_eq!(seconds("7"), Some(7000));
    assert_eq!(seconds("7."), Some(7000));
    assert_eq!(seconds(".5"), Some(500));
    assert_eq!(seconds("-1.5"), Some(-1500));
    assert_eq!(seconds("+1.5"), Some(1500));
}

#[test]
fn millisecond_rounding_is_idempotent() {
    for ms in [0i64, 1, 9, 10, 99, 100, 999, 1000, 2500, 2050, 123456, -1, -2500, i64::MAX, i64::MIN]
    {
        assert_eq!(seconds(&seconds_string(ms as i128)), Some(ms));
        assert_eq!(seconds(&seconds_fixed_string(ms as i128)), Some(ms));
    }
}

#[test]
fn what_is_no_time() {
    assert_eq!(seconds(""), None);
    assert_eq!(seconds("."), None);
    assert_eq!(seconds("-"), None);
    assert_eq!(seconds("abc"), None);
    assert_eq!(seconds("1.2.3"), None);
    assert_eq!(seconds("1e3"), None);
    assert_eq!(seconds(" 1"), None);
    assert_eq!(seconds("N/A"), None);
    assert_eq!(seconds("9223372036854775.807"), Some(i64::MAX));
    assert_eq!(seconds("9223372036854775.808"), None);
    assert_eq!(seconds("-9223372036854775.808"), Some(i64::MIN));
    assert_eq!(seconds("-9223372036854775.809"), None);
    assert_eq!(seconds("99999999999999999999999"), None);
}
