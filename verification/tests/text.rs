use crawlberg::text::{chars_of, parse_usize, push_decimal, str_contains, string_from_chars, to_ascii_lower};

#[test]
fn decimal_parsing_follows_std() {
    for s in ["0", "123", "+7", "", "+", "-1", "12a", " 1", "18446744073709551615", "18446744073709551616", "99999999999999999999"] {
        assert_eq!(parse_usize(s), s.parse::<usize>().ok(), "{s:?}");
    }
}

#[test]
fn decimal_rendering() {
    let mut s = String::from("n=");
    push_decimal(&mut s, 0);
    push_decimal(&mut s, 10);
    push_decimal(&mut s, usize::MAX);
    assert_eq!(s, format!("n=010{}", usize::MAX));
}

#[test]
fn substring_search() {
    assert!(str_contains("hello world", "lo w"));
    assert!(str_contains("abc", ""));
    assert!(!str_contains("abc", "abcd"));
    assert!(!str_contains("", "a"));
    assert!(str_contains("aab", "ab"));
}

#[test]
fn ascii_lowercasing() {
    assert_eq!(to_ascii_lower("Sec-CH-UA É"), "sec-ch-ua É");
    assert_eq!(string_from_chars(&chars_of("héllo")), "héllo");
}
