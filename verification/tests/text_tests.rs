use rust_server::text::{
    is_blank, is_white_exec, parse_u64, parse_usize, split_all, split_once_at, starts_with, str_equals,
    trim_copy, u64_to_string, usize_to_string,
};

#[test]
fn trim_removes_surrounding_whitespace() {
    assert_eq!(trim_copy("  a b \r\n"), "a b");
    assert_eq!(trim_copy("\u{3000}x\u{a0}"), "x");
    assert_eq!(trim_copy(" \t "), "");
    assert_eq!(trim_copy(""), "");
    assert!(is_blank("\r\n"));
    assert!(!is_blank(" x "));
}

#[test]
fn split_all_keeps_empty_pieces() {
    assert_eq!(split_all("GET / HTTP/1.1", ' '), vec!["GET", "/", "HTTP/1.1"]);
    assert_eq!(split_all("a::b", ':'), vec!["a", "", "b"]);
    assert_eq!(split_all("", ' '), vec![""]);
    assert_eq!(split_all("x ", ' '), vec!["x", ""]);
}

#[test]
fn split_once_cuts_at_first() {
    assert_eq!(
        split_once_at("bytes=0-1=2", '='),
        Some(("bytes".to_string(), "0-1=2".to_string()))
    );
    assert_eq!(split_once_at("none", '='), None);
}

#[test]
fn prefix_and_equality() {
    assert!(starts_with("public/a.html", "public"));
    assert!(starts_with("abc", ""));
    assert!(!starts_with("pub", "public"));
    assert!(str_equals("GET", "GET"));
    assert!(!str_equals("GET", "get"));
}

#[test]
fn parse_unsigned_like_std() {
    assert_eq!(parse_u64("0"), Some(0));
    assert_eq!(parse_u64("+42"), Some(42));
    assert_eq!(parse_u64("007"), Some(7));
    assert_eq!(parse_u64("18446744073709551615"), Some(u64::MAX));
    assert_eq!(parse_u64("18446744073709551616"), None);
    assert_eq!(parse_u64(""), None);
    assert_eq!(parse_u64("+"), None);
    assert_eq!(parse_u64("-5"), None);
    assert_eq!(parse_u64(" 5"), None);
    assert_eq!(parse_u64("5a"), None);
    assert_eq!(parse_usize("12"), Some(12));
    for s in ["0", "+1", "99999", "-1", "", "1 2", "18446744073709551616"] {
        assert_eq!(parse_u64(s), s.parse::<u64>().ok());
    }
}

#[test]
fn decimal_writing() {
    assert_eq!(u64_to_string(0), "0");
    assert_eq!(u64_to_string(1234), "1234");
    assert_eq!(u64_to_string(u64::MAX), u64::MAX.to_string());
    assert_eq!(usize_to_string(10), "10");
}

#[test]
fn law_decimal_roundtrip_on_values() {
    for n in [0u64, 9, 10, 1048576, u64::MAX] {
        assert_eq!(parse_u64(&u64_to_string(n)), Some(n));
        assert_eq!(trim_copy(&u64_to_string(n)), u64_to_string(n));
    }
}

#[test]
fn whitespace_matches_std() {
    for u in 0u32..0x11_0000 {
        if let Some(c) = char::from_u32(u) {
            assert_eq!(is_white_exec(c), c.is_whitespace(), "char {u:#x}");
        }
    }
}

#[test]
fn trim_and_split_match_std() {
    let samples = ["", " ", "a", " a ", "\u{85}x\u{2028}", "a b  c", "::", "k:v:w", "é é"];
    for s in samples {
        assert_eq!(trim_copy(s), s.trim());
        let std_pieces: Vec<String> = s.split(' ').map(|p| p.to_string()).collect();
        assert_eq!(split_all(s, ' '), std_pieces);
        let std_colon: Vec<String> = s.split(':').map(|p| p.to_string()).collect();
        assert_eq!(split_all(s, ':'), std_colon);
    }
}
