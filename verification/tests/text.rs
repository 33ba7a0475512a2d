use cenyslovensko_api::text::{
    bool_string, decimal_string, is_blank, join_strings, parse_u64, str_eq_ignore_ascii_case, str_equals,
};

#[test]
fn renders_numbers_like_to_string() {
    for n in [0u64, 7, 10, 99, 100, 12345, u64::MAX] {
        assert_eq!(decimal_string(n), n.to_string());
    }
}

#[test]
fn decimal_round_trip() {
    for n in [0u64, 1, 9, 10, 1000000, u64::MAX - 1, u64::MAX] {
        assert_eq!(parse_u64(&decimal_string(n)), Some(n));
    }
}

#[test]
fn parses_like_from_str() {
    for text in ["", "+", "-", "-0", "0", "+0", "00042", "+123", "12a", "١٢", "18446744073709551615", "18446744073709551616", "99999999999999999999"] {
        assert_eq!(parse_u64(text), text.parse::<u64>().ok(), "{text:?}");
    }
}

#[test]
fn booleans_and_joins() {
    assert_eq!(bool_string(true), "true");
    assert_eq!(bool_string(false), "false");
    assert_eq!(join_strings(&vec![], ","), "");
    assert_eq!(join_strings(&vec!["a".to_string()], ","), "a");
    assert_eq!(
        join_strings(&vec!["a".to_string(), "".to_string(), "c".to_string()], ", "),
        "a, , c"
    );
}

#[test]
fn compares_text() {
    assert!(str_equals("version.get", "version.get"));
    assert!(!str_equals("version.get", "version.ge"));
    assert!(str_eq_ignore_ascii_case("TrAcE", "trace"));
    assert!(str_eq_ignore_ascii_case("Žluť", "ŽLUť"));
    assert!(!str_eq_ignore_ascii_case("Ž", "ž"));
    assert!(!str_eq_ignore_ascii_case("trace", "traces"));
    for (a, b) in [("a", "A"), ("[", "{"), ("@", "`"), ("Z", "z"), ("é", "É"), ("", "")] {
        assert_eq!(str_eq_ignore_ascii_case(a, b), a.eq_ignore_ascii_case(b), "{a:?} {b:?}");
    }
}

#[test]
fn blank_lines_are_those_that_trim_to_nothing() {
    for line in ["", " ", "\t\r\n", "\u{3000}\u{85}", " x ", "{}", "\u{200B}", "\u{a0}"] {
        assert_eq!(is_blank(line), line.trim().is_empty(), "{line:?}");
    }
}
