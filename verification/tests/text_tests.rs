use ddstats_rust::text::{
    ascii_uppercase, max_line_width, parse_decimal_str, push_bool, push_dec_i64, push_dec_u128,
    push_str, second_field_of, starts_with, take_until_nul, text_eq, text_lines,
};

#[test]
fn decimal_rendering_matches_display() {
    for v in [0i64, 7, 10, 99, 100, -1, -10, 12345, i64::MIN, i64::MAX] {
        let mut s = String::from("x=");
        push_dec_i64(&mut s, v);
        assert_eq!(s, format!("x={}", v));
    }
    for v in [0u128, 9, 10, u64::MAX as u128, u128::MAX] {
        let mut s = String::new();
        push_dec_u128(&mut s, v);
        assert_eq!(s, v.to_string());
    }
}

#[test]
fn bool_and_str_appending() {
    let mut s = String::new();
    push_bool(&mut s, true);
    push_str(&mut s, ",");
    push_bool(&mut s, false);
    assert_eq!(s, "true,false");
}

#[test]
fn parse_decimal_follows_from_str_radix() {
    let cases = ["0", "42", "-42", "+42", "", "-", "+", "4a", "2147483647", "2147483648",
        "-2147483648", "-2147483649", "00017", "99999999999999999999", " 1"];
    for c in cases {
        let expected = i32::from_str_radix(c, 10).ok().map(|v| v as i64);
        assert_eq!(parse_decimal_str(c, true, i32::MIN as i64, i32::MAX as i64), expected, "{c:?}");
        let expected_u8 = u8::from_str_radix(c, 10).ok().map(|v| v as i64);
        assert_eq!(parse_decimal_str(c, false, 0, 255), expected_u8, "{c:?}");
    }
}

#[test]
fn round_trip_of_i32_rendering() {
    for v in [i32::MIN, -1000, -1, 0, 1, 65535, i32::MAX] {
        let mut s = String::new();
        push_dec_i64(&mut s, v as i64);
        assert_eq!(parse_decimal_str(&s, true, i32::MIN as i64, i32::MAX as i64), Some(v as i64));
    }
}

#[test]
fn text_comparisons() {
    assert!(text_eq("gimme", "gimme"));
    assert!(!text_eq("gimme", "gimm"));
    assert!(starts_with("clr-set logo", "clr-set"));
    assert!(starts_with("abc", ""));
    assert!(!starts_with("clr", "clr-set"));
    assert!(!starts_with("xclr-set", "clr-set"));
}

#[test]
fn second_field_is_split_nth_1() {
    for s in ["ddcl_replay 123", "a b c", "nospace", "", " ", "a  b", "x ", "é ü ö"] {
        assert_eq!(second_field_of(s), s.split(' ').nth(1), "{s:?}");
    }
}

#[test]
fn lines_are_str_lines() {
    for s in ["", "a", "a\n", "a\nb", "\n\nx", "a\r\nb\r\n", "a\rb", "x\r", "\n", "ab\n\ncd\r\n\r\n"] {
        let expected: Vec<String> = s.lines().map(|l| l.to_string()).collect();
        assert_eq!(text_lines(s), expected, "{s:?}");
    }
}

#[test]
fn widest_line_counts_characters() {
    let lines = vec!["ab".to_string(), "█████".to_string(), "abcd".to_string()];
    assert_eq!(max_line_width(&lines), 5);
    assert_eq!(max_line_width(&vec![]), 0);
}

#[test]
fn uppercase_and_nul_cut() {
    assert_eq!(ascii_uppercase("569fead87abf"), "569FEAD87ABF");
    assert_eq!(take_until_nul(&[65, 66, 0, 67]), vec![65, 66]);
    assert_eq!(take_until_nul(&[65, 66]), vec![65, 66]);
    assert_eq!(take_until_nul(&[0]), Vec::<u8>::new());
}
