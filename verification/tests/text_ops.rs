use ubuntu_optimizer::text::{
    is_whitespace_char, chars_of, contains_str, decimal_string, lines_of, parse_i32_str, remove_all_str,
    signed_decimal_string, starts_with_str, str_equals, string_of, trim_str, Strip,
};

#[test]
fn lines_split_like_std() {
    let cases = ["a\r\nb\n\nc", "x\n", "", "a\r", "\n", "\n\n", "one", "a\r\r\nb", "\r\n"];
    for c in cases {
        let ours = lines_of(c);
        let std: Vec<String> = c.lines().map(|l| l.to_string()).collect();
        assert_eq!(ours, std, "input {:?}", c);
    }
    assert_eq!(lines_of("a\r\nb\n\nc"), vec!["a", "b", "", "c"]);
}

#[test]
fn containment_and_prefix() {
    assert!(contains_str("ubuntu:GNOME", "GNOME"));
    assert!(!contains_str("GNOM", "GNOME"));
    assert!(contains_str("abc", ""));
    assert!(contains_str("aaab", "aab"));
    assert!(starts_with_str("PRETTY_NAME=x", "PRETTY_NAME="));
    assert!(!starts_with_str("NAME=x", "PRETTY_NAME="));
    assert!(starts_with_str("", ""));
    assert!(str_equals("héllo", "héllo"));
    assert!(!str_equals("hello", "hell"));
}

#[test]
fn trimming_matches_std() {
    let cases = ["  enabled\n", "\u{a0}x\t", "", "   ", "a b", "\u{2003}mid\u{3000}"];
    for c in cases {
        assert_eq!(trim_str(c, Strip::Whitespace), c.trim(), "input {:?}", c);
    }
    assert_eq!(trim_str("\"Ubuntu 24.04\"", Strip::Only('"')), "Ubuntu 24.04");
    assert_eq!(trim_str("\"\"a\"", Strip::Only('"')), "a");
    assert_eq!(trim_str("\"\"", Strip::Only('"')), "");
}

#[test]
fn removal_matches_replace() {
    let cases = ["PRETTY_NAME=\"Ubuntu\"", "PRETTY_NAME=PRETTY_NAME=x", "x", "PRETTY_NAMEPRETTY_NAME=="];
    for c in cases {
        assert_eq!(remove_all_str(c, "PRETTY_NAME="), c.replace("PRETTY_NAME=", ""), "input {:?}", c);
    }
    assert_eq!(remove_all_str("aaa", "aa"), "a");
}

#[test]
fn numbers_parse_like_std() {
    let cases = [
        "10", "+10", "-0", "0", "2147483647", "2147483648", "-2147483648", "-2147483649", "", "-",
        "+", "1a", " 10", "99999999999999999999", "007", "+-1", "٣",
    ];
    for c in cases {
        assert_eq!(parse_i32_str(c), c.parse::<i32>().ok(), "input {:?}", c);
    }
    assert_eq!(parse_i32_str("-2147483648"), Some(i32::MIN));
}

#[test]
fn decimals_print_like_std() {
    for n in [0u64, 7, 10, 1234567890123, u64::MAX] {
        assert_eq!(decimal_string(n), n.to_string());
    }
    for n in [0i32, -3, 42, i32::MIN, i32::MAX] {
        assert_eq!(signed_decimal_string(n), n.to_string());
    }
}

#[test]
fn chars_round_trip() {
    let s = "Ubuntu ✓ 24.04";
    let cs = chars_of(s);
    assert_eq!(cs, s.chars().collect::<Vec<char>>());
    assert_eq!(string_of(&cs), s);
}

#[test]
fn whitespace_table_matches_std() {
    for n in 0u32..=0x10ffff {
        if let Some(c) = char::from_u32(n) {
            assert_eq!(is_whitespace_char(c), c.is_whitespace(), "code point {:#x}", n);
        }
    }
}

#[test]
fn empty_pattern_removes_nothing() {
    for c in ["", "abc", "PRETTY_NAME=x"] {
        assert_eq!(remove_all_str(c, ""), c.replace("", ""));
    }
}
