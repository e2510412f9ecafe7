use alfen_eve::text::{
    chars_of, contains, decimal_text, eq_ignore_case, parse_integer, same_text,
    signed_decimal_text, strip, strip_suffix, to_lower, to_lower_char, trim, white_space, Margin,
};

#[test]
fn white_space_is_the_unicode_property() {
    for c in '\0'..=char::MAX {
        assert_eq!(white_space(c), c.is_whitespace(), "{c:?}");
    }
}

#[test]
fn chars_come_in_order() {
    assert_eq!(chars_of("aé\u{1F600}"), vec!['a', 'é', '\u{1F600}']);
    assert!(chars_of("").is_empty());
}

#[test]
fn trimming_takes_white_space_off_both_ends() {
    for s in ["", " ", "a", " a ", "\u{3000}x y\t\r\n", "\u{a0}\u{85}", "  é"] {
        assert_eq!(trim(s), s.trim());
    }
}

#[test]
fn quotes_are_stripped_from_both_ends() {
    for s in ["", "\"", "\"\"", "\"5\"", "\"\"5\"", "5\"", "a\"b", "\" 5 \""] {
        assert_eq!(strip(s, Margin::Quote), s.trim_matches('"'));
    }
}

#[test]
fn lower_case_touches_ascii_only() {
    for s in ["", "ABCxyz09", "ÄÖ KW", "[]@`{Z"] {
        assert_eq!(to_lower(s), s.to_ascii_lowercase());
    }
    assert_eq!(to_lower_char('Q'), 'q');
    assert_eq!(to_lower_char('Ä'), 'Ä');
}

#[test]
fn case_is_ignored_in_ascii_only() {
    assert!(eq_ignore_case("Solar", "SOLAR"));
    assert!(!eq_ignore_case("ä", "Ä"));
    assert!(!eq_ignore_case("on", "o"));
    assert!(eq_ignore_case("", ""));
}

#[test]
fn texts_compare_by_their_characters() {
    assert!(same_text("alfen/set", "alfen/set"));
    assert!(!same_text("alfen/set", "alfen/Set"));
    assert!(!same_text("alfen", "alfen/"));
}

#[test]
fn a_part_is_found_anywhere() {
    for (s, part) in [
        ("abc", "bc"),
        ("abc", ""),
        ("", ""),
        ("", "a"),
        ("aab", "ab"),
        ("abab", "abb"),
        ("éx", "x"),
    ] {
        assert_eq!(contains(s, part), s.contains(part), "{s} {part}");
    }
}

#[test]
fn a_suffix_is_taken_off() {
    assert_eq!(strip_suffix("3.5 kw", "kw"), Some("3.5 "));
    assert_eq!(strip_suffix("kw", "kw"), Some(""));
    assert_eq!(strip_suffix("w", "kw"), None);
    assert_eq!(strip_suffix("5 W", "w"), None);
}

#[test]
fn integers_are_written_in_decimal() {
    for n in [0, 1, 9, 10, 65535, u64::MAX] {
        assert_eq!(decimal_text(n), n.to_string());
    }
    for n in [0, -1, 10, -10, i64::MIN, i64::MAX] {
        assert_eq!(signed_decimal_text(n), n.to_string());
    }
}

#[test]
fn integers_are_read_in_decimal() {
    let texts = [
        "0", "00", "7", "+7", "-7", "-0", "+", "-", "", " 7", "7 ", "7a", "a7", "0x7", "1_0", "+-7",
        "65535", "65536", "-32768", "-32769", "32767", "32768", "4294967295", "4294967296",
        "-2147483648", "-2147483649", "18446744073709551615", "18446744073709551616",
        "99999999999999999999999999999999999999999999", "٣",
    ];
    for s in texts {
        assert_eq!(
            parse_integer(s, false, 0, 65535),
            s.parse::<u16>().ok().map(i128::from),
            "{s}"
        );
        assert_eq!(
            parse_integer(s, true, -32768, 32767),
            s.parse::<i16>().ok().map(i128::from),
            "{s}"
        );
        assert_eq!(
            parse_integer(s, false, 0, 4294967295),
            s.parse::<u32>().ok().map(i128::from),
            "{s}"
        );
        assert_eq!(
            parse_integer(s, true, -2147483648, 2147483647),
            s.parse::<i32>().ok().map(i128::from),
            "{s}"
        );
        assert_eq!(
            parse_integer(s, false, 0, u64::MAX as i128),
            s.parse::<u64>().ok().map(i128::from),
            "{s}"
        );
        assert_eq!(
            parse_integer(s, false, 0, 255),
            s.parse::<u8>().ok().map(i128::from),
            "{s}"
        );
    }
}
