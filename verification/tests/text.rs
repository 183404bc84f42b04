use tui_dispatch::text::{
    char_is_whitespace, find_char, parse_number, starts_with_at, to_chars, trim_range,
};

fn chars(s: &str) -> Vec<char> {
    s.chars().collect()
}

#[test]
fn the_characters_of_a_text_come_in_order() {
    assert_eq!(to_chars(""), Vec::<char>::new());
    assert_eq!(to_chars("ab c"), vec!['a', 'b', ' ', 'c']);
    assert_eq!(to_chars("\u{e9}\u{1F781}x"), vec!['\u{e9}', '\u{1F781}', 'x']);
}

#[test]
fn prefixes_are_found_at_a_position() {
    let s = chars("Engine.Tick");
    assert!(starts_with_at(&s, 0, "Engine."));
    assert!(starts_with_at(&s, 0, ""));
    assert!(starts_with_at(&s, 7, "Tick"));
    assert!(starts_with_at(&s, 7, "Ti"));
    assert!(starts_with_at(&s, 11, ""));
    assert!(!starts_with_at(&s, 7, "Tock"));
    assert!(!starts_with_at(&s, 7, "Ticks"));
    assert!(!starts_with_at(&s, 11, "x"));
    assert!(!starts_with_at(&s, 1, "Engine."));
}

#[test]
fn numbers_are_read_up_to_a_limit() {
    let read = |s: &str, max: u64| {
        let c = chars(s);
        parse_number(&c, 0, c.len(), max)
    };
    assert_eq!(read("0", 0), Some(0));
    assert_eq!(read("1", 0), None);
    assert_eq!(read("65535", 65535), Some(65535));
    assert_eq!(read("65536", 65535), None);
    assert_eq!(read("+65535", 65535), Some(65535));
    assert_eq!(read("000012", 65535), Some(12));
    assert_eq!(read("", 10), None);
    assert_eq!(read("+", 10), None);
    assert_eq!(read("++1", 10), None);
    assert_eq!(read("-1", 10), None);
    assert_eq!(read("1+", 10), None);
    assert_eq!(read("1 ", 10), None);
    assert_eq!(read("\u{661}", 10), None);
    assert_eq!(read("18446744073709551615", u64::MAX), Some(u64::MAX));
    assert_eq!(read("18446744073709551616", u64::MAX), None);
    assert_eq!(read("99999999999999999999999999999999999999999999", u64::MAX), None);
    assert_eq!(read("9999999999999999999999999999999999999999999x", u64::MAX), None);
    let c = chars("ab123cd");
    assert_eq!(parse_number(&c, 2, 5, 1000), Some(123));
    assert_eq!(parse_number(&c, 2, 4, 1000), Some(12));
    assert_eq!(parse_number(&c, 2, 2, 1000), None);
    assert_eq!(parse_number(&c, 1, 5, 1000), None);
}

#[test]
fn white_space_is_what_unicode_says() {
    for c in [' ', '\t', '\n', '\u{b}', '\u{c}', '\r', '\u{85}', '\u{a0}', '\u{1680}'] {
        assert!(char_is_whitespace(c));
    }
    for c in ['\u{2000}', '\u{2005}', '\u{200a}', '\u{2028}', '\u{2029}', '\u{202f}'] {
        assert!(char_is_whitespace(c));
    }
    assert!(char_is_whitespace('\u{205f}'));
    assert!(char_is_whitespace('\u{3000}'));
    for c in ['a', '0', '\u{8}', '\u{e}', '\u{1f}', '\u{200b}', '\u{feff}', '\u{180e}', '_'] {
        assert!(!char_is_whitespace(c));
    }
    for code in 0..0x3100u32 {
        if let Some(c) = char::from_u32(code) {
            assert_eq!(char_is_whitespace(c), c.is_whitespace());
        }
    }
}

#[test]
fn trimming_narrows_a_range() {
    let s = chars("x  ab c \t y");
    assert_eq!(trim_range(&s, 1, 9), (3, 7));
    assert_eq!(trim_range(&s, 3, 7), (3, 7));
    assert_eq!(trim_range(&s, 1, 3), (3, 3));
    assert_eq!(trim_range(&s, 0, 11), (0, 11));
    assert_eq!(trim_range(&s, 5, 5), (5, 5));
    assert_eq!(trim_range(&s, 7, 10), (10, 10));
}

#[test]
fn the_first_of_a_character_is_found() {
    let s = chars("a,b,,c");
    assert_eq!(find_char(&s, 0, 6, ','), 1);
    assert_eq!(find_char(&s, 2, 6, ','), 3);
    assert_eq!(find_char(&s, 4, 6, ','), 4);
    assert_eq!(find_char(&s, 5, 6, ','), 6);
    assert_eq!(find_char(&s, 0, 1, ','), 1);
    assert_eq!(find_char(&s, 0, 0, ','), 0);
    assert_eq!(find_char(&s, 0, 6, 'z'), 6);
}
