use isup::text::{
    chars_of, concat2, contains, decimal_string, find_char, has_prefix, is_whitespace, matches_at,
    starts_with, sub_chars, trim_bounds,
};

#[test]
fn chars_of_keeps_every_character() {
    assert_eq!(chars_of(""), Vec::<char>::new());
    assert_eq!(chars_of("a/b"), vec!['a', '/', 'b']);
    assert_eq!(chars_of("é●"), vec!['é', '●']);
}

#[test]
fn decimal_string_writes_numbers() {
    assert_eq!(decimal_string(0), "0");
    assert_eq!(decimal_string(9), "9");
    assert_eq!(decimal_string(10), "10");
    assert_eq!(decimal_string(1234567890), "1234567890");
    assert_eq!(decimal_string(u64::MAX), "18446744073709551615");
}

#[test]
fn decimal_string_agrees_with_std() {
    for n in [1u64, 42, 99, 100, 101, 999, 1000, 65535, 4294967295, 4294967296] {
        assert_eq!(decimal_string(n), format!("{}", n));
    }
}

#[test]
fn contains_finds_substrings() {
    assert!(contains("error sending request: dns error: no record", "dns error"));
    assert!(contains("abc", ""));
    assert!(contains("", ""));
    assert!(contains("abc", "abc"));
    assert!(contains("abc", "c"));
    assert!(contains("aab", "ab"));
    assert!(!contains("abc", "abcd"));
    assert!(!contains("abc", "ac"));
    assert!(!contains("", "a"));
    assert!(!contains("timed out", "timeout"));
}

#[test]
fn contains_agrees_with_std() {
    let hays = ["", "a", "ab", "aba", "abab", "connection refused", "xxtimeoutxx"];
    let needles = ["", "a", "b", "ab", "ba", "aba", "timeout", "refused"];
    for hay in hays {
        for needle in needles {
            assert_eq!(contains(hay, needle), hay.contains(needle), "{:?} in {:?}", needle, hay);
        }
    }
}

#[test]
fn starts_with_compares_the_beginning() {
    assert!(starts_with("https://x", "https://"));
    assert!(starts_with("x", ""));
    assert!(starts_with("", ""));
    assert!(!starts_with("http://x", "https://"));
    assert!(!starts_with("http", "http://"));
    assert!(!starts_with("", "a"));
}

#[test]
fn matches_at_checks_one_position() {
    let hay = chars_of("abcabc");
    let needle = chars_of("bc");
    assert!(!matches_at(&hay, 0, &needle));
    assert!(matches_at(&hay, 1, &needle));
    assert!(matches_at(&hay, 4, &needle));
    assert!(!matches_at(&hay, 5, &needle));
    assert!(!matches_at(&hay, 6, &needle));
    assert!(!matches_at(&hay, 100, &needle));
    assert!(matches_at(&hay, 6, &chars_of("")));
    assert!(!matches_at(&hay, 7, &chars_of("")));
}

#[test]
fn has_prefix_compares_the_beginning() {
    assert!(has_prefix(&chars_of("www.www.x"), &chars_of("www.")));
    assert!(has_prefix(&chars_of("www."), &chars_of("www.")));
    assert!(has_prefix(&chars_of("x"), &chars_of("")));
    assert!(!has_prefix(&chars_of("x.www."), &chars_of("www.")));
    assert!(!has_prefix(&chars_of("ww"), &chars_of("www.")));
    assert!(!has_prefix(&chars_of(""), &chars_of("a")));
}

#[test]
fn white_space_agrees_with_std() {
    for code in 0u32..0x11_0000 {
        if let Some(c) = char::from_u32(code) {
            assert_eq!(is_whitespace(c), c.is_whitespace(), "U+{:04X}", code);
        }
    }
}

#[test]
fn trim_bounds_mark_what_is_kept() {
    assert_eq!(trim_bounds(&chars_of("  ab \n")), (2, 4));
    assert_eq!(trim_bounds(&chars_of("ab")), (0, 2));
    assert_eq!(trim_bounds(&chars_of("a b")), (0, 3));
    assert_eq!(trim_bounds(&chars_of("")), (0, 0));
    assert_eq!(trim_bounds(&chars_of(" \t ")), (3, 3));
    assert_eq!(trim_bounds(&chars_of("\u{3000}x\u{a0}")), (1, 2));
}

#[test]
fn trim_bounds_agree_with_std() {
    for text in ["", " ", "a", " a", "a ", " a b ", "\t\r\n", "\u{2003}é\u{85}", "\u{200b} x"] {
        let chars = chars_of(text);
        let (from, to) = trim_bounds(&chars);
        let kept: String = chars[from..to].iter().collect();
        assert_eq!(kept, text.trim(), "{:?}", text);
    }
}

#[test]
fn find_char_gives_first_position_or_length() {
    assert_eq!(find_char(&chars_of("a/b/c"), '/'), 1);
    assert_eq!(find_char(&chars_of("/"), '/'), 0);
    assert_eq!(find_char(&chars_of("abc"), '/'), 3);
    assert_eq!(find_char(&chars_of(""), '/'), 0);
}

#[test]
fn sub_chars_copies_a_range() {
    let all = chars_of("hello");
    assert_eq!(sub_chars(&all, 1, 4), vec!['e', 'l', 'l']);
    assert_eq!(sub_chars(&all, 0, 5), all);
    assert_eq!(sub_chars(&all, 2, 2), Vec::<char>::new());
}

#[test]
fn concat2_joins_two_texts() {
    assert_eq!(concat2("https://", "example.com"), "https://example.com");
    assert_eq!(concat2("", ""), "");
    assert_eq!(concat2("a", ""), "a");
}
