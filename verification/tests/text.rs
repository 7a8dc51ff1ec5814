use link_mirror::text::{
    char_is_whitespace, chars_of, same_text, scan_run, starts_with_at, trim, uppercase_first,
    CharClass,
};

#[test]
fn white_space_is_what_the_standard_library_calls_white_space() {
    for code in 0..=0x10FFFFu32 {
        if let Some(c) = char::from_u32(code) {
            assert_eq!(char_is_whitespace(c), c.is_whitespace(), "U+{:04X}", code);
        }
    }
}

#[test]
fn trimming_agrees_with_the_standard_library() {
    let samples = [
        "",
        " ",
        "\n\t \r",
        "a",
        " a",
        "a ",
        "  a b  ",
        "\u{3000}https://x.com/u/status/1\u{a0}\n",
        "\u{2028}\u{2029}x\u{205f}y\u{202f}",
        "no space at all",
        "\u{feff}keeps the byte order mark ",
        " \u{200b}zero width space is no white space\u{200b} ",
    ];
    for sample in samples {
        assert_eq!(trim(sample), sample.trim(), "{:?}", sample);
    }
    assert_eq!(trim("  a b  "), "a b");
    assert_eq!(trim("\n\t \r"), "");
}

#[test]
fn character_classes() {
    assert!(CharClass::Segment.test('a'));
    assert!(CharClass::Segment.test(' '));
    assert!(!CharClass::Segment.test('/'));
    assert!(CharClass::Digit.test('0'));
    assert!(CharClass::Digit.test('9'));
    assert!(!CharClass::Digit.test('/'));
    assert!(!CharClass::Digit.test(':'));
    assert!(!CharClass::Digit.test('\u{0663}'));
    assert!(CharClass::Token.test('?'));
    assert!(!CharClass::Token.test('/'));
    assert!(!CharClass::Token.test('\t'));
    for c in ['a', 'z', 'A', 'Z', '0', '9', '_', '-'] {
        assert!(CharClass::Slug.test(c));
    }
    for c in ['`', '{', '@', '[', '/', ':', '.', ' ', '\u{e9}'] {
        assert!(!CharClass::Slug.test(c));
    }
    assert!(CharClass::Space.test(' '));
    assert!(!CharClass::Space.test('x'));
}

#[test]
fn runs_and_prefixes() {
    let text = chars_of("ab12/34");
    assert_eq!(text, vec!['a', 'b', '1', '2', '/', '3', '4']);
    assert_eq!(scan_run(&text, 0, CharClass::Digit), 0);
    assert_eq!(scan_run(&text, 2, CharClass::Digit), 4);
    assert_eq!(scan_run(&text, 0, CharClass::Segment), 4);
    assert_eq!(scan_run(&text, 5, CharClass::Digit), 7);
    assert_eq!(scan_run(&text, 7, CharClass::Digit), 7);
    assert!(starts_with_at(&text, 0, "ab"));
    assert!(starts_with_at(&text, 2, "12/"));
    assert!(starts_with_at(&text, 7, ""));
    assert!(!starts_with_at(&text, 8, ""));
    assert!(!starts_with_at(&text, 5, "345"));
    assert!(!starts_with_at(&text, 1, "ab"));
    assert!(same_text("x", "x"));
    assert!(!same_text("x", "X"));
    assert!(!same_text("x", "xx"));
}

#[test]
fn upper_case_of_ascii_is_what_the_standard_library_gives() {
    for code in 0..128u32 {
        let c = char::from_u32(code).unwrap();
        let text = format!("{}rest", c);
        assert_eq!(uppercase_first(&text), c.to_uppercase().to_string(), "U+{:04X}", code);
    }
    assert_eq!(uppercase_first("m"), "M");
    assert_eq!(uppercase_first("zebra"), "Z");
    assert_eq!(uppercase_first("Already"), "A");
    assert_eq!(uppercase_first("9gag"), "9");
    assert_eq!(uppercase_first("{x"), "{");
    assert_eq!(uppercase_first("`x"), "`");
}

#[test]
fn texts_are_the_same_character_by_character() {
    assert!(same_text("", ""));
    assert!(same_text("\u{65e5}\u{672c}", "\u{65e5}\u{672c}"));
    assert!(!same_text("\u{65e5}\u{672c}", "\u{65e5}"));
    assert!(!same_text("K", "\u{212A}"));
    assert!(!same_text("abc", "abd"));
    assert!(!same_text("", " "));
}
