use foundry::unicode::char_is_whitespace;
use foundry::text::{
    to_ascii_lowercase, append, decimal_of, find, from_chars, has, matches_at, signed_decimal_of, slice, split,
    split_lines, split_whitespace, to_chars, trim, trim_end, trim_start, CharClass,
};

fn strings(parts: Vec<Vec<char>>) -> Vec<String> {
    parts.iter().map(from_chars).collect()
}

#[test]
fn chars_round_trip() {
    let text = "a\u{1F7E2}b \u{e9}";
    assert_eq!(to_chars(text), text.chars().collect::<Vec<char>>());
    assert_eq!(from_chars(&to_chars(text)), text);
    assert_eq!(from_chars(&Vec::new()), "");
}

#[test]
fn find_gives_first_position() {
    let text = to_chars("abcabc");
    assert_eq!(find(&text, &to_chars("bc")), Some(1));
    assert_eq!(find(&text, &to_chars("abc")), Some(0));
    assert_eq!(find(&text, &to_chars("cb")), None);
    assert_eq!(find(&text, &to_chars("abcabcd")), None);
    assert_eq!(find(&text, &to_chars("")), Some(0));
    assert_eq!(find(&to_chars(""), &to_chars("")), Some(0));
    assert_eq!(find(&to_chars(""), &to_chars("a")), None);
}

#[test]
fn find_counts_characters_not_bytes() {
    let text = to_chars("\u{e9}\u{e9}x");
    assert_eq!(find(&text, &to_chars("x")), Some(2));
}

#[test]
fn has_and_matches_at() {
    let text = to_chars("service is not running");
    assert!(has(&text, &to_chars("not running")));
    assert!(!has(&text, &to_chars("not responding")));
    assert!(matches_at(&text, &to_chars("is"), 8));
    assert!(!matches_at(&text, &to_chars("is"), 7));
    assert!(!matches_at(&text, &to_chars("running!!"), 15));
    assert!(matches_at(&text, &to_chars(""), 22));
    assert!(!matches_at(&text, &to_chars(""), 23));
}

#[test]
fn slice_and_concat() {
    let text = to_chars("hello");
    assert_eq!(from_chars(&slice(&text, 1, 3)), "el");
    assert_eq!(from_chars(&slice(&text, 5, 5)), "");
    assert_eq!(from_chars(&append(&text, &to_chars("/v1"))), "hello/v1");
}

#[test]
fn trimming_by_class() {
    assert_eq!(from_chars(&trim(&to_chars(" \t a b \r\n"))), "a b");
    assert_eq!(from_chars(&trim(&to_chars("\u{a0}x\u{3000}"))), "x");
    assert_eq!(from_chars(&trim(&to_chars("   "))), "");
    assert_eq!(from_chars(&trim_end(&to_chars("http://h/.,."), CharClass::Punctuation)), "http://h/");
    assert_eq!(from_chars(&trim_end(&to_chars("a///"), CharClass::Slash)), "a");
    assert_eq!(
        from_chars(&trim_start(&to_chars("\u{1F7E2}  -phi"), CharClass::NotAlphanumeric)),
        "phi"
    );
    assert_eq!(from_chars(&trim_start(&to_chars("\u{e9}9"), CharClass::NotAlphanumeric)), "9");
}

#[test]
fn char_classes() {
    assert!(CharClass::Whitespace.test(' '));
    assert!(CharClass::Whitespace.test('\n'));
    assert!(!CharClass::Whitespace.test('a'));
    assert!(CharClass::LineFeed.test('\n'));
    assert!(!CharClass::LineFeed.test('\r'));
    assert!(CharClass::NotAlphanumeric.test('-'));
    assert!(CharClass::NotAlphanumeric.test('\u{e9}'));
    assert!(!CharClass::NotAlphanumeric.test('z'));
    assert!(!CharClass::NotAlphanumeric.test('A'));
    assert!(!CharClass::NotAlphanumeric.test('0'));
    assert!(CharClass::Slash.test('/'));
    assert!(CharClass::Punctuation.test('.'));
    assert!(CharClass::Punctuation.test(','));
    assert!(!CharClass::Punctuation.test(';'));
}

#[test]
fn split_keeps_empty_pieces() {
    assert_eq!(strings(split(&to_chars("a,,b,"), CharClass::Punctuation)), vec!["a", "", "b", ""]);
    assert_eq!(strings(split(&to_chars(""), CharClass::Punctuation)), vec![""]);
}

#[test]
fn words_are_runs_without_whitespace() {
    for text in ["  a  bb\tccc \n", "", "   ", "one", "\u{1F7E2}  phi-4-mini   Phi:1"] {
        let expected: Vec<String> = text.split_whitespace().map(|w| w.to_string()).collect();
        assert_eq!(strings(split_whitespace(&to_chars(text))), expected);
    }
}

#[test]
fn lines_end_at_line_feeds() {
    for text in [
        "",
        "\n",
        "a",
        "a\n",
        "a\nb",
        "a\r\nb\r\n",
        "a\n\nb",
        "a\r",
        "a\r\n\r",
        "\r\n",
        "a\r\r\nb",
        "x\ry\nz",
    ] {
        let expected: Vec<String> = text.lines().map(|l| l.to_string()).collect();
        assert_eq!(strings(split_lines(&to_chars(text))), expected);
    }
}

#[test]
fn whitespace_is_the_unicode_property() {
    let mut seen = 0;
    for code in 0..=0x10FFFFu32 {
        if let Some(c) = char::from_u32(code) {
            assert_eq!(char_is_whitespace(c), c.is_whitespace(), "U+{:04X}", code);
            assert_eq!(CharClass::Whitespace.test(c), c.is_whitespace(), "U+{:04X}", code);
            if c.is_whitespace() {
                seen += 1;
            }
        }
    }
    assert_eq!(seen, 25);
}

#[test]
fn numbers_in_decimal_digits() {
    for n in [0u32, 7, 9, 10, 11, 99, 100, 4096, 1234567890, u32::MAX] {
        assert_eq!(from_chars(&decimal_of(n)), n.to_string());
    }
    for n in [0i32, 1, -1, 10, -10, 255, -255, i32::MAX, i32::MIN, i32::MIN + 1] {
        assert_eq!(from_chars(&signed_decimal_of(n)), n.to_string());
    }
}

#[test]
fn ascii_capitals_are_made_small() {
    for text in ["Not RUNNING", "", "abc", "AZaz@[`{", "\u{c9}\u{3a3}X\u{1F7E2}"] {
        assert_eq!(from_chars(&to_ascii_lowercase(&to_chars(text))), text.to_ascii_lowercase());
    }
}
