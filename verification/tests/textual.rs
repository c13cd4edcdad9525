use yeelight::text::chars_of;
use yeelight::text::concat_chars;
use yeelight::text::copy_range;
use yeelight::text::find;
use yeelight::text::join_chars;
use yeelight::text::matches_at;
use yeelight::text::payload_len;
use yeelight::text::push_all;
use yeelight::text::push_decimal;
use yeelight::text::push_signed;
use yeelight::text::push_str;
use yeelight::text::read_signed;
use yeelight::text::read_unsigned;
use yeelight::text::same_chars;
use yeelight::text::space;
use yeelight::text::split_chars;
use yeelight::text::text_of;

fn chars(s: &str) -> Vec<char> {
    s.chars().collect()
}

fn rows(parts: &[&str]) -> Vec<Vec<char>> {
    parts.iter().map(|part| chars(part)).collect()
}

fn numeral(n: u64) -> String {
    let mut out = Vec::new();
    push_decimal(&mut out, n);
    text_of(&out)
}

fn signed_numeral(n: i64) -> String {
    let mut out = Vec::new();
    push_signed(&mut out, n);
    text_of(&out)
}

#[test]
fn strings_and_characters_convert_both_ways() {
    assert_eq!(chars_of("a\u{e9}\u{1F4A1}"), vec!['a', '\u{e9}', '\u{1F4A1}']);
    assert_eq!(text_of(&['a', '\u{e9}', '\u{1F4A1}']), "a\u{e9}\u{1F4A1}");
    assert_eq!(chars_of(""), Vec::<char>::new());
    assert_eq!(text_of(&[]), "");
}

#[test]
fn characters_are_appended_and_copied() {
    let mut out = chars("ab");
    push_all(&mut out, &['c', 'd']);
    push_str(&mut out, "ef");
    assert_eq!(out, chars("abcdef"));
    assert_eq!(copy_range(&out, 1, 4), chars("bcd"));
    assert_eq!(copy_range(&out, 6, 6), chars(""));
    assert!(same_chars(&out, &chars("abcdef")));
    assert!(!same_chars(&out, &chars("abcdeg")));
    assert!(!same_chars(&out, &chars("abcde")));
    assert!(same_chars(&[], &[]));
}

#[test]
fn numbers_are_written_in_decimal() {
    assert_eq!(numeral(0), "0");
    assert_eq!(numeral(7), "7");
    assert_eq!(numeral(10), "10");
    assert_eq!(numeral(120), "120");
    assert_eq!(numeral(u64::MAX), "18446744073709551615");
    assert_eq!(signed_numeral(0), "0");
    assert_eq!(signed_numeral(-1), "-1");
    assert_eq!(signed_numeral(-120), "-120");
    assert_eq!(signed_numeral(i64::MAX), "9223372036854775807");
    assert_eq!(signed_numeral(i64::MIN), "-9223372036854775808");
}

#[test]
fn unsigned_numbers_are_read_from_decimal() {
    assert_eq!(read_unsigned(&chars("0"), 255), Some(0));
    assert_eq!(read_unsigned(&chars("255"), 255), Some(255));
    assert_eq!(read_unsigned(&chars("256"), 255), None);
    assert_eq!(read_unsigned(&chars("+7"), 255), Some(7));
    assert_eq!(read_unsigned(&chars("007"), 255), Some(7));
    assert_eq!(read_unsigned(&chars("0000000000000000000000000255"), 255), Some(255));
    assert_eq!(read_unsigned(&chars(""), 255), None);
    assert_eq!(read_unsigned(&chars("+"), 255), None);
    assert_eq!(read_unsigned(&chars("-0"), 255), None);
    assert_eq!(read_unsigned(&chars("++1"), 255), None);
    assert_eq!(read_unsigned(&chars(" 1"), 255), None);
    assert_eq!(read_unsigned(&chars("1 "), 255), None);
    assert_eq!(read_unsigned(&chars("1a"), 255), None);
    assert_eq!(read_unsigned(&chars("\u{661}"), 255), None);
    assert_eq!(read_unsigned(&chars("9"), 5), None);
    assert_eq!(read_unsigned(&chars("0"), 0), Some(0));
    assert_eq!(
        read_unsigned(&chars("18446744073709551615"), u64::MAX),
        Some(u64::MAX)
    );
    assert_eq!(read_unsigned(&chars("18446744073709551616"), u64::MAX), None);
    assert_eq!(read_unsigned(&chars("99999999999999999999999"), u64::MAX), None);
}

#[test]
fn signed_numbers_are_read_from_decimal() {
    assert_eq!(read_signed(&chars("0"), -32768, 32767), Some(0));
    assert_eq!(read_signed(&chars("-0"), -32768, 32767), Some(0));
    assert_eq!(read_signed(&chars("-32768"), -32768, 32767), Some(-32768));
    assert_eq!(read_signed(&chars("-32769"), -32768, 32767), None);
    assert_eq!(read_signed(&chars("32767"), -32768, 32767), Some(32767));
    assert_eq!(read_signed(&chars("32768"), -32768, 32767), None);
    assert_eq!(read_signed(&chars("+12"), -32768, 32767), Some(12));
    assert_eq!(read_signed(&chars("-"), -32768, 32767), None);
    assert_eq!(read_signed(&chars(""), -32768, 32767), None);
    assert_eq!(read_signed(&chars("--1"), -32768, 32767), None);
    assert_eq!(read_signed(&chars("1-"), -32768, 32767), None);
    assert_eq!(read_signed(&chars("7"), 5, 10), Some(7));
    assert_eq!(read_signed(&chars("4"), 5, 10), None);
    assert_eq!(read_signed(&chars("0"), 5, 10), None);
    assert_eq!(read_signed(&chars("-7"), -10, -5), Some(-7));
    assert_eq!(read_signed(&chars("7"), -10, -5), None);
    assert_eq!(read_signed(&chars("1"), 2, 1), None);
    assert_eq!(
        read_signed(&chars("-9223372036854775808"), i64::MIN, i64::MAX),
        Some(i64::MIN)
    );
    assert_eq!(
        read_signed(&chars("9223372036854775807"), i64::MIN, i64::MAX),
        Some(i64::MAX)
    );
    assert_eq!(
        read_signed(&chars("9223372036854775808"), i64::MIN, i64::MAX),
        None
    );
    assert_eq!(
        read_signed(&chars("-9223372036854775809"), i64::MIN, i64::MAX),
        None
    );
}

#[test]
fn reading_a_numeral_gives_the_number_back() {
    for n in [0u64, 1, 9, 10, 99, 100, 65535, 4294967295, u64::MAX] {
        assert_eq!(read_unsigned(&chars(&numeral(n)), u64::MAX), Some(n));
    }
    for n in [i64::MIN, -32768, -10, -1, 0, 1, 10, 32767, i64::MAX] {
        assert_eq!(
            read_signed(&chars(&signed_numeral(n)), i64::MIN, i64::MAX),
            Some(n)
        );
    }
}

#[test]
fn patterns_are_found_from_the_left() {
    let text = chars("abcabc");
    assert!(matches_at(&text, &chars("bc"), 1));
    assert!(!matches_at(&text, &chars("bc"), 2));
    assert!(!matches_at(&text, &chars("bc"), 5));
    assert!(!matches_at(&text, &chars("bc"), 60));
    assert!(matches_at(&text, &[], 6));
    assert!(!matches_at(&text, &[], 7));
    assert_eq!(find(&text, &chars("bc"), 0), Some(1));
    assert_eq!(find(&text, &chars("bc"), 1), Some(1));
    assert_eq!(find(&text, &chars("bc"), 2), Some(4));
    assert_eq!(find(&text, &chars("bc"), 5), None);
    assert_eq!(find(&text, &chars("bc"), 100), None);
    assert_eq!(find(&text, &chars("abcabcd"), 0), None);
    assert_eq!(find(&text, &chars("abcabc"), 0), Some(0));
    assert_eq!(find(&text, &[], 6), Some(6));
    assert_eq!(find(&[], &chars("a"), 0), None);
}

#[test]
fn a_text_is_split_at_each_separator() {
    assert_eq!(split_chars(&chars("a, b, c"), &chars(", ")), rows(&["a", "b", "c"]));
    assert_eq!(split_chars(&chars("abc"), &chars(", ")), rows(&["abc"]));
    assert_eq!(split_chars(&chars(""), &chars(", ")), rows(&[""]));
    assert_eq!(split_chars(&chars(", "), &chars(", ")), rows(&["", ""]));
    assert_eq!(split_chars(&chars(", a, "), &chars(", ")), rows(&["", "a", ""]));
    assert_eq!(split_chars(&chars("aaa"), &chars("aa")), rows(&["", "a"]));
    assert_eq!(split_chars(&chars("a//b//c"), &chars("//")), rows(&["a", "b", "c"]));
    assert_eq!(split_chars(&chars("a///b"), &chars("//")), rows(&["a", "/b"]));
    assert_eq!(split_chars(&chars("abc"), &[]), rows(&["abc"]));
    assert_eq!(split_chars(&[], &[]), rows(&[""]));
    for (text, sep) in [("a, b, c", ", "), ("", "x"), ("xx", "x"), ("aaa", "aa"), ("k: v: w", ": ")] {
        let expected: Vec<Vec<char>> = text.split(sep).map(|piece| chars(piece)).collect();
        assert_eq!(split_chars(&chars(text), &chars(sep)), expected);
    }
}

#[test]
fn parts_are_joined_with_a_separator() {
    assert_eq!(join_chars(&rows(&["a", "b", "c"]), &chars(", ")), chars("a, b, c"));
    assert_eq!(join_chars(&rows(&["a"]), &chars(", ")), chars("a"));
    assert_eq!(join_chars(&rows(&[]), &chars(", ")), chars(""));
    assert_eq!(join_chars(&rows(&["", ""]), &chars(",")), chars(","));
    assert_eq!(concat_chars(&rows(&["a", "b", "c"]), 0), chars("abc"));
    assert_eq!(concat_chars(&rows(&["a", "b", "c"]), 1), chars("bc"));
    assert_eq!(concat_chars(&rows(&["a", "b", "c"]), 3), chars(""));
}

#[test]
fn padding_and_then_space_are_taken_off_the_end() {
    assert_eq!(payload_len(&chars("abc")), 3);
    assert_eq!(payload_len(&chars("abc\0\0\0")), 3);
    assert_eq!(payload_len(&chars("abc\r\n\0\0")), 3);
    assert_eq!(payload_len(&chars("abc \t\u{a0}\u{3000}")), 3);
    assert_eq!(payload_len(&chars("abc\0 ")), 4);
    assert_eq!(payload_len(&chars("abc \0 \0")), 5);
    assert_eq!(payload_len(&chars(" a b ")), 4);
    assert_eq!(payload_len(&chars("\0\0")), 0);
    assert_eq!(payload_len(&chars(" \0")), 0);
    assert_eq!(payload_len(&chars("")), 0);
    for text in ["x \0", "x\0 \0 ", " \u{2028}\0", "a\u{200b}", "a\u{85}\u{1680}\u{2000}\u{200a}\u{2029}\u{202f}\u{205f}"] {
        let expected = text.trim_end_matches(char::from(0)).trim_end().chars().count();
        assert_eq!(payload_len(&chars(text)), expected, "{:?}", text);
    }
}

#[test]
fn white_space_is_what_the_standard_library_calls_so() {
    for code in 0..0x3100u32 {
        if let Some(c) = char::from_u32(code) {
            assert_eq!(space(c), c.is_whitespace(), "{:x}", code);
        }
    }
    assert!(!space('\u{feff}'));
    assert!(!space('\u{10ffff}'));
}
