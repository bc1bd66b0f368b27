use dial_decisions::config::parse_id;
use dial_decisions::text::{
    char_in_class, push_decimal, push_signed_decimal, replace_commas, same_text,
    text_in_class, CharClass,
};

fn decimal_text(n: u64) -> String {
    let mut out = String::new();
    push_decimal(&mut out, n);
    out
}

fn signed_text(i: i64) -> String {
    let mut out = String::new();
    push_signed_decimal(&mut out, i);
    out
}

#[test]
fn decimal_numerals_match_the_standard_ones() {
    assert_eq!(decimal_text(0), "0");
    assert_eq!(decimal_text(7), "7");
    assert_eq!(decimal_text(10), "10");
    assert_eq!(decimal_text(1234567890), "1234567890");
    assert_eq!(decimal_text(u64::MAX), "18446744073709551615");
    for n in [9u64, 99, 100, 101, 65535, 4294967296] {
        assert_eq!(decimal_text(n), n.to_string());
    }
}

#[test]
fn signed_numerals_carry_a_minus_sign() {
    assert_eq!(signed_text(0), "0");
    assert_eq!(signed_text(-1), "-1");
    assert_eq!(signed_text(42), "42");
    assert_eq!(signed_text(-2147483648), "-2147483648");
    assert_eq!(signed_text(i64::MIN), "-9223372036854775808");
    assert_eq!(signed_text(i64::MAX), "9223372036854775807");
}

#[test]
fn numerals_are_appended_to_what_is_there() {
    let mut out = String::from("x=");
    push_decimal(&mut out, 12);
    out.push(';');
    push_signed_decimal(&mut out, -3);
    assert_eq!(out, "x=12;-3");
}

#[test]
fn commas_become_semicolons() {
    assert_eq!(replace_commas("White, non-Hispanic (i.e., Caucasian)"), "White; non-Hispanic (i.e.; Caucasian)");
    assert_eq!(replace_commas(""), "");
    assert_eq!(replace_commas(",,"), ";;");
    assert_eq!(replace_commas("né, là"), "né; là");
}

#[test]
fn same_text_compares_character_by_character() {
    assert!(same_text("dynamic", "dynamic"));
    assert!(!same_text("dynamic", "dynamiC"));
    assert!(!same_text("dynamic", "dynamics"));
    assert!(same_text("", ""));
}

#[test]
fn character_classes_follow_unicode() {
    assert!(char_in_class('5', CharClass::Numeric));
    assert!(!char_in_class('a', CharClass::Numeric));
    assert!(char_in_class('a', CharClass::Alphabetic));
    assert!(!char_in_class('5', CharClass::Alphabetic));
    assert!(char_in_class('a', CharClass::Alphanumeric));
    assert!(char_in_class('5', CharClass::Alphanumeric));
    assert!(!char_in_class('-', CharClass::Alphanumeric));
    assert!(char_in_class('٣', CharClass::Numeric));
    for digit in '0'..='9' {
        assert!(char_in_class(digit, CharClass::Numeric));
        assert!(char_in_class(digit, CharClass::Alphanumeric));
        assert!(!char_in_class(digit, CharClass::Alphabetic));
    }
    for letter in ('a'..='z').chain('A'..='Z') {
        assert!(char_in_class(letter, CharClass::Alphabetic));
        assert!(char_in_class(letter, CharClass::Alphanumeric));
        assert!(!char_in_class(letter, CharClass::Numeric));
    }
    assert!(char_in_class('é', CharClass::Alphabetic));
    assert!(!char_in_class(' ', CharClass::Alphanumeric));
    assert!(text_in_class("", CharClass::Numeric));
    assert!(text_in_class("0123", CharClass::Numeric));
    assert!(!text_in_class("01a3", CharClass::Numeric));
}

#[test]
fn participant_ids_are_read_as_decimal_numbers() {
    assert_eq!(parse_id("7"), Some(7));
    assert_eq!(parse_id("007"), Some(7));
    assert_eq!(parse_id("+7"), Some(7));
    assert_eq!(parse_id("0"), Some(0));
    assert_eq!(parse_id("1234"), Some(1234));
    assert_eq!(parse_id(""), None);
    assert_eq!(parse_id("+"), None);
    assert_eq!(parse_id("-7"), None);
    assert_eq!(parse_id("12a"), None);
    assert_eq!(parse_id(" 7"), None);
    assert_eq!(parse_id("٣"), None);
    assert_eq!(parse_id("99999999999999999999999999"), None);
    assert_eq!(parse_id(&usize::MAX.to_string()), Some(usize::MAX));
    for text in ["7", "+7", "", "+", "-7", "12a", "18446744073709551616", "000"] {
        assert_eq!(parse_id(text), text.parse::<usize>().ok());
    }
}
