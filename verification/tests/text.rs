use pinout::decimal::parse_u64;
use pinout::decimal::push_decimal;
use pinout::text::char_text;
use pinout::text::char_to_ascii_upper;
use pinout::text::same_text;
use pinout::text::starts_with;
use pinout::text::to_ascii_upper;
use pinout::text::without_first;

#[test]
fn ascii_upper_case_leaves_other_characters() {
    assert_eq!(to_ascii_upper("vbat_sense-1"), "VBAT_SENSE-1");
    assert_eq!(to_ascii_upper("straße"), "STRAßE");
    assert_eq!(to_ascii_upper(""), "");
    assert_eq!(char_to_ascii_upper('a'), 'A');
    assert_eq!(char_to_ascii_upper('z'), 'Z');
    assert_eq!(char_to_ascii_upper('{'), '{');
    assert_eq!(char_to_ascii_upper('`'), '`');
    assert_eq!(char_to_ascii_upper('é'), 'é');
}

#[test]
fn texts_are_compared_by_their_characters() {
    assert!(same_text("abc", "abc"));
    assert!(!same_text("abc", "abd"));
    assert!(!same_text("abc", "ab"));
    assert!(same_text("", ""));
}

#[test]
fn prefixes_are_found() {
    assert!(starts_with("Net-(R1-Pad1)", "Net-("));
    assert!(!starts_with("Net-", "Net-("));
    assert!(!starts_with("net-(x)", "Net-("));
    assert!(starts_with("anything", ""));
    assert!(starts_with("/", "/"));
    assert!(!starts_with("", "/"));
    assert!(starts_with("ünï", "ün"));
}

#[test]
fn first_character_is_dropped() {
    assert_eq!(without_first("/RESET"), "RESET");
    assert_eq!(without_first("/"), "");
    assert_eq!(without_first("éa"), "a");
    assert_eq!(without_first(""), "");
}

#[test]
fn one_character_makes_a_text() {
    assert_eq!(char_text('x'), "x");
    assert_eq!(char_text('é'), "é");
}

#[test]
fn decimal_numbers_are_read() {
    assert_eq!(parse_u64("0"), Some(0));
    assert_eq!(parse_u64("26"), Some(26));
    assert_eq!(parse_u64("007"), Some(7));
    assert_eq!(parse_u64("+5"), Some(5));
    assert_eq!(parse_u64("18446744073709551615"), Some(u64::MAX));
}

#[test]
fn what_is_no_decimal_number_is_refused() {
    assert_eq!(parse_u64(""), None);
    assert_eq!(parse_u64("+"), None);
    assert_eq!(parse_u64("-1"), None);
    assert_eq!(parse_u64("12a"), None);
    assert_eq!(parse_u64("++1"), None);
    assert_eq!(parse_u64(" 1"), None);
    assert_eq!(parse_u64("18446744073709551616"), None);
    assert_eq!(parse_u64("99999999999999999999999"), None);
}

#[test]
fn decimal_numbers_are_read_as_the_standard_library_reads_them() {
    for text in ["0", "+0", "42", "+", "", "1_0", "18446744073709551615", "18446744073709551616"] {
        assert_eq!(parse_u64(text), text.parse::<u64>().ok());
    }
}

fn decimal(n: u64) -> String {
    let mut out = String::from("=");
    push_decimal(&mut out, n);
    out
}

#[test]
fn decimal_numbers_are_written() {
    assert_eq!(decimal(0), "=0");
    assert_eq!(decimal(9), "=9");
    assert_eq!(decimal(10), "=10");
    assert_eq!(decimal(26), "=26");
    assert_eq!(decimal(1000), "=1000");
    assert_eq!(decimal(u64::MAX), "=18446744073709551615");
}

#[test]
fn what_is_written_is_read_back() {
    for n in [0, 1, 9, 10, 99, 100, 12345, u64::MAX - 1, u64::MAX] {
        assert_eq!(parse_u64(&decimal(n)[1..]), Some(n));
    }
}
