use query_menu::text::parse_u64;
use query_menu::text::trim_str;

#[test]
fn trim_removes_surrounding_whitespace() {
    assert_eq!(trim_str("  hello \n"), "hello");
    assert_eq!(trim_str("\t a b \r\n"), "a b");
}

#[test]
fn trim_leaves_clean_text_alone() {
    assert_eq!(trim_str("hello"), "hello");
}

#[test]
fn trim_of_blank_text_is_empty() {
    assert_eq!(trim_str("   "), "");
    assert_eq!(trim_str(""), "");
}

#[test]
fn trim_removes_unicode_whitespace() {
    assert_eq!(trim_str("\u{a0}x\u{3000}"), "x");
}

#[test]
fn trim_keeps_inner_whitespace() {
    assert_eq!(trim_str(" a  b "), "a  b");
}

#[test]
fn parses_plain_numbers() {
    assert_eq!(parse_u64("0"), Some(0));
    assert_eq!(parse_u64("42"), Some(42));
    assert_eq!(parse_u64("007"), Some(7));
}

#[test]
fn parses_a_leading_plus_sign() {
    assert_eq!(parse_u64("+3"), Some(3));
}

#[test]
fn rejects_text_that_is_not_a_number() {
    assert_eq!(parse_u64(""), None);
    assert_eq!(parse_u64("+"), None);
    assert_eq!(parse_u64("-1"), None);
    assert_eq!(parse_u64("1a"), None);
    assert_eq!(parse_u64("1 "), None);
    assert_eq!(parse_u64("1.5"), None);
}

#[test]
fn parses_up_to_the_largest_value() {
    assert_eq!(parse_u64("18446744073709551615"), Some(u64::MAX));
}

#[test]
fn rejects_values_that_overflow() {
    assert_eq!(parse_u64("18446744073709551616"), None);
    assert_eq!(parse_u64("99999999999999999999999999"), None);
}

#[test]
fn agrees_with_the_standard_parser() {
    let cases = ["0", "17", "+8", "007", " 1", "1 ", "", "+", "abc",
        "18446744073709551615", "18446744073709551616"];
    for case in cases {
        assert_eq!(parse_u64(case), case.parse::<u64>().ok(), "case {:?}", case);
    }
}
