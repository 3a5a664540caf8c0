use mrp_discount::money::{parse_amount, Money, MAX_UNITS};

#[test]
fn parses_two_decimal_amount() {
    assert_eq!(parse_amount("130.00"), Some(Money { units: 130_000_000 }));
}

#[test]
fn parses_rate_like_amount() {
    assert_eq!(parse_amount("0.75"), Some(Money { units: 750_000 }));
}

#[test]
fn parses_whole_number() {
    assert_eq!(parse_amount("150"), Some(Money { units: 150_000_000 }));
}

#[test]
fn parses_zero() {
    assert_eq!(parse_amount("0"), Some(Money { units: 0 }));
}

#[test]
fn parses_smallest_step() {
    assert_eq!(parse_amount("0.0001"), Some(Money { units: 100 }));
}

#[test]
fn parses_four_fraction_digits() {
    assert_eq!(parse_amount("12.3456"), Some(Money { units: 12_345_600 }));
}

#[test]
fn parses_leading_zeros() {
    assert_eq!(parse_amount("00042.5"), Some(Money { units: 42_500_000 }));
}

#[test]
fn refuses_empty_string() {
    assert_eq!(parse_amount(""), None);
}

#[test]
fn refuses_letters() {
    assert_eq!(parse_amount("abc"), None);
}

#[test]
fn refuses_two_dots() {
    assert_eq!(parse_amount("1.2.3"), None);
}

#[test]
fn refuses_trailing_dot() {
    assert_eq!(parse_amount("12."), None);
}

#[test]
fn refuses_leading_dot() {
    assert_eq!(parse_amount(".5"), None);
}

#[test]
fn refuses_sign() {
    assert_eq!(parse_amount("-5"), None);
}

#[test]
fn refuses_five_fraction_digits() {
    assert_eq!(parse_amount("1.23456"), None);
}

#[test]
fn refuses_comma() {
    assert_eq!(parse_amount("1,00"), None);
}

#[test]
fn refuses_spaces() {
    assert_eq!(parse_amount(" 1"), None);
}

#[test]
fn refuses_digit_then_letter() {
    assert_eq!(parse_amount("12a"), None);
}

#[test]
fn accepts_largest_amount() {
    assert_eq!(parse_amount("100000000000"), Some(Money { units: MAX_UNITS }));
}

#[test]
fn refuses_just_above_largest_amount() {
    assert_eq!(parse_amount("100000000001"), None);
    assert_eq!(parse_amount("100000000000.01"), None);
}

#[test]
fn accepts_just_below_largest_amount() {
    assert_eq!(
        parse_amount("99999999999.9999"),
        Some(Money { units: 99_999_999_999_999_900 })
    );
}
