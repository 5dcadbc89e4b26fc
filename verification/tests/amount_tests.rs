use sous::parse_amount;

#[test]
fn whole_amounts_parse_to_thousandths() {
    assert_eq!(parse_amount("1"), Some(1000));
    assert_eq!(parse_amount("0"), Some(0));
    assert_eq!(parse_amount("42"), Some(42000));
    assert_eq!(parse_amount("999999999999999"), Some(999999999999999000));
}

#[test]
fn fractional_amounts_parse_to_thousandths() {
    assert_eq!(parse_amount("1.5"), Some(1500));
    assert_eq!(parse_amount("0.5"), Some(500));
    assert_eq!(parse_amount("2.25"), Some(2250));
    assert_eq!(parse_amount("3.125"), Some(3125));
    assert_eq!(parse_amount("1.0"), Some(1000));
}

#[test]
fn extra_fractional_digits_are_truncated() {
    assert_eq!(parse_amount("0.3333333333333333"), Some(333));
    assert_eq!(parse_amount("1.9999"), Some(1999));
}

#[test]
fn ill_formed_amounts_are_rejected() {
    assert_eq!(parse_amount(""), None);
    assert_eq!(parse_amount("."), None);
    assert_eq!(parse_amount("1."), None);
    assert_eq!(parse_amount(".5"), None);
    assert_eq!(parse_amount("-1"), None);
    assert_eq!(parse_amount("1e3"), None);
    assert_eq!(parse_amount("1.2.3"), None);
    assert_eq!(parse_amount("one"), None);
    assert_eq!(parse_amount("1 "), None);
    // A whole part of more than fifteen digits is out of range.
    assert_eq!(parse_amount("1000000000000000"), None);
}
