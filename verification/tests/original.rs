use digit_codes::{convert, parse_decimal, Decimal, Digit};

#[test]
fn parse_decimal_test() {
    assert_eq!(
        parse_decimal("42.35").unwrap(),
        Decimal {
            digits: vec![Digit::Four, Digit::Two],
            digits_fractional: vec![Digit::Three, Digit::Five],
        }
    );
}

#[test]
fn format_decimal_test() {
    let number = Decimal {
        digits: vec![Digit::Four, Digit::Four],
        digits_fractional: vec![Digit::Five, Digit::One],
    };
    assert_eq!(
        convert(&number),
        (
            "4 4 . 5 1".into(),
            "0100 0100 . 0101 0001".into(),
            "0100 0100 . 1011 0001".into(),
            "0111 0111 . 1000 0100".into()
        )
    );
}
