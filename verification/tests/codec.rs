use digit_codes::codes::codeword;
use digit_codes::{
    parse_aiken, parse_bcd, parse_decimal, parse_stibitz, ConvertError, Decimal, Digit, Encoding,
};

fn all_digits() -> Vec<Digit> {
    vec![
        Digit::Zero,
        Digit::One,
        Digit::Two,
        Digit::Three,
        Digit::Four,
        Digit::Five,
        Digit::Six,
        Digit::Seven,
        Digit::Eight,
        Digit::Nine,
    ]
}

fn single(d: Digit) -> Decimal {
    Decimal { digits: vec![d], digits_fractional: vec![] }
}

#[test]
fn digit_values_are_their_indices() {
    for (i, d) in all_digits().into_iter().enumerate() {
        assert_eq!(d.value(), i);
    }
}

#[test]
fn digits_are_ordered_by_value() {
    let ds = all_digits();
    for w in ds.windows(2) {
        assert!(w[0] < w[1]);
    }
}

#[test]
fn digit_parse_char_accepts_digits_only() {
    assert_eq!(Digit::parse_char('7').unwrap(), Digit::Seven);
    let e = Digit::parse_char('a').unwrap_err();
    assert!(matches!(e, ConvertError::InvalidDigit { ch: 'a', pos: 0 }));
}

#[test]
fn bcd_round_trip_single_digit() {
    for d in all_digits() {
        let n = single(d);
        assert_eq!(parse_bcd(&n.format_bcd()).unwrap(), n);
    }
}

#[test]
fn aiken_round_trip_single_digit() {
    for d in all_digits() {
        let n = single(d);
        assert_eq!(parse_aiken(&n.format_aiken()).unwrap(), n);
    }
}

#[test]
fn stibitz_round_trip_single_digit() {
    for d in all_digits() {
        let n = single(d);
        assert_eq!(parse_stibitz(&n.format_stibitz()).unwrap(), n);
    }
}

#[test]
fn decimal_round_trip_single_digit() {
    for d in all_digits() {
        let n = single(d);
        assert_eq!(parse_decimal(&n.format_decimal()).unwrap(), n);
    }
}

#[test]
fn code_tables_fixed_entries() {
    assert_eq!(codeword(Encoding::Bcd, Digit::Five), "0101");
    assert_eq!(codeword(Encoding::Aiken, Digit::Five), "1011");
    assert_eq!(codeword(Encoding::Stibitz, Digit::Five), "1000");
    assert_eq!(codeword(Encoding::Bcd, Digit::Nine), "1001");
    assert_eq!(codeword(Encoding::Aiken, Digit::Nine), "1111");
    assert_eq!(codeword(Encoding::Stibitz, Digit::Nine), "1100");
}

#[test]
fn format_single_digit_five() {
    let n = single(Digit::Five);
    assert_eq!(n.format_decimal(), "5");
    assert_eq!(n.format_bcd(), "0101");
    assert_eq!(n.format_aiken(), "1011");
    assert_eq!(n.format_stibitz(), "1000");
}

#[test]
fn parse_bcd_multi_digit_with_fraction() {
    assert_eq!(
        parse_bcd("0100 0010 . 0011 0101").unwrap(),
        Decimal {
            digits: vec![Digit::Four, Digit::Two],
            digits_fractional: vec![Digit::Three, Digit::Five],
        }
    );
}

#[test]
fn parse_bcd_rejects_unused_pattern() {
    let e = parse_bcd("1010").unwrap_err();
    assert!(matches!(e, ConvertError::InvalidCodeword { token } if token == "1010"));
}

#[test]
fn parse_aiken_rejects_mid_range_pattern() {
    let e = parse_aiken("0101").unwrap_err();
    assert!(matches!(e, ConvertError::InvalidCodeword { token } if token == "0101"));
}

#[test]
fn parse_stibitz_rejects_out_of_range_pattern() {
    let e = parse_stibitz("0000").unwrap_err();
    assert!(matches!(e, ConvertError::InvalidCodeword { token } if token == "0000"));
}

#[test]
fn parse_code_rejects_second_separator() {
    let e = parse_bcd("0001 . 0010 . 0011").unwrap_err();
    assert!(matches!(e, ConvertError::InvalidCodeword { token } if token == "."));
}

#[test]
fn parse_code_rejects_short_token() {
    let e = parse_bcd("010").unwrap_err();
    assert!(matches!(e, ConvertError::InvalidCodeword { token } if token == "010"));
}

#[test]
fn parse_code_empty_input_is_empty_number() {
    assert_eq!(
        parse_bcd("").unwrap(),
        Decimal { digits: vec![], digits_fractional: vec![] }
    );
}

#[test]
fn parse_decimal_comma_separator_normalizes() {
    assert_eq!(parse_decimal("42,35").unwrap(), parse_decimal("42.35").unwrap());
}

#[test]
fn parse_decimal_second_separator_is_invalid() {
    let e = parse_decimal("4.2.3").unwrap_err();
    assert!(matches!(e, ConvertError::InvalidDigit { ch: '.', pos: 3 }));
}

#[test]
fn parse_decimal_reports_character_and_position() {
    let e = parse_decimal("4a").unwrap_err();
    assert!(matches!(e, ConvertError::InvalidDigit { ch: 'a', pos: 1 }));
}

#[test]
fn parse_decimal_empty_input_is_empty_number() {
    assert_eq!(
        parse_decimal("").unwrap(),
        Decimal { digits: vec![], digits_fractional: vec![] }
    );
}

#[test]
fn format_empty_number_is_empty() {
    let n = Decimal { digits: vec![], digits_fractional: vec![] };
    assert_eq!(n.format_decimal(), "");
    assert_eq!(n.format_bcd(), "");
}

#[test]
fn parse_then_format_decimal_normalizes_input() {
    let n = parse_decimal("42,35").unwrap();
    assert_eq!(n.format_decimal(), "4 2 . 3 5");
    let n = parse_decimal("7").unwrap();
    assert_eq!(n.format_decimal(), "7");
    let n = parse_decimal(".5").unwrap();
    assert_eq!(n.format_decimal(), ". 5");
}
