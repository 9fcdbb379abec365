use digit_codes::{parse_decimal, process_line, ConvertError};

#[test]
fn batch_scenario_42_35() {
    assert_eq!(
        process_line("decimal 42.35").unwrap(),
        "4 2 . 3 5\t0100 0010 . 0011 0101\t0100 0010 . 0011 1011\t0111 0101 . 0110 1000"
    );
}

#[test]
fn batch_scenario_44_51() {
    assert_eq!(
        process_line("decimal 44.51").unwrap(),
        "4 4 . 5 1\t0100 0100 . 0101 0001\t0100 0100 . 1011 0001\t0111 0111 . 1000 0100"
    );
}

#[test]
fn batch_integer_only_has_no_separator_token() {
    let out = process_line("decimal 7").unwrap();
    assert!(!out.contains('.'));
    assert_eq!(out, "7\t0111\t1101\t1010");
}

#[test]
fn batch_accepts_each_encoding_as_source() {
    assert_eq!(process_line("bcd 0111").unwrap(), "7\t0111\t1101\t1010");
    assert_eq!(process_line("aiken 1101").unwrap(), "7\t0111\t1101\t1010");
    assert_eq!(process_line("stibitz 1010").unwrap(), "7\t0111\t1101\t1010");
}

#[test]
fn batch_invalid_digit_identifies_character() {
    let e = process_line("decimal 4a").unwrap_err();
    assert!(matches!(e, ConvertError::InvalidDigit { ch: 'a', pos: 1 }));
}

#[test]
fn batch_unknown_encoding() {
    let e = process_line("foo 5").unwrap_err();
    assert!(matches!(e, ConvertError::UnknownEncoding));
}

#[test]
fn batch_encoding_names_are_case_sensitive() {
    let e = process_line("Decimal 5").unwrap_err();
    assert!(matches!(e, ConvertError::UnknownEncoding));
}

#[test]
fn batch_single_token_is_malformed() {
    let e = process_line("decimal").unwrap_err();
    assert!(matches!(e, ConvertError::MalformedRecord));
}

#[test]
fn batch_empty_line_is_malformed() {
    let e = process_line("").unwrap_err();
    assert!(matches!(e, ConvertError::MalformedRecord));
}

#[test]
fn batch_invalid_codeword_names_token() {
    let e = process_line("bcd 1111").unwrap_err();
    assert!(matches!(e, ConvertError::InvalidCodeword { token } if token == "1111"));
}

#[test]
fn formatting_twice_yields_identical_output() {
    let n = parse_decimal("42.35").unwrap();
    assert_eq!(n.format_decimal(), n.format_decimal());
    assert_eq!(n.format_bcd(), n.format_bcd());
    assert_eq!(n.format_aiken(), n.format_aiken());
    assert_eq!(n.format_stibitz(), n.format_stibitz());
}
