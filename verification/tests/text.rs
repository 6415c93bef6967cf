use language_service::text::{
    bytes_eq, decimal_text, parse_usize, push_bytes, push_decimal, text_eq, IntParseError,
};

#[test]
fn decimal_numbers_are_parsed_as_the_standard_library_parses_them() {
    let texts: [&str; 12] = [
        "0", "7", "10", "+10", "007", "18446744073709551615", "18446744073709551616", "", "+",
        "-0", "1_000", " 1",
    ];
    for text in texts {
        let expected = text.parse::<usize>().ok();
        assert_eq!(expected, parse_usize(text.as_bytes()).ok(), "{:?}", text);
    }
}

#[test]
fn decimal_errors_have_a_kind_and_a_text() {
    assert_eq!(Err(IntParseError::Empty), parse_usize(b""));
    assert_eq!(Err(IntParseError::InvalidDigit), parse_usize(b"12 "));
    assert_eq!(Err(IntParseError::PosOverflow), parse_usize(b"184467440737095516150"));
    assert_eq!("cannot parse integer from empty string", IntParseError::Empty.to_string());
    assert_eq!("invalid digit found in string", IntParseError::InvalidDigit.to_string());
    assert_eq!(
        "number too large to fit in target type",
        IntParseError::PosOverflow.to_string()
    );
}

#[test]
fn an_overflow_before_a_bad_digit_is_an_overflow() {
    assert_eq!(
        Err(IntParseError::PosOverflow),
        parse_usize(b"99999999999999999999999999999x")
    );
    assert_eq!(Err(IntParseError::InvalidDigit), parse_usize(b"9x9999999999999999999999999999"));
}

#[test]
fn decimal_digits_read_back() {
    for number in [0usize, 1, 9, 10, 99, 100, 12345, usize::MAX] {
        let mut digits = Vec::new();
        push_decimal(&mut digits, number);
        assert_eq!(number.to_string().as_bytes(), &digits[..]);
        assert_eq!(Ok(number), parse_usize(&digits));
        assert_eq!(number.to_string(), decimal_text(number));
    }
}

#[test]
fn bytes_are_appended_and_compared() {
    let mut out = vec![1u8, 2];
    push_bytes(&mut out, &[3, 4, 5]);
    assert_eq!(vec![1u8, 2, 3, 4, 5], out);
    assert!(bytes_eq(&out, &[1, 2, 3, 4, 5]));
    assert!(!bytes_eq(&out, &[1, 2, 3, 4]));
    assert!(!bytes_eq(&out, &[1, 2, 3, 4, 6]));
    assert!(text_eq("abc", "abc"));
    assert!(!text_eq("abc", "abd"));
}
