use anevicon::config::{parse_non_zero_usize, NonZeroUsizeError};

#[test]
fn parses_valid_non_zero_usize() {
    // Check that ordinary values are parsed correctly
    assert_eq!(parse_non_zero_usize("1"), Ok(1));
    assert_eq!(parse_non_zero_usize("3"), Ok(3));
    assert_eq!(parse_non_zero_usize("26655"), Ok(26655));
    assert_eq!(parse_non_zero_usize("+75"), Ok(75));
}

#[test]
fn parses_invalid_non_zero_usize() {
    let panic_if_invalid = |string: &str| {
        if let Ok(_) = parse_non_zero_usize(string) {
            panic!("Parses invalid formatted usize correctly");
        }
    };

    // Invalid numbers must produce the invalid format error
    panic_if_invalid("   ");

    panic_if_invalid("abc5653odr!");
    panic_if_invalid("6485&02hde");

    panic_if_invalid("-565642");
    panic_if_invalid(&"2178".repeat(50));

    // Check that the zero value is not allowed
    assert_eq!(parse_non_zero_usize("0"), Err(NonZeroUsizeError::ZeroValue));
}

#[test]
fn invalid_texts_give_the_format_error() {
    for text in ["", "+", "-", " 5", "5 ", "1_000", "\u{663}"] {
        assert!(matches!(
            parse_non_zero_usize(text),
            Err(NonZeroUsizeError::InvalidFormat(_))
        ));
    }
    assert!(matches!(
        parse_non_zero_usize("18446744073709551616"),
        Err(NonZeroUsizeError::InvalidFormat(_))
    ));
}

#[test]
fn zero_with_sign_or_leading_zeros_is_zero() {
    assert_eq!(parse_non_zero_usize("+0"), Err(NonZeroUsizeError::ZeroValue));
    assert_eq!(parse_non_zero_usize("000"), Err(NonZeroUsizeError::ZeroValue));
    assert_eq!(parse_non_zero_usize("007"), Ok(7));
}

#[test]
fn largest_value_is_accepted() {
    assert_eq!(
        parse_non_zero_usize("18446744073709551615"),
        Ok(18446744073709551615usize)
    );
}
