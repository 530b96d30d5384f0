use anevicon_config::length::{
    parse_length, PacketLengthError, MAX_PACKET_LENGTH, MIN_PACKET_LENGTH,
};

#[test]
fn the_range_is_one_to_sixty_five_thousand() {
    assert_eq!(MIN_PACKET_LENGTH, 1);
    assert_eq!(MAX_PACKET_LENGTH, 65000);
}

#[test]
fn lengths_in_range_are_read() {
    assert_eq!(parse_length("1"), Ok(1));
    assert_eq!(parse_length("2"), Ok(2));
    assert_eq!(parse_length("1024"), Ok(1024));
    assert_eq!(parse_length("64999"), Ok(64999));
    assert_eq!(parse_length("65000"), Ok(65000));
}

#[test]
fn a_sign_and_leading_zeros_are_read() {
    assert_eq!(parse_length("+5"), Ok(5));
    assert_eq!(parse_length("007"), Ok(7));
    assert_eq!(parse_length("+00065000"), Ok(65000));
    assert_eq!(parse_length("0000000000000000000000000000000000000000001"), Ok(1));
}

#[test]
fn lengths_below_the_range_underflow() {
    assert_eq!(parse_length("0"), Err(PacketLengthError::Underflow));
    assert_eq!(parse_length("+0"), Err(PacketLengthError::Underflow));
    assert_eq!(parse_length("000"), Err(PacketLengthError::Underflow));
}

#[test]
fn lengths_above_the_range_overflow() {
    assert_eq!(parse_length("65001"), Err(PacketLengthError::Overflow));
    assert_eq!(parse_length("100000"), Err(PacketLengthError::Overflow));
    assert_eq!(parse_length("4294967295"), Err(PacketLengthError::Overflow));
}

#[test]
fn other_texts_are_no_numbers() {
    for text in ["abc", "", "+", "-", "-1", "-0", " 5", "5 ", "5_000", "0x10", "1.5", "++1", "５"]
        .iter()
    {
        assert!(
            matches!(parse_length(text), Err(PacketLengthError::InvalidFormat(_))),
            "{:?}",
            text
        );
    }
}

#[test]
fn a_number_too_large_for_the_machine_is_no_number() {
    let parsed = parse_length("340282366920938463463374607431768211456");
    assert!(matches!(parsed, Err(PacketLengthError::InvalidFormat(_))));
    assert_eq!(parsed.unwrap_err().message(), "number too large to fit in target type");
}

#[test]
fn the_format_error_is_the_one_of_the_integer_parser() {
    let expected = "abc".parse::<usize>().unwrap_err();
    assert_eq!(parse_length("abc"), Err(PacketLengthError::InvalidFormat(expected)));
    let expected = "".parse::<usize>().unwrap_err();
    assert_eq!(parse_length(""), Err(PacketLengthError::InvalidFormat(expected)));
}

#[test]
fn length_errors_say_what_is_wrong() {
    assert_eq!(PacketLengthError::Overflow.message(), "Overflow occurred");
    assert_eq!(PacketLengthError::Underflow.message(), "Underflow occurred");
    assert_eq!(parse_length("abc").unwrap_err().message(), "invalid digit found in string");
    assert_eq!(parse_length("").unwrap_err().message(), "cannot parse integer from empty string");
    assert_eq!(parse_length("65001").unwrap_err().message(), "Overflow occurred");
    assert_eq!(parse_length("0").unwrap_err().message(), "Underflow occurred");
}
