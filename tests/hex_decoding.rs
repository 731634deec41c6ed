use eth_alive::hex::{parse_hex_to_u64, ParseError};

#[test]
fn test_hex_parsing_with_prefix() {
    // 0x10a = 266
    let input = "0x10a";
    let result = parse_hex_to_u64(input);
    assert_eq!(result.unwrap(), 266);
}

#[test]
fn test_hex_parsing_without_prefix() {
    // 10a = 266
    let input = "10a";
    let result = parse_hex_to_u64(input);
    assert_eq!(result.unwrap(), 266);
}

#[test]
fn test_hex_parsing_uppercase() {
    // 0x10A = 266
    let input = "0x10A";
    let result = parse_hex_to_u64(input);
    assert_eq!(result.unwrap(), 266);
}

#[test]
fn test_hex_parsing_zero() {
    let input = "0x0";
    let result = parse_hex_to_u64(input);
    assert_eq!(result.unwrap(), 0);
}

#[test]
fn test_invalid_hex() {
    let input = "0xZZZ"; // Not a hex number
    let result = parse_hex_to_u64(input);
    assert!(result.is_err());
}

#[test]
fn hex_upper_case_prefix() {
    assert_eq!(parse_hex_to_u64("0X1F"), Ok(31));
}

#[test]
fn hex_empty_inputs_fail() {
    assert_eq!(parse_hex_to_u64(""), Err(ParseError::Empty));
    assert_eq!(parse_hex_to_u64("0x"), Err(ParseError::Empty));
}

#[test]
fn hex_invalid_digit_kinds() {
    assert_eq!(parse_hex_to_u64("0xZZZ"), Err(ParseError::InvalidDigit));
    assert_eq!(parse_hex_to_u64("+1a"), Err(ParseError::InvalidDigit));
    assert_eq!(parse_hex_to_u64("-1"), Err(ParseError::InvalidDigit));
    assert_eq!(parse_hex_to_u64("0x0x1"), Err(ParseError::InvalidDigit));
    assert_eq!(parse_hex_to_u64("1 "), Err(ParseError::InvalidDigit));
}

#[test]
fn hex_largest_value_and_overflow() {
    assert_eq!(parse_hex_to_u64("0xffffffffffffffff"), Ok(u64::MAX));
    assert_eq!(parse_hex_to_u64("0x00000000000000000001"), Ok(1));
    assert_eq!(parse_hex_to_u64("0x10000000000000000"), Err(ParseError::Overflow));
}

#[test]
fn hex_mixed_case_digits() {
    assert_eq!(parse_hex_to_u64("0xAbCdEf"), Ok(0xabcdef));
    assert_eq!(parse_hex_to_u64("0x12d687"), Ok(1234567));
}
