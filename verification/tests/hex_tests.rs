use zerotrust::hex::{hex_encode, parse_hex_32, HexParseError};

#[test]
fn hex_encode_known_values() {
    assert_eq!(hex_encode(&[]), "");
    assert_eq!(hex_encode(&[0x00]), "00");
    assert_eq!(hex_encode(&[0x00, 0xff, 0x1a]), "00ff1a");
    assert_eq!(hex_encode(&[0xde, 0xad, 0xbe, 0xef]), "deadbeef");
}

#[test]
fn parse_hex_32_accepts_64_digits() {
    let s = "ab".repeat(32);
    let arr = parse_hex_32(&s).expect("64 hex digits must parse");
    assert_eq!(arr, [0xab; 32]);
}

#[test]
fn parse_hex_32_accepts_0x_prefix() {
    let s = format!("0x{}", "cd".repeat(32));
    let arr = parse_hex_32(&s).expect("prefixed hex must parse");
    assert_eq!(arr, [0xcd; 32]);
}

#[test]
fn parse_hex_32_accepts_uppercase() {
    let s = "AB".repeat(32);
    let arr = parse_hex_32(&s).expect("uppercase hex must parse");
    assert_eq!(arr, [0xab; 32]);
}

#[test]
fn parse_hex_32_rejects_wrong_length() {
    assert_eq!(parse_hex_32(&"ab".repeat(31)), Err(HexParseError::WrongLength));
    assert_eq!(parse_hex_32(&"ab".repeat(33)), Err(HexParseError::WrongLength));
    assert_eq!(parse_hex_32(""), Err(HexParseError::WrongLength));
}

#[test]
fn parse_hex_32_rejects_bad_digits() {
    let mut s = "ab".repeat(32);
    s.replace_range(10..11, "g");
    assert_eq!(parse_hex_32(&s), Err(HexParseError::Malformed));
    assert_eq!(parse_hex_32(&"a".repeat(63)), Err(HexParseError::Malformed));
}

#[test]
fn parse_hex_32_round_trips_encode() {
    let mut bytes = [0u8; 32];
    for (i, b) in bytes.iter_mut().enumerate() {
        *b = (7 * i + 3) as u8;
    }
    let s = hex_encode(&bytes);
    assert_eq!(parse_hex_32(&s), Ok(bytes));
}
