use retro_templates::{HexError, HexU32};

#[test]
fn encode_human_pads_to_eight_digits() {
    assert_eq!(HexU32(0).encode_human(), "0x00000000");
    assert_eq!(HexU32(u32::MAX).encode_human(), "0xFFFFFFFF");
    assert_eq!(HexU32(0x1234_abcd).encode_human(), "0x1234ABCD");
    assert_eq!(HexU32(0xff).to_string(), "0x000000FF");
}

#[test]
fn encode_human_is_ten_characters() {
    for v in [0u32, 1, 15, 16, 0xdead_beef, u32::MAX] {
        let s = HexU32(v).encode_human();
        assert_eq!(s.len(), 10);
        assert!(s.starts_with("0x"));
        assert!(s[2..].chars().all(|c| c.is_ascii_digit() || ('A'..='F').contains(&c)));
    }
}

#[test]
fn human_and_compact_round_trip() {
    for v in [0u32, 1, 255, 0x8000_0000, 0xdead_beef, u32::MAX] {
        let h = HexU32(v);
        assert_eq!(HexU32::decode_str(&h.encode_human()), Ok(h));
        assert_eq!(HexU32::decode_u32(h.encode_compact()), h);
        assert_eq!(HexU32::decode_u64(h.encode_compact() as u64), Ok(h));
    }
}

#[test]
fn decode_rejects_bad_digits() {
    assert_eq!(HexU32::decode_str("0xZZZZZZZZ"), Err(HexError::InvalidDigit));
    assert_eq!(HexU32::decode_str("0x12G4"), Err(HexError::InvalidDigit));
}

#[test]
fn decode_requires_prefix() {
    assert_eq!(HexU32::decode_str("FF"), Err(HexError::MissingPrefix));
    assert_eq!(HexU32::decode_str("0XFF"), Err(HexError::MissingPrefix));
    assert_eq!(HexU32::decode_str(""), Err(HexError::MissingPrefix));
}

#[test]
fn decode_requires_digits() {
    assert_eq!(HexU32::decode_str("0x"), Err(HexError::NoDigits));
}

#[test]
fn decode_accepts_either_case() {
    assert_eq!(HexU32::decode_str("0xff"), Ok(HexU32(255)));
    assert_eq!(HexU32::decode_str("0xAbCd"), Ok(HexU32(0xabcd)));
    assert_eq!(HexU32::decode_str("0x0"), Ok(HexU32(0)));
}

#[test]
fn decode_rejects_values_over_32_bits() {
    assert_eq!(HexU32::decode_u64(1u64 << 32), Err(HexError::OutOfRange));
    assert_eq!(HexU32::decode_u128(1u128 << 32), Err(HexError::OutOfRange));
    assert_eq!(HexU32::decode_u128(u32::MAX as u128), Ok(HexU32(u32::MAX)));
    assert_eq!(HexU32::decode_str("0x100000000"), Err(HexError::TooManyDigits));
}

#[test]
fn decode_small_widths() {
    assert_eq!(HexU32::decode_u8(255), HexU32(255));
    assert_eq!(HexU32::decode_u16(0xffff), HexU32(0xffff));
}

#[test]
fn decode_takes_at_most_eight_digits() {
    assert_eq!(HexU32::decode_str("0x00000001"), Ok(HexU32(1)));
    assert_eq!(HexU32::decode_str("0xFFFFFFFF"), Ok(HexU32(u32::MAX)));
    assert_eq!(HexU32::decode_str("0x000000001"), Err(HexError::TooManyDigits));
    assert_eq!(HexU32::decode_str("0x0000000ZZ"), Err(HexError::TooManyDigits));
    assert_eq!(HexU32::decode_str("0x+FF"), Err(HexError::InvalidDigit));
}
