use telemetry_ingest::frame::DecodeError;
use telemetry_ingest::hex_line::{decode_hex, HexError};
use telemetry_ingest::line::decode_and_parse_frame;

#[test]
fn decodes_payload() {
    let bytes = decode_hex("0102FF").expect("decode should work");
    assert_eq!(bytes, vec![0x01, 0x02, 0xFF]);
}

#[test]
fn mixed_case_digits_decode() {
    assert_eq!(decode_hex("f9B4Ca").unwrap(), vec![0xF9, 0xB4, 0xCA]);
}

#[test]
fn empty_text_gives_no_bytes() {
    assert_eq!(decode_hex("").unwrap(), Vec::<u8>::new());
}

#[test]
fn odd_length_is_refused() {
    assert_eq!(decode_hex("123"), Err(HexError::OddLength));
    assert_eq!(decode_hex("0"), Err(HexError::OddLength));
}

#[test]
fn first_bad_character_is_reported() {
    assert_eq!(decode_hex("01g2"), Err(HexError::InvalidHexCharacter { c: 'g', index: 2 }));
    assert_eq!(decode_hex("0x12"), Err(HexError::InvalidHexCharacter { c: 'x', index: 1 }));
    assert_eq!(decode_hex("12 4"), Err(HexError::InvalidHexCharacter { c: ' ', index: 2 }));
}

#[test]
fn valid_text_gives_half_as_many_bytes() {
    for text in ["00", "abcd", "0123456789abcdefABCDEF"] {
        assert_eq!(decode_hex(text).unwrap().len() * 2, text.len());
    }
}

#[test]
fn line_decodes_to_reading() {
    let f = decode_and_parse_frame("FDF93380FC8AFD8057").unwrap();
    assert_eq!(f.latitude_microdeg, -34_000_000);
    assert_eq!(f.longitude_microdeg, -58_000_000);
    assert_eq!(f.battery_level, 87);
}

#[test]
fn ten_byte_example_line_is_refused_by_length() {
    assert_eq!(
        decode_and_parse_frame("FDEC02C0FC93B7000057").unwrap_err(),
        DecodeError::FrameLength { actual: 10 }
    );
}

#[test]
fn eight_byte_line_is_refused_by_length() {
    assert_eq!(
        decode_and_parse_frame("FDF93380FC8AFD80").unwrap_err(),
        DecodeError::FrameLength { actual: 8 }
    );
}

#[test]
fn bad_hex_line_is_a_hex_error() {
    assert_eq!(
        decode_and_parse_frame("FDF93380FC8AFD805").unwrap_err(),
        DecodeError::HexFormat(HexError::OddLength)
    );
    assert_eq!(
        decode_and_parse_frame("ZZF93380FC8AFD8057").unwrap_err(),
        DecodeError::HexFormat(HexError::InvalidHexCharacter { c: 'Z', index: 0 })
    );
}
