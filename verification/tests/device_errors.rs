//! Tests for the device error code space: decoding is total and one to one
//! over the mapped codes.

use uem_reader::errors::UemInternalError;

#[test]
fn decode_known_codes() {
    assert_eq!(UemInternalError::from_byte(0xFF), UemInternalError::NoTag);
    assert_eq!(UemInternalError::from_byte(0xFE), UemInternalError::Crc);
    assert_eq!(UemInternalError::from_byte(0xF9), UemInternalError::Protocol);
    assert_eq!(UemInternalError::from_byte(0xB0), UemInternalError::MifareClassicNac0);
    assert_eq!(UemInternalError::from_byte(0xA5), UemInternalError::MifarePlusEv1Tmac);
    assert_eq!(UemInternalError::from_byte(0x9B), UemInternalError::Crc16);
    assert_eq!(UemInternalError::from_byte(0x81), UemInternalError::Temperature);
    assert_eq!(UemInternalError::from_byte(0x80), UemInternalError::Unknown);
}

#[test]
fn decode_unmapped_codes_to_unknown() {
    // Holes inside the code space and everything below it.
    assert_eq!(UemInternalError::from_byte(0xFD), UemInternalError::Unknown);
    assert_eq!(UemInternalError::from_byte(0xF2), UemInternalError::Unknown);
    assert_eq!(UemInternalError::from_byte(0x9A), UemInternalError::Unknown);
    assert_eq!(UemInternalError::from_byte(0x00), UemInternalError::Unknown);
    assert_eq!(UemInternalError::from_byte(0x7F), UemInternalError::Unknown);
}

#[test]
fn decode_is_total_and_stable() {
    for code in 0..=255u8 {
        let first = UemInternalError::from_byte(code);
        let again = UemInternalError::from_byte(code);
        assert_eq!(first, again);
    }
}

#[test]
fn mapped_codes_round_trip() {
    // Every named code decodes back from its own byte; bytes that decode
    // to Unknown are exactly those outside the mapped space.
    let mut mapped = 0;
    for code in 0..=255u8 {
        let err = UemInternalError::from_byte(code);
        if err != UemInternalError::Unknown || code == 0x80 {
            assert_eq!(err.to_byte(), code);
            mapped += 1;
        }
    }
    assert_eq!(mapped, 79);
}
