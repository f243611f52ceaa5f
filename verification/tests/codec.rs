//! Tests for the frame codec helpers: byte-stuffing, CRC16 and MIFARE
//! Classic block addressing.

use uem_reader::helpers::{byte_stuff, crc16, crc16_ex, get_absolute_block_address, unbyte_stuff};

#[test]
fn stuff_passes_plain_bytes_through() {
    let data = vec![0x00, 0x01, 0x7F, 0xFC];
    assert_eq!(byte_stuff(&data), data);
}

#[test]
fn stuff_escapes_reserved_bytes() {
    let data = vec![0x01, 0xFD, 0xFE, 0xFF];
    assert_eq!(
        byte_stuff(&data),
        vec![0x01, 0xFF, 0x02, 0xFF, 0x01, 0xFF, 0x00]
    );
}

#[test]
fn stuff_of_empty_is_empty() {
    assert_eq!(byte_stuff(&vec![]), Vec::<u8>::new());
}

#[test]
fn stuffed_stream_never_contains_delimiters() {
    let mut data = Vec::new();
    for b in 0..=255u8 {
        data.push(b);
    }
    let stuffed = byte_stuff(&data);
    for b in &stuffed {
        assert_ne!(*b, 0xFD);
        assert_ne!(*b, 0xFE);
    }
}

#[test]
fn unstuff_round_trip_all_bytes() {
    let mut data = Vec::new();
    for b in 0..=255u8 {
        data.push(b);
    }
    assert_eq!(unbyte_stuff(&byte_stuff(&data)), Some(data));
}

#[test]
fn unstuff_round_trip_empty() {
    assert_eq!(unbyte_stuff(&byte_stuff(&vec![])), Some(vec![]));
}

#[test]
fn unstuff_inverts_escape_pairs() {
    assert_eq!(
        unbyte_stuff(&vec![0xFF, 0x02, 0x10, 0xFF, 0x00]),
        Some(vec![0xFD, 0x10, 0xFF])
    );
}

#[test]
fn unstuff_rejects_dangling_escape() {
    assert_eq!(unbyte_stuff(&vec![0xFF]), None);
    assert_eq!(unbyte_stuff(&vec![0x01, 0x02, 0xFF]), None);
}

#[test]
fn crc16_of_empty_buffer() {
    assert_eq!(crc16(&vec![]), vec![0x00, 0x00]);
}

#[test]
fn crc16_known_value() {
    // Body of the reader's own beep frame: mode 0x00, sequence 0x32,
    // payload [0x05, 0x01]; the device checksums it as F9 A0.
    assert_eq!(crc16(&vec![0x00, 0x32, 0x05, 0x01]), vec![0xF9, 0xA0]);
}

#[test]
fn crc16_detects_single_bit_flip() {
    let data = vec![0x00, 0x32, 0x05, 0x01];
    let fsc = crc16(&data);
    for i in 0..data.len() {
        for bit in 0..8 {
            let mut flipped = data.clone();
            flipped[i] ^= 1 << bit;
            assert_ne!(crc16(&flipped), fsc);
        }
    }
}

#[test]
fn crc16_ex_covers_sub_range() {
    let buf = vec![0xAA, 0x00, 0x32, 0x05, 0x01, 0xBB];
    assert_eq!(crc16_ex(&buf, 1, 4), vec![0xF9, 0xA0]);
}

#[test]
fn absolute_block_small_sectors() {
    assert_eq!(get_absolute_block_address(0, 0), Some(0));
    assert_eq!(get_absolute_block_address(1, 1), Some(5));
    assert_eq!(get_absolute_block_address(31, 3), Some(127));
}

#[test]
fn absolute_block_large_sectors() {
    assert_eq!(get_absolute_block_address(32, 0), Some(128));
    assert_eq!(get_absolute_block_address(32, 15), Some(143));
    assert_eq!(get_absolute_block_address(39, 15), Some(255));
}

#[test]
fn absolute_block_rejects_out_of_range() {
    assert_eq!(get_absolute_block_address(0, 4), None);
    assert_eq!(get_absolute_block_address(31, 4), None);
    assert_eq!(get_absolute_block_address(32, 16), None);
    assert_eq!(get_absolute_block_address(40, 0), None);
    assert_eq!(get_absolute_block_address(255, 0), None);
}
