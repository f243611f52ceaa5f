//! Tests for the transaction layer: frame building, response parsing and
//! the decision logic around one write/read exchange.

use uem_reader::errors::{UemError, UemInternalError};
use uem_reader::reader::{parse_response, prepare_command, prepare_send, transact_outcome};

#[test]
fn prepare_command_builds_known_frame() {
    // The reader's beep frame as captured from the device protocol.
    let mut counter: u8 = 0x32;
    let frame = prepare_command(&mut counter, &[0x05, 0x01]);
    assert_eq!(frame, vec![0xFD, 0x00, 0x32, 0x05, 0x01, 0xF9, 0xA0, 0xFE]);
    assert_eq!(counter, 0x33);
}

#[test]
fn prepare_command_stuffs_reserved_payload_bytes() {
    let mut counter: u8 = 0x00;
    let frame = prepare_command(&mut counter, &[0xFD]);
    // Frame interior: mode 0x00, seq 0x00, escaped payload, checksum.
    assert_eq!(frame[0], 0xFD);
    assert_eq!(*frame.last().unwrap(), 0xFE);
    assert_eq!(&frame[1..5], &[0x00, 0x00, 0xFF, 0x02]);
    // Nothing between the delimiters may be a raw delimiter byte.
    for b in &frame[1..frame.len() - 1] {
        assert_ne!(*b, 0xFD);
        assert_ne!(*b, 0xFE);
    }
}

#[test]
fn sequence_counter_wraps_to_zero() {
    let mut counter: u8 = 0xFF;
    let frame = prepare_command(&mut counter, &[0x05, 0x01]);
    assert_eq!(frame[2], 0xFF);
    assert_eq!(counter, 0x00);
}

#[test]
fn sequence_counter_returns_after_256_commands() {
    let mut counter: u8 = 0x07;
    for _ in 0..256 {
        prepare_command(&mut counter, &[0x05, 0x01]);
    }
    assert_eq!(counter, 0x07);
}

#[test]
fn parse_response_round_trips_prepared_frame() {
    let payload = vec![0x05, 0x00, 0xAB, 0xFD, 0xFE, 0xFF];
    let mut counter: u8 = 0x11;
    let frame = prepare_command(&mut counter, &payload);
    assert_eq!(parse_response(&frame), Ok(payload));
}

#[test]
fn parse_response_rejects_bad_first_delimiter() {
    let mut counter: u8 = 0x00;
    let mut frame = prepare_command(&mut counter, &[0x05, 0x00]);
    frame[0] = 0x00;
    assert_eq!(
        parse_response(&frame),
        Err(UemError::ReaderUnsuccessful(UemInternalError::Protocol, None))
    );
}

#[test]
fn parse_response_rejects_bad_last_delimiter() {
    let mut counter: u8 = 0x00;
    let mut frame = prepare_command(&mut counter, &[0x05, 0x00]);
    let last = frame.len() - 1;
    frame[last] = 0x00;
    assert_eq!(
        parse_response(&frame),
        Err(UemError::ReaderUnsuccessful(UemInternalError::Protocol, None))
    );
}

#[test]
fn parse_response_rejects_corrupted_body() {
    let mut counter: u8 = 0x00;
    let mut frame = prepare_command(&mut counter, &[0x05, 0x00, 0x42]);
    // Flip one payload bit inside the frame.
    frame[4] ^= 0x01;
    assert_eq!(
        parse_response(&frame),
        Err(UemError::ReaderUnsuccessful(UemInternalError::Crc, None))
    );
}

#[test]
fn parse_response_rejects_truncated_buffer() {
    assert_eq!(
        parse_response(&vec![0xFD, 0xFE]),
        Err(UemError::ReaderUnsuccessful(UemInternalError::Protocol, None))
    );
    assert_eq!(
        parse_response(&vec![]),
        Err(UemError::ReaderUnsuccessful(UemInternalError::Protocol, None))
    );
}

#[test]
fn parse_response_rejects_dangling_escape() {
    assert_eq!(
        parse_response(&vec![0xFD, 0x00, 0x00, 0x05, 0x00, 0x66, 0x82, 0xFF]),
        Err(UemError::ReaderUnsuccessful(UemInternalError::Protocol, None))
    );
}

#[test]
fn prepare_send_requires_connection() {
    let mut counter: u8 = 0x05;
    assert_eq!(
        prepare_send(false, &mut counter, &[0x05, 0x01]),
        Err(UemError::ReaderNotConnected)
    );
    assert_eq!(counter, 0x05);
}

#[test]
fn prepare_send_rejects_empty_command() {
    let mut counter: u8 = 0x05;
    assert_eq!(
        prepare_send(true, &mut counter, &[]),
        Err(UemError::IncorrectParameter)
    );
    assert_eq!(counter, 0x05);
}

#[test]
fn prepare_send_frames_command() {
    let mut counter: u8 = 0x32;
    let frame = prepare_send(true, &mut counter, &[0x05, 0x01]).unwrap();
    assert_eq!(frame, vec![0xFD, 0x00, 0x32, 0x05, 0x01, 0xF9, 0xA0, 0xFE]);
    assert_eq!(counter, 0x33);
}

#[test]
fn transact_outcome_write_failure() {
    assert_eq!(
        transact_outcome(&[0x05, 0x01], false, None),
        Err(UemError::NotTransacted)
    );
}

#[test]
fn transact_outcome_read_failure() {
    assert_eq!(
        transact_outcome(&[0x05, 0x01], true, None),
        Err(UemError::ReaderResponseFailure)
    );
}

#[test]
fn transact_outcome_short_read() {
    assert_eq!(
        transact_outcome(&[0x05, 0x01], true, Some(vec![0xFD, 0x00, 0x00, 0x00, 0x00, 0xFE])),
        Err(UemError::ReaderResponseFailure)
    );
}

#[test]
fn transact_outcome_wrong_opcode_echo() {
    let mut dev: u8 = 0x00;
    let frame = prepare_command(&mut dev, &[0x07, 0x00]);
    assert_eq!(
        transact_outcome(&[0x05, 0x01], true, Some(frame)),
        Err(UemError::ReaderIncorrectResponse)
    );
}

#[test]
fn transact_outcome_decodes_device_error() {
    let mut dev: u8 = 0x00;
    let frame = prepare_command(&mut dev, &[0x05, 0xFE]);
    assert_eq!(
        transact_outcome(&[0x05, 0x01], true, Some(frame)),
        Err(UemError::ReaderUnsuccessful(UemInternalError::Crc, None))
    );
}

#[test]
fn transact_outcome_keeps_diagnostic_bytes() {
    let mut dev: u8 = 0x00;
    let frame = prepare_command(&mut dev, &[0x05, 0xFF, 0xAA, 0xBB]);
    assert_eq!(
        transact_outcome(&[0x05, 0x01], true, Some(frame)),
        Err(UemError::ReaderUnsuccessful(
            UemInternalError::NoTag,
            Some(vec![0xAA, 0xBB])
        ))
    );
}

#[test]
fn transact_outcome_returns_data_bytes() {
    let mut dev: u8 = 0x00;
    let frame = prepare_command(&mut dev, &[0x64, 0x00, 1, 2, 3, 4, 5, 6]);
    assert_eq!(
        transact_outcome(&[0x64], true, Some(frame)),
        Ok(vec![1, 2, 3, 4, 5, 6])
    );
}
