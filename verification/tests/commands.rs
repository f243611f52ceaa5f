//! Tests for the command encoders and response decoders.

use uem_reader::card::UemCardIso14443A;
use uem_reader::commands::cards::mifare::classic::UemCommandsCardsMifareClassic;
use uem_reader::commands::cards::{UemActivateParameters, UemCommandsCards};
use uem_reader::commands::reader::{UemColor, UemCommandsReader};
use uem_reader::errors::UemError;

#[test]
fn beep_request_bytes() {
    assert_eq!(UemCommandsReader::beep_request(3), Ok(vec![0x05, 0x03]));
    assert_eq!(UemCommandsReader::beep_request(255), Ok(vec![0x05, 0xFF]));
}

#[test]
fn beep_request_rejects_zero_count() {
    assert_eq!(
        UemCommandsReader::beep_request(0),
        Err(UemError::IncorrectParameter)
    );
}

#[test]
fn led_request_bytes() {
    assert_eq!(
        UemCommandsReader::led_request(3, UemColor::Green, UemColor::Yellow),
        vec![0x07, 0b010, 0x03, 0b011]
    );
    assert_eq!(
        UemCommandsReader::led_request(1, UemColor::Off, UemColor::White),
        vec![0x07, 0b000, 0x01, 0b111]
    );
}

#[test]
fn power_radio_request_bytes() {
    assert_eq!(UemCommandsReader::power_radio_request(true), vec![0x10]);
    assert_eq!(
        UemCommandsReader::power_radio_request(false),
        vec![0x04, 0x80, 0x01]
    );
}

#[test]
fn radio_off_on_request_bytes() {
    assert_eq!(
        UemCommandsReader::radio_off_on_request(10),
        vec![0x05, 0x0A, 0x00]
    );
    assert_eq!(
        UemCommandsReader::radio_off_on_request(0x1234),
        vec![0x05, 0x34, 0x12]
    );
    assert_eq!(
        UemCommandsReader::radio_off_on_request(0),
        vec![0x05, 0x00, 0x00]
    );
}

#[test]
fn version_and_serial_request_bytes() {
    assert_eq!(UemCommandsReader::version_request(), vec![0x64]);
    assert_eq!(UemCommandsReader::serial_request(), vec![0x22]);
}

#[test]
fn read_decode_accepts_only_whole_blocks() {
    let block: Vec<u8> = (0..16).collect();
    assert_eq!(
        UemCommandsCardsMifareClassic::read_decode(block.clone()),
        Ok(block)
    );
    assert_eq!(
        UemCommandsCardsMifareClassic::read_decode(vec![0x00; 15]),
        Err(UemError::ReaderIncorrectResponse)
    );
    assert_eq!(
        UemCommandsCardsMifareClassic::read_decode(vec![0x00; 17]),
        Err(UemError::ReaderIncorrectResponse)
    );
    assert_eq!(
        UemCommandsCardsMifareClassic::read_decode(vec![]),
        Err(UemError::ReaderIncorrectResponse)
    );
}

#[test]
fn activate_a_request_default_parameters() {
    let p = UemActivateParameters::default();
    // 106 kbps both ways, 10 ms nibbles packed, T=CL disabled (inverted
    // polarity: bit 7 set), CID 0.
    assert_eq!(
        UemCommandsCards::activate_a_request(&p),
        vec![0x75, 0x00, 0xAA, 0x80]
    );
}

#[test]
fn activate_a_request_packs_parameters() {
    let mut p = UemActivateParameters::default();
    p.baudrate_card_reader = uem_reader::card::UemCardBaudrates::Baud424kbps;
    p.baudrate_reader_card = uem_reader::card::UemCardBaudrates::Baud212kbps;
    p.radio_off_period = 0x12;
    p.pause_after_radio_on = 0x34;
    p.switch_to_tcl = true;
    p.tcl_cid = 0x1F;
    // Baud bits 10 << 2 | 01; nibbles truncated to 2 and 4; T=CL enabled
    // clears bit 7; CID masked to its low nibble.
    assert_eq!(
        UemCommandsCards::activate_a_request(&p),
        vec![0x75, 0b1001, 0x24, 0x0F]
    );
}

#[test]
fn activate_b_request_selects_type_b() {
    let p = UemActivateParameters::default();
    // Top nibble 0b0001 selects type B; T=CL polarity is not inverted,
    // AFI 0, one time slot.
    assert_eq!(
        UemCommandsCards::activate_b_request(&p),
        vec![0x75, 0x10, 0xAA, 0x00, 0x00, 0x01]
    );
}

#[test]
fn activate_b_request_packs_parameters() {
    let mut p = UemActivateParameters::default();
    p.switch_to_tcl = true;
    p.btype_afi = 0x42;
    p.btype_use_ext_atqb = true;
    p.btype_time_slots = 0x0F;
    assert_eq!(
        UemCommandsCards::activate_b_request(&p),
        vec![0x75, 0x10, 0xAA, 0x80, 0x42, 0b0001_0111]
    );
}

#[test]
fn activate_a_decode_without_ats() {
    // atq = [0x04, 0x00], sak = 0x08, uid_len = 4, uid = 11 22 33 44,
    // nothing after the UID: the ATS stays empty.
    let res = vec![0x04, 0x00, 0x08, 0x04, 0x11, 0x22, 0x33, 0x44];
    let card = UemCommandsCards::activate_a_decode(&res).unwrap();
    assert_eq!(card.atq, vec![0x04, 0x00]);
    assert_eq!(card.sak, 0x08);
    assert_eq!(card.uid, vec![0x11, 0x22, 0x33, 0x44]);
    assert_eq!(card.ats, Vec::<u8>::new());
}

#[test]
fn activate_a_decode_with_ats() {
    // After the UID the next byte is the ATS length; the ATS follows it.
    let res = vec![0x04, 0x00, 0x28, 0x04, 0x11, 0x22, 0x33, 0x44, 0x02, 0xAA, 0xBB];
    let card = UemCommandsCards::activate_a_decode(&res).unwrap();
    assert_eq!(card.uid, vec![0x11, 0x22, 0x33, 0x44]);
    assert_eq!(card.ats, vec![0xAA, 0xBB]);
}

#[test]
fn activate_a_decode_rejects_truncated_ats() {
    // The ATS length byte promises two bytes but only one follows.
    let res = vec![0x04, 0x00, 0x28, 0x04, 0x11, 0x22, 0x33, 0x44, 0x02, 0xAA];
    assert_eq!(
        UemCommandsCards::activate_a_decode(&res),
        Err(UemError::ReaderIncorrectResponse)
    );
}

#[test]
fn activate_a_decode_rejects_short_response() {
    let res = vec![0x04, 0x00, 0x08, 0x04, 0x11, 0x22, 0x33];
    assert_eq!(
        UemCommandsCards::activate_a_decode(&res),
        Err(UemError::ReaderIncorrectResponse)
    );
}

#[test]
fn activate_a_decode_rejects_truncated_uid() {
    // uid_len says 7 but only 4 UID bytes follow.
    let res = vec![0x04, 0x00, 0x08, 0x07, 0x11, 0x22, 0x33, 0x44];
    assert_eq!(
        UemCommandsCards::activate_a_decode(&res),
        Err(UemError::ReaderIncorrectResponse)
    );
}

#[test]
fn activate_b_decode_fixed_offsets() {
    let mut res = vec![0x05, 0x0C];
    // ATQB block of 12 bytes; PUPI, application data and protocol info sit
    // at offsets 3, 7 and 11 of the full response buffer.
    res.extend((0..12).map(|i| 0x50 + i));
    let card = UemCommandsCards::activate_b_decode(&res).unwrap();
    assert_eq!(card.mbli, 0x05);
    assert_eq!(card.atq, (0x50..0x5C).collect::<Vec<u8>>());
    assert_eq!(card.pupi, vec![0x51, 0x52, 0x53, 0x54]);
    assert_eq!(card.app_data, vec![0x55, 0x56, 0x57, 0x58]);
    assert_eq!(card.prot_info, vec![0x59, 0x5A, 0x5B]);
}

#[test]
fn activate_b_decode_rejects_short_atqb() {
    assert_eq!(
        UemCommandsCards::activate_b_decode(&vec![0x05, 0x0B, 0, 0, 0, 0, 0, 0, 0, 0, 0, 0, 0]),
        Err(UemError::ReaderIncorrectResponse)
    );
    assert_eq!(
        UemCommandsCards::activate_b_decode(&vec![0x05]),
        Err(UemError::ReaderIncorrectResponse)
    );
}

fn card_with_uid(uid: Vec<u8>) -> UemCardIso14443A {
    UemCardIso14443A {
        atq: vec![0x04, 0x00],
        sak: 0x08,
        uid,
        ats: vec![],
    }
}

#[test]
fn authenticate_request_uses_whole_short_uid() {
    let card = card_with_uid(vec![0x11, 0x22, 0x33, 0x44]);
    let req =
        UemCommandsCardsMifareClassic::authenticate_request(0x60, &card, &[0xAA; 6], 1).unwrap();
    assert_eq!(
        req,
        vec![0x14, 0x60, 0x11, 0x22, 0x33, 0x44, 0xAA, 0xAA, 0xAA, 0xAA, 0xAA, 0xAA, 0x04]
    );
}

#[test]
fn authenticate_request_uses_uid_tail() {
    // A 7-byte UID: only the trailing 4 bytes reach the wire, in order.
    let card = card_with_uid(vec![0x01, 0x02, 0x03, 0x11, 0x22, 0x33, 0x44]);
    let req =
        UemCommandsCardsMifareClassic::authenticate_request(0x61, &card, &[0xFF; 6], 2).unwrap();
    assert_eq!(
        req,
        vec![0x14, 0x61, 0x11, 0x22, 0x33, 0x44, 0xFF, 0xFF, 0xFF, 0xFF, 0xFF, 0xFF, 0x08]
    );
}

#[test]
fn authenticate_request_uses_tail_of_ten_byte_uid() {
    let card = card_with_uid(vec![0x01, 0x02, 0x03, 0x04, 0x05, 0x06, 0x11, 0x22, 0x33, 0x44]);
    let req =
        UemCommandsCardsMifareClassic::authenticate_request(0x60, &card, &[0x00; 6], 39).unwrap();
    assert_eq!(
        req,
        vec![0x14, 0x60, 0x11, 0x22, 0x33, 0x44, 0x00, 0x00, 0x00, 0x00, 0x00, 0x00, 0xF0]
    );
}

#[test]
fn authenticate_request_rejects_bad_sector() {
    let card = card_with_uid(vec![0x11, 0x22, 0x33, 0x44]);
    assert_eq!(
        UemCommandsCardsMifareClassic::authenticate_request(0x60, &card, &[0xFF; 6], 40),
        Err(UemError::IncorrectParameter)
    );
}

#[test]
fn read_request_bytes() {
    assert_eq!(
        UemCommandsCardsMifareClassic::read_request(1, 1),
        Ok(vec![0x19, 0x05])
    );
    assert_eq!(
        UemCommandsCardsMifareClassic::read_request(32, 0),
        Ok(vec![0x19, 0x80])
    );
    assert_eq!(
        UemCommandsCardsMifareClassic::read_request(0, 4),
        Err(UemError::IncorrectParameter)
    );
}

#[test]
fn write_request_bytes() {
    let data: Vec<u8> = (0..16).collect();
    let mut expected = vec![0x1A, 0x05];
    expected.extend(&data);
    assert_eq!(
        UemCommandsCardsMifareClassic::write_request(&data, 1, 1),
        Ok(expected)
    );
}

#[test]
fn write_request_rejects_wrong_length() {
    assert_eq!(
        UemCommandsCardsMifareClassic::write_request(&vec![0x00; 15], 1, 1),
        Err(UemError::IncorrectParameter)
    );
    assert_eq!(
        UemCommandsCardsMifareClassic::write_request(&vec![0x00; 17], 1, 1),
        Err(UemError::IncorrectParameter)
    );
}

#[test]
fn default_activation_parameters() {
    let p = UemActivateParameters::default();
    assert_eq!(p.radio_off_period, 10);
    assert_eq!(p.pause_after_radio_on, 10);
    assert!(!p.switch_to_tcl);
    assert_eq!(p.tcl_cid, 0x00);
    assert_eq!(p.btype_afi, 0x00);
    assert!(!p.btype_use_ext_atqb);
    assert_eq!(p.btype_time_slots, 1);
}
