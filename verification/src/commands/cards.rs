//! Card activation commands for ISO14443 type A and type B.

pub mod mifare;

use crate::card::{baudrate_bits_spec, UemCardBaudrates, UemCardIso14443A, UemCardIso14443B};
use crate::errors::UemError;
use crate::helpers::vec_subrange;
use crate::reader::UemReaderInternalTrait;
use vstd::prelude::*;

verus! {

/// Library result containing an ISO14443A card
pub type UemResultCardA = Result<UemCardIso14443A, UemError>;

/// Library result containing an ISO14443B card
pub type UemResultCardB = Result<UemCardIso14443B, UemError>;

#[derive(Debug, Clone, Copy)]
/// Card activation parameters, usable for both ISO14443A and ISO14443B
/// activation.
pub struct UemActivateParameters {
    /// Required baud rate of the card -> reader channel
    pub baudrate_card_reader: UemCardBaudrates,
    /// Required baud rate of the reader -> card channel
    pub baudrate_reader_card: UemCardBaudrates,
    /// Time in milliseconds to turn the radio off before requesting the
    /// next card; only the low 4 bits reach the wire
    pub radio_off_period: u8,
    /// Time in milliseconds that cards get to power up after the radio
    /// field has been turned on; only the low 4 bits reach the wire
    pub pause_after_radio_on: u8,
    /// Switch the card to the T=CL protocol (ISO14443-4) automatically
    pub switch_to_tcl: bool,
    /// Card identifier (CID) to use once switched to T=CL
    pub tcl_cid: u8,
    /// For ISO14443B cards - application family identifier
    pub btype_afi: u8,
    /// For ISO14443B cards - request extended answer-to-query data
    pub btype_use_ext_atqb: bool,
    /// For ISO14443B cards - number of time slots to use
    pub btype_time_slots: u8,
}

impl Default for UemActivateParameters {
    /// 106 kbps in both directions, 10 ms of radio pause either way, no
    /// T=CL switch, AFI 0 and a single time slot.
    fn default() -> (p: UemActivateParameters)
        ensures
            p == (UemActivateParameters {
                baudrate_card_reader: UemCardBaudrates::Baud106kbps,
                baudrate_reader_card: UemCardBaudrates::Baud106kbps,
                radio_off_period: 10,
                pause_after_radio_on: 10,
                switch_to_tcl: false,
                tcl_cid: 0x00,
                btype_afi: 0x00,
                btype_use_ext_atqb: false,
                btype_time_slots: 1,
            }),
    {
        UemActivateParameters {
            baudrate_card_reader: UemCardBaudrates::Baud106kbps,
            baudrate_reader_card: UemCardBaudrates::Baud106kbps,
            radio_off_period: 10,
            pause_after_radio_on: 10,
            switch_to_tcl: false,
            tcl_cid: 0x00,
            btype_afi: 0x00,
            btype_use_ext_atqb: false,
            btype_time_slots: 1,
        }
    }
}

/// The byte that packs the two channel baud rates: card->reader bits above
/// reader->card bits, two bits each.
pub open spec fn baud_byte_spec(p: UemActivateParameters) -> u8 {
    (baudrate_bits_spec(p.baudrate_card_reader) << 2) | baudrate_bits_spec(p.baudrate_reader_card)
}

/// The byte that packs the radio-off period and the post-radio-on pause,
/// four bits each; both values are truncated to their low 4 bits.
pub open spec fn rf_reset_byte_spec(p: UemActivateParameters) -> u8 {
    ((p.radio_off_period & 0x0F) << 4) | (p.pause_after_radio_on & 0x0F)
}

/// The T=CL byte of a type A activation. The polarity of bit 7 is
/// inverted: a set bit means T=CL is disabled.
pub open spec fn tcl_byte_a_spec(p: UemActivateParameters) -> u8 {
    ((if p.switch_to_tcl {
        0u8
    } else {
        1u8
    }) << 7) | (p.tcl_cid & 0x0F)
}

/// The T=CL byte of a type B activation. Unlike type A the polarity is not
/// inverted; the asymmetry follows the device's observed behavior.
pub open spec fn tcl_byte_b_spec(p: UemActivateParameters) -> u8 {
    ((if p.switch_to_tcl {
        1u8
    } else {
        0u8
    }) << 7) | (p.tcl_cid & 0x0F)
}

/// The type B parameter byte: extended-ATQB flag above the time slot
/// count, truncated to its low 3 bits.
pub open spec fn b_param_byte_spec(p: UemActivateParameters) -> u8 {
    ((if p.btype_use_ext_atqb {
        1u8
    } else {
        0u8
    }) << 4) | (p.btype_time_slots & 0x07)
}

/// The request payload of a type A activation.
pub open spec fn activate_a_request_spec(p: UemActivateParameters) -> Seq<u8> {
    seq![0x75u8, baud_byte_spec(p), rf_reset_byte_spec(p), tcl_byte_a_spec(p)]
}

/// The request payload of a type B activation: the top nibble of the baud
/// byte selects type B.
pub open spec fn activate_b_request_spec(p: UemActivateParameters) -> Seq<u8> {
    seq![
        0x75u8,
        0b0001_0000u8 | baud_byte_spec(p),
        rf_reset_byte_spec(p),
        tcl_byte_b_spec(p),
        p.btype_afi,
        b_param_byte_spec(p),
    ]
}

/// How a type A activation response decodes: `atq[0:2]`, `sak[2]`,
/// `uid_len[3]`, then the UID; a response that ends right after the UID has
/// an empty ATS, otherwise the next byte is the ATS length and the ATS
/// follows it for that many bytes. A response too short for any of its
/// fields is a shape violation.
pub open spec fn activate_a_decode_matches_spec(res: Seq<u8>, r: UemResultCardA) -> bool {
    if res.len() < 8 {
        r == Err::<UemCardIso14443A, UemError>(UemError::ReaderIncorrectResponse)
    } else {
        let uid_len = res[3] as int;
        if res.len() < 4 + uid_len {
            r == Err::<UemCardIso14443A, UemError>(UemError::ReaderIncorrectResponse)
        } else if res.len() == 4 + uid_len {
            r matches Ok(card) && card.atq@ == res.subrange(0, 2) && card.sak == res[2]
                && card.uid@ == res.subrange(4, 4 + uid_len) && card.ats@ == Seq::<u8>::empty()
        } else {
            let ats_len = res[4 + uid_len] as int;
            if res.len() < 5 + uid_len + ats_len {
                r == Err::<UemCardIso14443A, UemError>(UemError::ReaderIncorrectResponse)
            } else {
                r matches Ok(card) && card.atq@ == res.subrange(0, 2) && card.sak == res[2]
                    && card.uid@ == res.subrange(4, 4 + uid_len) && card.ats@ == res.subrange(
                    5 + uid_len,
                    5 + uid_len + ats_len,
                )
            }
        }
    }
}

/// How a type B activation response decodes: `mbli[0]`, `atqb_len[1]`,
/// then the full ATQB block, which must span at least 12 bytes; the PUPI,
/// application data and protocol info fields sit at fixed offsets of the
/// full response buffer.
pub open spec fn activate_b_decode_matches_spec(res: Seq<u8>, r: UemResultCardB) -> bool {
    if res.len() < 2 {
        r == Err::<UemCardIso14443B, UemError>(UemError::ReaderIncorrectResponse)
    } else {
        let atqb_len = res[1] as int;
        if atqb_len < 12 {
            r == Err::<UemCardIso14443B, UemError>(UemError::ReaderIncorrectResponse)
        } else if res.len() < 2 + atqb_len {
            r == Err::<UemCardIso14443B, UemError>(UemError::ReaderIncorrectResponse)
        } else {
            r matches Ok(card) && card.mbli == res[0] && card.atq@ == res.subrange(2, 2 + atqb_len)
                && card.pupi@ == res.subrange(3, 7) && card.app_data@ == res.subrange(7, 11)
                && card.prot_info@ == res.subrange(11, 14)
        }
    }
}

/// Namespace for commands that interact with cards.
pub struct UemCommandsCards;

impl UemCommandsCards {
    /// Build the type A activation request.
    pub fn activate_a_request(parameters: &UemActivateParameters) -> (req: Vec<u8>)
        ensures
            req@ == activate_a_request_spec(*parameters),
    {
        let type_baud: u8 = (parameters.baudrate_card_reader.bits() << 2)
            | parameters.baudrate_reader_card.bits();
        let rf_reset: u8 = ((parameters.radio_off_period & 0x0F) << 4) | (
        parameters.pause_after_radio_on & 0x0F);
        let tcl_bit: u8 = if parameters.switch_to_tcl {
            0
        } else {
            1
        };
        let disable_tcl_cid: u8 = (tcl_bit << 7) | (parameters.tcl_cid & 0x0F);
        let mut req: Vec<u8> = Vec::new();
        req.push(0x75);
        req.push(type_baud);
        req.push(rf_reset);
        req.push(disable_tcl_cid);
        proof {
            assert(req@ =~= activate_a_request_spec(*parameters));
        }
        req
    }

    /// Decode a type A activation response into a card object.
    pub fn activate_a_decode(res: &Vec<u8>) -> (r: UemResultCardA)
        ensures
            activate_a_decode_matches_spec(res@, r),
    {
        if res.len() < 8 {
            return Err(UemError::ReaderIncorrectResponse);
        }
        let uid_len = res[3] as usize;
        if res.len() < 4 + uid_len {
            return Err(UemError::ReaderIncorrectResponse);
        }
        let atq = vec_subrange(res, 0, 2);
        let sak = res[2];
        let uid = vec_subrange(res, 4, 4 + uid_len);
        if res.len() == 4 + uid_len {
            return Ok(UemCardIso14443A { atq, sak, uid, ats: Vec::new() });
        }
        let ats_len = res[4 + uid_len] as usize;
        if res.len() < 5 + uid_len + ats_len {
            return Err(UemError::ReaderIncorrectResponse);
        }
        let ats = vec_subrange(res, 5 + uid_len, 5 + uid_len + ats_len);
        Ok(UemCardIso14443A { atq, sak, uid, ats })
    }

    /// Activate an ISO14443A card in the field.
    pub fn activate_a<R: UemReaderInternalTrait>(
        reader: &mut R,
        parameters: &UemActivateParameters,
    ) -> (r: UemResultCardA)
        ensures
            r matches Ok(card) ==> card.wf(),
    {
        let req = Self::activate_a_request(parameters);
        let res = match reader.send(req.as_slice()) {
            Ok(res) => res,
            Err(e) => {
                return Err(e);
            },
        };
        Self::activate_a_decode(&res)
    }

    /// Build the type B activation request.
    pub fn activate_b_request(parameters: &UemActivateParameters) -> (req: Vec<u8>)
        ensures
            req@ == activate_b_request_spec(*parameters),
    {
        let type_baud: u8 = 0b0001_0000 | ((parameters.baudrate_card_reader.bits() << 2)
            | parameters.baudrate_reader_card.bits());
        let rf_reset: u8 = ((parameters.radio_off_period & 0x0F) << 4) | (
        parameters.pause_after_radio_on & 0x0F);
        let tcl_bit: u8 = if parameters.switch_to_tcl {
            1
        } else {
            0
        };
        let disable_tcl_cid: u8 = (tcl_bit << 7) | (parameters.tcl_cid & 0x0F);
        let ext_bit: u8 = if parameters.btype_use_ext_atqb {
            1
        } else {
            0
        };
        let param: u8 = (ext_bit << 4) | (parameters.btype_time_slots & 0x07);
        let mut req: Vec<u8> = Vec::new();
        req.push(0x75);
        req.push(type_baud);
        req.push(rf_reset);
        req.push(disable_tcl_cid);
        req.push(parameters.btype_afi);
        req.push(param);
        proof {
            assert(req@ =~= activate_b_request_spec(*parameters));
        }
        req
    }

    /// Decode a type B activation response into a card object.
    pub fn activate_b_decode(res: &Vec<u8>) -> (r: UemResultCardB)
        ensures
            activate_b_decode_matches_spec(res@, r),
    {
        if res.len() < 2 {
            return Err(UemError::ReaderIncorrectResponse);
        }
        let mbli = res[0];
        let atqb_len = res[1] as usize;
        if atqb_len < 12 {
            return Err(UemError::ReaderIncorrectResponse);
        }
        if res.len() < 2 + atqb_len {
            return Err(UemError::ReaderIncorrectResponse);
        }
        let atqb = vec_subrange(res, 2, 2 + atqb_len);
        let pupi = vec_subrange(res, 3, 7);
        let app_data = vec_subrange(res, 7, 11);
        let prot_info = vec_subrange(res, 11, 14);
        Ok(UemCardIso14443B { mbli, pupi, app_data, prot_info, atq: atqb })
    }

    /// Activate an ISO14443B card in the field.
    pub fn activate_b<R: UemReaderInternalTrait>(
        reader: &mut R,
        parameters: &UemActivateParameters,
    ) -> (r: UemResultCardB)
        ensures
            r matches Ok(card) ==> card.wf(),
    {
        let req = Self::activate_b_request(parameters);
        let res = match reader.send(req.as_slice()) {
            Ok(res) => res,
            Err(e) => {
                return Err(e);
            },
        };
        Self::activate_b_decode(&res)
    }
}

} // verus!
