//! Commands for MIFARE Classic cards: authentication and 16-byte block
//! reads and writes, addressed by sector and block.

use crate::card::UemCardIso14443A;
use crate::errors::UemError;
use crate::helpers::{absolute_block_spec, get_absolute_block_address};
use crate::reader::{UemReaderInternalTrait, UemResult, UemResultVec};
use vstd::prelude::*;

verus! {

/// The anticollision identifier that authentication sends: the last four
/// UID bytes in original order, or the whole UID when it is shorter.
pub open spec fn uid_tail_spec(uid: Seq<u8>) -> Seq<u8> {
    if uid.len() <= 4 {
        uid
    } else {
        uid.skip(uid.len() - 4)
    }
}

/// The request payload of a MIFARE Classic authentication: key selector
/// `0x60` (key A) or `0x61` (key B), the UID tail, the 6-byte key, and the
/// absolute address of the sector's first block.
pub open spec fn authenticate_request_spec(
    key_code: u8,
    uid: Seq<u8>,
    key: Seq<u8>,
    block_addr: u8,
) -> Seq<u8> {
    ((seq![0x14u8, key_code] + uid_tail_spec(uid)) + key) + seq![block_addr]
}

/// The request payload that reads one block.
pub open spec fn read_request_spec(block_addr: u8) -> Seq<u8> {
    seq![0x19u8, block_addr]
}

/// The request payload that writes one block.
pub open spec fn write_request_spec(block_addr: u8, data: Seq<u8>) -> Seq<u8> {
    seq![0x1Au8, block_addr] + data
}

/// Namespace for commands that interact with MIFARE Classic cards.
pub struct UemCommandsCardsMifareClassic;

impl UemCommandsCardsMifareClassic {
    /// Build an authentication request for the sector's first block, with
    /// `key_code` selecting key A (`0x60`) or key B (`0x61`).
    pub fn authenticate_request(
        key_code: u8,
        card: &UemCardIso14443A,
        key: &[u8; 6],
        sector: u8,
    ) -> (r: Result<Vec<u8>, UemError>)
        ensures
            sector >= 40 ==> r == Err::<Vec<u8>, UemError>(UemError::IncorrectParameter),
            sector < 40 ==> (r matches Ok(req) && absolute_block_spec(sector, 0) matches Some(addr)
                && req@ == authenticate_request_spec(key_code, card.uid@, key@, addr)),
    {
        let addr = match get_absolute_block_address(sector, 0) {
            Some(addr) => addr,
            None => {
                return Err(UemError::IncorrectParameter);
            },
        };
        let mut req: Vec<u8> = Vec::new();
        req.push(0x14);
        req.push(key_code);
        let uid_len = card.uid.len();
        let start = if uid_len <= 4 {
            0
        } else {
            uid_len - 4
        };
        let mut i = start;
        while i < uid_len
            invariant
                start <= i <= uid_len == card.uid@.len(),
                start == if uid_len <= 4 {
                    0int
                } else {
                    uid_len - 4
                },
                req@ == seq![0x14u8, key_code] + card.uid@.subrange(start as int, i as int),
            decreases uid_len - i,
        {
            req.push(card.uid[i]);
            proof {
                assert(card.uid@.subrange(start as int, i + 1) =~= card.uid@.subrange(
                    start as int,
                    i as int,
                ).push(card.uid@[i as int]));
            }
            i = i + 1;
        }
        proof {
            assert(card.uid@.subrange(start as int, uid_len as int) =~= uid_tail_spec(card.uid@));
        }
        let key_slice = key.as_slice();
        let mut k: usize = 0;
        while k < 6
            invariant
                k <= 6,
                key_slice@ == key@,
                key@.len() == 6,
                req@ == (seq![0x14u8, key_code] + uid_tail_spec(card.uid@)) + key@.take(k as int),
            decreases 6 - k,
        {
            req.push(*vstd::slice::slice_index_get(key_slice, k));
            proof {
                assert(key@.take(k + 1) =~= key@.take(k as int).push(key@[k as int]));
                assert(req@ =~= (seq![0x14u8, key_code] + uid_tail_spec(card.uid@)) + key@.take(
                    k + 1,
                ));
            }
            k = k + 1;
        }
        req.push(addr);
        proof {
            assert(key@.take(6) =~= key@);
            assert(req@ =~= authenticate_request_spec(key_code, card.uid@, key@, addr));
        }
        Ok(req)
    }

    /// Authenticate a sector of a MIFARE Classic card with key A.
    pub fn authenticate_key_a<R: UemReaderInternalTrait>(
        reader: &mut R,
        card: &UemCardIso14443A,
        key: &[u8; 6],
        sector: u8,
    ) -> (r: UemResult)
        ensures
            sector >= 40 ==> r == Err::<(), UemError>(UemError::IncorrectParameter),
    {
        let req = match Self::authenticate_request(0x60, card, key, sector) {
            Ok(req) => req,
            Err(e) => {
                return Err(e);
            },
        };
        match reader.send(req.as_slice()) {
            Ok(_) => Ok(()),
            Err(e) => Err(e),
        }
    }

    /// Authenticate a sector of a MIFARE Classic card with key B.
    pub fn authenticate_key_b<R: UemReaderInternalTrait>(
        reader: &mut R,
        card: &UemCardIso14443A,
        key: &[u8; 6],
        sector: u8,
    ) -> (r: UemResult)
        ensures
            sector >= 40 ==> r == Err::<(), UemError>(UemError::IncorrectParameter),
    {
        let req = match Self::authenticate_request(0x61, card, key, sector) {
            Ok(req) => req,
            Err(e) => {
                return Err(e);
            },
        };
        match reader.send(req.as_slice()) {
            Ok(_) => Ok(()),
            Err(e) => Err(e),
        }
    }

    /// Build the request that reads `block` of `sector`.
    pub fn read_request(sector: u8, block: u8) -> (r: Result<Vec<u8>, UemError>)
        ensures
            absolute_block_spec(sector, block) is None ==> r == Err::<Vec<u8>, UemError>(
                UemError::IncorrectParameter,
            ),
            absolute_block_spec(sector, block) matches Some(addr) ==> (r matches Ok(req) && req@
                == read_request_spec(addr)),
    {
        let addr = match get_absolute_block_address(sector, block) {
            Some(addr) => addr,
            None => {
                return Err(UemError::IncorrectParameter);
            },
        };
        let mut req: Vec<u8> = Vec::new();
        req.push(0x19);
        req.push(addr);
        proof {
            assert(req@ =~= read_request_spec(addr));
        }
        Ok(req)
    }

    /// Decode the response of a block read: exactly 16 data bytes are a
    /// block, returned unchanged; any other length is a shape violation.
    pub fn read_decode(res: Vec<u8>) -> (r: UemResultVec)
        ensures
            res@.len() == 16 ==> (r matches Ok(data) && data@ == res@),
            res@.len() != 16 ==> r == Err::<Vec<u8>, UemError>(UemError::ReaderIncorrectResponse),
    {
        if res.len() != 16 {
            return Err(UemError::ReaderIncorrectResponse);
        }
        Ok(res)
    }

    /// Read one 16-byte block of a MIFARE Classic card.
    pub fn read<R: UemReaderInternalTrait>(reader: &mut R, sector: u8, block: u8) -> (r:
        UemResultVec)
        ensures
            absolute_block_spec(sector, block) is None ==> r == Err::<Vec<u8>, UemError>(
                UemError::IncorrectParameter,
            ),
            r matches Ok(data) ==> data@.len() == 16,
    {
        let req = match Self::read_request(sector, block) {
            Ok(req) => req,
            Err(e) => {
                return Err(e);
            },
        };
        let res = match reader.send(req.as_slice()) {
            Ok(res) => res,
            Err(e) => {
                return Err(e);
            },
        };
        Self::read_decode(res)
    }

    /// Build the request that writes 16 bytes of `data` to `block` of
    /// `sector`.
    pub fn write_request(data: &Vec<u8>, sector: u8, block: u8) -> (r: Result<Vec<u8>, UemError>)
        ensures
            data@.len() != 16 ==> r == Err::<Vec<u8>, UemError>(UemError::IncorrectParameter),
            data@.len() == 16 && absolute_block_spec(sector, block) is None ==> r == Err::<
                Vec<u8>,
                UemError,
            >(UemError::IncorrectParameter),
            data@.len() == 16 ==> (absolute_block_spec(sector, block) matches Some(addr) ==> (
            r matches Ok(req) && req@ == write_request_spec(addr, data@))),
    {
        if data.len() != 16 {
            return Err(UemError::IncorrectParameter);
        }
        let addr = match get_absolute_block_address(sector, block) {
            Some(addr) => addr,
            None => {
                return Err(UemError::IncorrectParameter);
            },
        };
        let mut req: Vec<u8> = Vec::new();
        req.push(0x1A);
        req.push(addr);
        let mut i: usize = 0;
        while i < data.len()
            invariant
                i <= data@.len(),
                req@ == seq![0x1Au8, addr] + data@.take(i as int),
            decreases data@.len() - i,
        {
            req.push(data[i]);
            proof {
                assert(req@ =~= seq![0x1Au8, addr] + data@.take(i + 1));
            }
            i = i + 1;
        }
        proof {
            assert(data@.take(data@.len() as int) =~= data@);
        }
        Ok(req)
    }

    /// Write one 16-byte block of a MIFARE Classic card.
    pub fn write<R: UemReaderInternalTrait>(
        reader: &mut R,
        data: Vec<u8>,
        sector: u8,
        block: u8,
    ) -> (r: UemResult)
        ensures
            data@.len() != 16 ==> r == Err::<(), UemError>(UemError::IncorrectParameter),
            data@.len() == 16 && absolute_block_spec(sector, block) is None ==> r == Err::<
                (),
                UemError,
            >(UemError::IncorrectParameter),
    {
        let req = match Self::write_request(&data, sector, block) {
            Ok(req) => req,
            Err(e) => {
                return Err(e);
            },
        };
        match reader.send(req.as_slice()) {
            Ok(_) => Ok(()),
            Err(e) => Err(e),
        }
    }
}

} // verus!
