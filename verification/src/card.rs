//! Card objects produced by the activation commands.

use vstd::prelude::*;

verus! {

#[derive(Debug, Clone, Copy, PartialEq, Eq, Structural, Default)]
/// Channel baud rates supported by the reader, two bits on the wire.
pub enum UemCardBaudrates {
    /// 106 kbps, the activation default
    #[default]
    Baud106kbps,
    /// 212 kbps
    Baud212kbps,
    /// 424 kbps
    Baud424kbps,
    /// 848 kbps
    Baud848kbps,
}

/// The two-bit wire encoding of a baud rate.
pub open spec fn baudrate_bits_spec(baudrate: UemCardBaudrates) -> u8 {
    match baudrate {
        UemCardBaudrates::Baud106kbps => 0b00,
        UemCardBaudrates::Baud212kbps => 0b01,
        UemCardBaudrates::Baud424kbps => 0b10,
        UemCardBaudrates::Baud848kbps => 0b11,
    }
}

impl UemCardBaudrates {
    /// The two-bit value that encodes this baud rate in an activation
    /// command.
    pub fn bits(&self) -> (b: u8)
        ensures
            b == baudrate_bits_spec(*self),
    {
        match self {
            UemCardBaudrates::Baud106kbps => 0b00,
            UemCardBaudrates::Baud212kbps => 0b01,
            UemCardBaudrates::Baud424kbps => 0b10,
            UemCardBaudrates::Baud848kbps => 0b11,
        }
    }
}

#[derive(Debug, Clone, PartialEq, Eq)]
/// ISO14443A card type object
pub struct UemCardIso14443A {
    /// Answer to request - 2 bytes
    pub atq: Vec<u8>,
    /// Select Acknowledge byte
    pub sak: u8,
    /// Unique identifier - 4/7/10 bytes
    pub uid: Vec<u8>,
    /// Answer to select - returned after switching to T=CL mode
    pub ats: Vec<u8>,
}

impl UemCardIso14443A {
    /// Shape that every decoded type A activation response has.
    pub open spec fn wf(&self) -> bool {
        self.atq@.len() == 2
    }
}

#[derive(Debug, Clone, PartialEq, Eq)]
/// ISO14443B card type object
pub struct UemCardIso14443B {
    /// Buffer length identifier
    pub mbli: u8,
    /// Pseudo-unique identifier - 4 bytes
    pub pupi: Vec<u8>,
    /// Application data - 4 bytes
    pub app_data: Vec<u8>,
    /// Protocol information - 3 bytes
    pub prot_info: Vec<u8>,
    /// Answer to request - the full ATQB block
    pub atq: Vec<u8>,
}

impl UemCardIso14443B {
    /// Shape that every decoded type B activation response has.
    pub open spec fn wf(&self) -> bool {
        self.pupi@.len() == 4 && self.app_data@.len() == 4 && self.prot_info@.len() == 3
            && self.atq@.len() >= 12
    }
}

#[derive(Debug, Clone, PartialEq, Eq)]
/// General placeholder for a card object
pub enum UemCard {
    Iso14443A(UemCardIso14443A),
    Iso14443B(UemCardIso14443B),
}

impl UemCard {
    /// Returns the unique identifier of a card: the UID of a type A card,
    /// the PUPI of a type B card.
    pub fn uid(&self) -> (uid: &Vec<u8>)
        ensures
            uid@ == match self {
                UemCard::Iso14443A(card) => card.uid@,
                UemCard::Iso14443B(card) => card.pupi@,
            },
    {
        match self {
            UemCard::Iso14443A(card) => &card.uid,
            UemCard::Iso14443B(card) => &card.pupi,
        }
    }
}

} // verus!
