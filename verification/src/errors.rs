//! Error taxonomy: library-level errors and the closed enumeration of
//! device-reported status codes.
//!
//! Decoding a status byte is total: every mapped code decodes to its name
//! and every unmapped byte decodes to [`UemInternalError::Unknown`], so a
//! reader running newer firmware can never make decoding fail.

use vstd::prelude::*;

verus! {

#[derive(Debug, Clone, PartialEq, Eq)]
/// General errors for library methods
pub enum UemError {
    /// The current operation is still in progress
    PendingOperation,
    /// The requested feature is not supported yet
    UnsupportedFeature,
    /// The communication channel has detected a problem with data consistency
    LostCommunicationData,
    /// A method parameter has an incorrect value
    IncorrectParameter,
    /// Some unexpected error occurred
    Unexpected,
    /// Access to the requested feature is not granted
    Access,
    /// Failed to transact data with a remote device
    NotTransacted,
    /// The supplied reader name is incorrect
    IncorrectReaderName,
    /// Reader connection has been unsuccessful
    ReaderConnectionFailed,
    /// Reader is not in connected state
    ReaderNotConnected,
    /// Reader is already connected
    ReaderAlreadyConnected,
    /// There were errors in the reader response data
    ReaderIncorrectResponse,
    /// Waiting for a reader response timed out
    ReaderResponseFailure,
    /// The reader returned an internal error code, optionally followed by
    /// auxiliary diagnostic bytes
    ReaderUnsuccessful(UemInternalError, Option<Vec<u8>>),
    /// There was an APDU response error while interacting with the SAM module
    SamApdu,
    /// Failed to check a MAC signature while interacting with the SAM module
    SamInvalidMac,
    /// Failed to authenticate with the SAM module
    SamAuthenticationFailed,
}

#[derive(Debug, Clone, Copy, PartialEq, Eq, Structural)]
/// Error codes returned by a reader
pub enum UemInternalError {
    /// No RFID card found in vicinity
    NoTag,
    /// CRC radio transaction check failed
    Crc,
    /// Failed to perform operation with supplied key
    WrongKey,
    /// Parity bit transaction check failed
    Parity,
    /// Received an error result code from a card
    ResultCode,
    /// Wrong protocol selected for this command
    Protocol,
    /// Unknown serial number of a device
    SerialNumber,
    /// Failed to load key into flash memory
    LoadKey,
    /// The card is not in a valid authentication state
    NotAuthenticated,
    /// Incorrect bits count during transaction
    BitCount,
    /// Incorrect byte count during transaction
    ByteCount,
    /// Failed to write data block on a card
    WriteData,
    /// Failed to increment card counter
    Increment,
    /// Failed to decrement card counter
    Decrement,
    /// Failed to read card data block
    ReadData,
    /// Internal radio exchange buffer overflow
    Overflow,
    /// Reader-card transaction frame is malformed
    Framing,
    /// The requested operation is not implemented in a card
    UnknownOperation,
    /// Collision detected during card activation
    Collision,
    Reset,
    Interface,
    /// Bitwise anticollision is not supported by a card
    NoBitwiseAnticoll,
    /// Error with coding of bytes in transaction
    Coding,
    /// The required hardware is absent in a reader
    HardwareAbsent,
    /// The requested command is not implemented in a reader
    UnknownCommand,
    /// The requested command is not supported by a reader
    CommandNotSupported,
    /// The radio chip is in a wrong mode for this command
    WrongMfrcMode,
    /// Reader and host disagree on the transaction crypto mode
    WrongCryptoMode,
    /// Reader flash memory must be erased before writing
    FlashEraseRequired,
    /// The required key is absent in flash memory
    FlashKeyAbsent,
    /// Failed to transceive data with a card
    Transceive,
    /// Stack overflow for ISO 15693 card
    IcodeStackOverflow,
    /// Failed to perform Halt operation with ISO 14443B card
    HaltB,
    /// Flash reader memory is in use
    FlashOperating,
    /// Some internal call within reader has failed
    InternalCall,
    /// Error while performing cascade level 3 activation
    CascadeLevel10,
    /// The requested card speed is not supported
    BaudrateNotSupported,
    /// SAM module has timed out to respond
    SamTimeout,
    /// There was an error with SAM APDU response
    SamApdu,
    /// Wrong RFID card MAC response while interacting with SAM module
    SamCardMac,
    /// Failed to authenticate with SAM module
    SamAuthentication,
    /// Incorrect bytes count sent to or received from SAM module
    SamByteCount,
    /// Incorrect command parameter value
    ParameterValue,
    MifareClassicNacF,
    MifareClassicNacE,
    MifareClassicNacD,
    MifareClassicNacC,
    MifareClassicNacB,
    MifareClassicNacA,
    MifareClassicNac9,
    MifareClassicNac8,
    MifareClassicNac7,
    MifareClassicNac6,
    MifareClassicNac5,
    MifareClassicNac4,
    MifareClassicNac3,
    MifareClassicNac2,
    MifareClassicNac1,
    MifareClassicNac0,
    MifarePlusGeneralManipulate,
    MifarePlusCardMac,
    MifarePlusEv1NotSupported,
    MifarePlusLength,
    MifarePlusNoStateForCommand,
    MifarePlusNotExistingBlock,
    MifarePlusBlockNumber,
    MifarePlusMac,
    MifarePlusCommandOverflow,
    MifarePlusAuthentication,
    MifarePlusEv1Tmac,
    /// The requested feature is not yet implemented
    NotYetImplemented,
    /// CRC16 command/response check failed
    Crc16,
    /// The reception buffer on the reader radio chip has overflowed
    ReceiveBufferOverflow,
    /// Error in internal reader library
    InternalReaderLibrary,
    /// Incorrect format of a card value block
    ValueBlockFormat,
    /// A command parameter is not supported
    UnsupportedParameter,
    /// Commands in a chain are malformed
    IncompleteChaining,
    /// Reader is overheating
    Temperature,
    /// Unknown error
    Unknown,
}

/// The device error named by a status byte. Total over all 256 byte
/// values: bytes outside the mapped code space decode to `Unknown`.
pub open spec fn device_error_of_byte_spec(code: u8) -> UemInternalError {
    if code == 0xFF {
        UemInternalError::NoTag
    } else if code == 0xFE {
        UemInternalError::Crc
    } else if code == 0xFC {
        UemInternalError::WrongKey
    } else if code == 0xFB {
        UemInternalError::Parity
    } else if code == 0xFA {
        UemInternalError::ResultCode
    } else if code == 0xF9 {
        UemInternalError::Protocol
    } else if code == 0xF8 {
        UemInternalError::SerialNumber
    } else if code == 0xF7 {
        UemInternalError::LoadKey
    } else if code == 0xF6 {
        UemInternalError::NotAuthenticated
    } else if code == 0xF5 {
        UemInternalError::BitCount
    } else if code == 0xF4 {
        UemInternalError::ByteCount
    } else if code == 0xF1 {
        UemInternalError::WriteData
    } else if code == 0xF0 {
        UemInternalError::Increment
    } else if code == 0xEF {
        UemInternalError::Decrement
    } else if code == 0xEE {
        UemInternalError::ReadData
    } else if code == 0xED {
        UemInternalError::Overflow
    } else if code == 0xEB {
        UemInternalError::Framing
    } else if code == 0xE9 {
        UemInternalError::UnknownOperation
    } else if code == 0xE8 {
        UemInternalError::Collision
    } else if code == 0xE7 {
        UemInternalError::Reset
    } else if code == 0xE6 {
        UemInternalError::Interface
    } else if code == 0xE4 {
        UemInternalError::NoBitwiseAnticoll
    } else if code == 0xE1 {
        UemInternalError::Coding
    } else if code == 0xD8 {
        UemInternalError::HardwareAbsent
    } else if code == 0xD7 {
        UemInternalError::UnknownCommand
    } else if code == 0xD6 {
        UemInternalError::CommandNotSupported
    } else if code == 0xD5 {
        UemInternalError::WrongMfrcMode
    } else if code == 0xD4 {
        UemInternalError::WrongCryptoMode
    } else if code == 0xD3 {
        UemInternalError::FlashEraseRequired
    } else if code == 0xD2 {
        UemInternalError::FlashKeyAbsent
    } else if code == 0xD1 {
        UemInternalError::Transceive
    } else if code == 0xD0 {
        UemInternalError::IcodeStackOverflow
    } else if code == 0xCF {
        UemInternalError::HaltB
    } else if code == 0xCE {
        UemInternalError::FlashOperating
    } else if code == 0xCD {
        UemInternalError::InternalCall
    } else if code == 0xCC {
        UemInternalError::CascadeLevel10
    } else if code == 0xCA {
        UemInternalError::BaudrateNotSupported
    } else if code == 0xC9 {
        UemInternalError::SamTimeout
    } else if code == 0xC8 {
        UemInternalError::SamApdu
    } else if code == 0xC7 {
        UemInternalError::SamCardMac
    } else if code == 0xC6 {
        UemInternalError::SamAuthentication
    } else if code == 0xC5 {
        UemInternalError::SamByteCount
    } else if code == 0xC4 {
        UemInternalError::ParameterValue
    } else if code == 0xBF {
        UemInternalError::MifareClassicNacF
    } else if code == 0xBE {
        UemInternalError::MifareClassicNacE
    } else if code == 0xBD {
        UemInternalError::MifareClassicNacD
    } else if code == 0xBC {
        UemInternalError::MifareClassicNacC
    } else if code == 0xBB {
        UemInternalError::MifareClassicNacB
    } else if code == 0xBA {
        UemInternalError::MifareClassicNacA
    } else if code == 0xB9 {
        UemInternalError::MifareClassicNac9
    } else if code == 0xB8 {
        UemInternalError::MifareClassicNac8
    } else if code == 0xB7 {
        UemInternalError::MifareClassicNac7
    } else if code == 0xB6 {
        UemInternalError::MifareClassicNac6
    } else if code == 0xB5 {
        UemInternalError::MifareClassicNac5
    } else if code == 0xB4 {
        UemInternalError::MifareClassicNac4
    } else if code == 0xB3 {
        UemInternalError::MifareClassicNac3
    } else if code == 0xB2 {
        UemInternalError::MifareClassicNac2
    } else if code == 0xB1 {
        UemInternalError::MifareClassicNac1
    } else if code == 0xB0 {
        UemInternalError::MifareClassicNac0
    } else if code == 0xAF {
        UemInternalError::MifarePlusGeneralManipulate
    } else if code == 0xAE {
        UemInternalError::MifarePlusCardMac
    } else if code == 0xAD {
        UemInternalError::MifarePlusEv1NotSupported
    } else if code == 0xAC {
        UemInternalError::MifarePlusLength
    } else if code == 0xAB {
        UemInternalError::MifarePlusNoStateForCommand
    } else if code == 0xAA {
        UemInternalError::MifarePlusNotExistingBlock
    } else if code == 0xA9 {
        UemInternalError::MifarePlusBlockNumber
    } else if code == 0xA8 {
        UemInternalError::MifarePlusMac
    } else if code == 0xA7 {
        UemInternalError::MifarePlusCommandOverflow
    } else if code == 0xA6 {
        UemInternalError::MifarePlusAuthentication
    } else if code == 0xA5 {
        UemInternalError::MifarePlusEv1Tmac
    } else if code == 0x9C {
        UemInternalError::NotYetImplemented
    } else if code == 0x9B {
        UemInternalError::Crc16
    } else if code == 0x90 {
        UemInternalError::ReceiveBufferOverflow
    } else if code == 0x85 {
        UemInternalError::InternalReaderLibrary
    } else if code == 0x84 {
        UemInternalError::ValueBlockFormat
    } else if code == 0x83 {
        UemInternalError::UnsupportedParameter
    } else if code == 0x82 {
        UemInternalError::IncompleteChaining
    } else if code == 0x81 {
        UemInternalError::Temperature
    } else {
        UemInternalError::Unknown
    }
}

/// The status byte that a named device error stands for.
pub open spec fn device_error_code_spec(err: UemInternalError) -> u8 {
    match err {
        UemInternalError::NoTag => 0xFF,
        UemInternalError::Crc => 0xFE,
        UemInternalError::WrongKey => 0xFC,
        UemInternalError::Parity => 0xFB,
        UemInternalError::ResultCode => 0xFA,
        UemInternalError::Protocol => 0xF9,
        UemInternalError::SerialNumber => 0xF8,
        UemInternalError::LoadKey => 0xF7,
        UemInternalError::NotAuthenticated => 0xF6,
        UemInternalError::BitCount => 0xF5,
        UemInternalError::ByteCount => 0xF4,
        UemInternalError::WriteData => 0xF1,
        UemInternalError::Increment => 0xF0,
        UemInternalError::Decrement => 0xEF,
        UemInternalError::ReadData => 0xEE,
        UemInternalError::Overflow => 0xED,
        UemInternalError::Framing => 0xEB,
        UemInternalError::UnknownOperation => 0xE9,
        UemInternalError::Collision => 0xE8,
        UemInternalError::Reset => 0xE7,
        UemInternalError::Interface => 0xE6,
        UemInternalError::NoBitwiseAnticoll => 0xE4,
        UemInternalError::Coding => 0xE1,
        UemInternalError::HardwareAbsent => 0xD8,
        UemInternalError::UnknownCommand => 0xD7,
        UemInternalError::CommandNotSupported => 0xD6,
        UemInternalError::WrongMfrcMode => 0xD5,
        UemInternalError::WrongCryptoMode => 0xD4,
        UemInternalError::FlashEraseRequired => 0xD3,
        UemInternalError::FlashKeyAbsent => 0xD2,
        UemInternalError::Transceive => 0xD1,
        UemInternalError::IcodeStackOverflow => 0xD0,
        UemInternalError::HaltB => 0xCF,
        UemInternalError::FlashOperating => 0xCE,
        UemInternalError::InternalCall => 0xCD,
        UemInternalError::CascadeLevel10 => 0xCC,
        UemInternalError::BaudrateNotSupported => 0xCA,
        UemInternalError::SamTimeout => 0xC9,
        UemInternalError::SamApdu => 0xC8,
        UemInternalError::SamCardMac => 0xC7,
        UemInternalError::SamAuthentication => 0xC6,
        UemInternalError::SamByteCount => 0xC5,
        UemInternalError::ParameterValue => 0xC4,
        UemInternalError::MifareClassicNacF => 0xBF,
        UemInternalError::MifareClassicNacE => 0xBE,
        UemInternalError::MifareClassicNacD => 0xBD,
        UemInternalError::MifareClassicNacC => 0xBC,
        UemInternalError::MifareClassicNacB => 0xBB,
        UemInternalError::MifareClassicNacA => 0xBA,
        UemInternalError::MifareClassicNac9 => 0xB9,
        UemInternalError::MifareClassicNac8 => 0xB8,
        UemInternalError::MifareClassicNac7 => 0xB7,
        UemInternalError::MifareClassicNac6 => 0xB6,
        UemInternalError::MifareClassicNac5 => 0xB5,
        UemInternalError::MifareClassicNac4 => 0xB4,
        UemInternalError::MifareClassicNac3 => 0xB3,
        UemInternalError::MifareClassicNac2 => 0xB2,
        UemInternalError::MifareClassicNac1 => 0xB1,
        UemInternalError::MifareClassicNac0 => 0xB0,
        UemInternalError::MifarePlusGeneralManipulate => 0xAF,
        UemInternalError::MifarePlusCardMac => 0xAE,
        UemInternalError::MifarePlusEv1NotSupported => 0xAD,
        UemInternalError::MifarePlusLength => 0xAC,
        UemInternalError::MifarePlusNoStateForCommand => 0xAB,
        UemInternalError::MifarePlusNotExistingBlock => 0xAA,
        UemInternalError::MifarePlusBlockNumber => 0xA9,
        UemInternalError::MifarePlusMac => 0xA8,
        UemInternalError::MifarePlusCommandOverflow => 0xA7,
        UemInternalError::MifarePlusAuthentication => 0xA6,
        UemInternalError::MifarePlusEv1Tmac => 0xA5,
        UemInternalError::NotYetImplemented => 0x9C,
        UemInternalError::Crc16 => 0x9B,
        UemInternalError::ReceiveBufferOverflow => 0x90,
        UemInternalError::InternalReaderLibrary => 0x85,
        UemInternalError::ValueBlockFormat => 0x84,
        UemInternalError::UnsupportedParameter => 0x83,
        UemInternalError::IncompleteChaining => 0x82,
        UemInternalError::Temperature => 0x81,
        UemInternalError::Unknown => 0x80,
    }
}

impl UemInternalError {
    /// Decode a device status byte into its named error. Decoding never
    /// fails: an unmapped byte yields `Unknown`.
    pub fn from_byte(code: u8) -> (err: Self)
        ensures
            err == device_error_of_byte_spec(code),
    {
        match code {
            0xFF => UemInternalError::NoTag,
            0xFE => UemInternalError::Crc,
            0xFC => UemInternalError::WrongKey,
            0xFB => UemInternalError::Parity,
            0xFA => UemInternalError::ResultCode,
            0xF9 => UemInternalError::Protocol,
            0xF8 => UemInternalError::SerialNumber,
            0xF7 => UemInternalError::LoadKey,
            0xF6 => UemInternalError::NotAuthenticated,
            0xF5 => UemInternalError::BitCount,
            0xF4 => UemInternalError::ByteCount,
            0xF1 => UemInternalError::WriteData,
            0xF0 => UemInternalError::Increment,
            0xEF => UemInternalError::Decrement,
            0xEE => UemInternalError::ReadData,
            0xED => UemInternalError::Overflow,
            0xEB => UemInternalError::Framing,
            0xE9 => UemInternalError::UnknownOperation,
            0xE8 => UemInternalError::Collision,
            0xE7 => UemInternalError::Reset,
            0xE6 => UemInternalError::Interface,
            0xE4 => UemInternalError::NoBitwiseAnticoll,
            0xE1 => UemInternalError::Coding,
            0xD8 => UemInternalError::HardwareAbsent,
            0xD7 => UemInternalError::UnknownCommand,
            0xD6 => UemInternalError::CommandNotSupported,
            0xD5 => UemInternalError::WrongMfrcMode,
            0xD4 => UemInternalError::WrongCryptoMode,
            0xD3 => UemInternalError::FlashEraseRequired,
            0xD2 => UemInternalError::FlashKeyAbsent,
            0xD1 => UemInternalError::Transceive,
            0xD0 => UemInternalError::IcodeStackOverflow,
            0xCF => UemInternalError::HaltB,
            0xCE => UemInternalError::FlashOperating,
            0xCD => UemInternalError::InternalCall,
            0xCC => UemInternalError::CascadeLevel10,
            0xCA => UemInternalError::BaudrateNotSupported,
            0xC9 => UemInternalError::SamTimeout,
            0xC8 => UemInternalError::SamApdu,
            0xC7 => UemInternalError::SamCardMac,
            0xC6 => UemInternalError::SamAuthentication,
            0xC5 => UemInternalError::SamByteCount,
            0xC4 => UemInternalError::ParameterValue,
            0xBF => UemInternalError::MifareClassicNacF,
            0xBE => UemInternalError::MifareClassicNacE,
            0xBD => UemInternalError::MifareClassicNacD,
            0xBC => UemInternalError::MifareClassicNacC,
            0xBB => UemInternalError::MifareClassicNacB,
            0xBA => UemInternalError::MifareClassicNacA,
            0xB9 => UemInternalError::MifareClassicNac9,
            0xB8 => UemInternalError::MifareClassicNac8,
            0xB7 => UemInternalError::MifareClassicNac7,
            0xB6 => UemInternalError::MifareClassicNac6,
            0xB5 => UemInternalError::MifareClassicNac5,
            0xB4 => UemInternalError::MifareClassicNac4,
            0xB3 => UemInternalError::MifareClassicNac3,
            0xB2 => UemInternalError::MifareClassicNac2,
            0xB1 => UemInternalError::MifareClassicNac1,
            0xB0 => UemInternalError::MifareClassicNac0,
            0xAF => UemInternalError::MifarePlusGeneralManipulate,
            0xAE => UemInternalError::MifarePlusCardMac,
            0xAD => UemInternalError::MifarePlusEv1NotSupported,
            0xAC => UemInternalError::MifarePlusLength,
            0xAB => UemInternalError::MifarePlusNoStateForCommand,
            0xAA => UemInternalError::MifarePlusNotExistingBlock,
            0xA9 => UemInternalError::MifarePlusBlockNumber,
            0xA8 => UemInternalError::MifarePlusMac,
            0xA7 => UemInternalError::MifarePlusCommandOverflow,
            0xA6 => UemInternalError::MifarePlusAuthentication,
            0xA5 => UemInternalError::MifarePlusEv1Tmac,
            0x9C => UemInternalError::NotYetImplemented,
            0x9B => UemInternalError::Crc16,
            0x90 => UemInternalError::ReceiveBufferOverflow,
            0x85 => UemInternalError::InternalReaderLibrary,
            0x84 => UemInternalError::ValueBlockFormat,
            0x83 => UemInternalError::UnsupportedParameter,
            0x82 => UemInternalError::IncompleteChaining,
            0x81 => UemInternalError::Temperature,
            _ => UemInternalError::Unknown,
        }
    }

    /// The status byte this error decodes from.
    pub fn to_byte(&self) -> (code: u8)
        ensures
            code == device_error_code_spec(*self),
    {
        match self {
            UemInternalError::NoTag => 0xFF,
            UemInternalError::Crc => 0xFE,
            UemInternalError::WrongKey => 0xFC,
            UemInternalError::Parity => 0xFB,
            UemInternalError::ResultCode => 0xFA,
            UemInternalError::Protocol => 0xF9,
            UemInternalError::SerialNumber => 0xF8,
            UemInternalError::LoadKey => 0xF7,
            UemInternalError::NotAuthenticated => 0xF6,
            UemInternalError::BitCount => 0xF5,
            UemInternalError::ByteCount => 0xF4,
            UemInternalError::WriteData => 0xF1,
            UemInternalError::Increment => 0xF0,
            UemInternalError::Decrement => 0xEF,
            UemInternalError::ReadData => 0xEE,
            UemInternalError::Overflow => 0xED,
            UemInternalError::Framing => 0xEB,
            UemInternalError::UnknownOperation => 0xE9,
            UemInternalError::Collision => 0xE8,
            UemInternalError::Reset => 0xE7,
            UemInternalError::Interface => 0xE6,
            UemInternalError::NoBitwiseAnticoll => 0xE4,
            UemInternalError::Coding => 0xE1,
            UemInternalError::HardwareAbsent => 0xD8,
            UemInternalError::UnknownCommand => 0xD7,
            UemInternalError::CommandNotSupported => 0xD6,
            UemInternalError::WrongMfrcMode => 0xD5,
            UemInternalError::WrongCryptoMode => 0xD4,
            UemInternalError::FlashEraseRequired => 0xD3,
            UemInternalError::FlashKeyAbsent => 0xD2,
            UemInternalError::Transceive => 0xD1,
            UemInternalError::IcodeStackOverflow => 0xD0,
            UemInternalError::HaltB => 0xCF,
            UemInternalError::FlashOperating => 0xCE,
            UemInternalError::InternalCall => 0xCD,
            UemInternalError::CascadeLevel10 => 0xCC,
            UemInternalError::BaudrateNotSupported => 0xCA,
            UemInternalError::SamTimeout => 0xC9,
            UemInternalError::SamApdu => 0xC8,
            UemInternalError::SamCardMac => 0xC7,
            UemInternalError::SamAuthentication => 0xC6,
            UemInternalError::SamByteCount => 0xC5,
            UemInternalError::ParameterValue => 0xC4,
            UemInternalError::MifareClassicNacF => 0xBF,
            UemInternalError::MifareClassicNacE => 0xBE,
            UemInternalError::MifareClassicNacD => 0xBD,
            UemInternalError::MifareClassicNacC => 0xBC,
            UemInternalError::MifareClassicNacB => 0xBB,
            UemInternalError::MifareClassicNacA => 0xBA,
            UemInternalError::MifareClassicNac9 => 0xB9,
            UemInternalError::MifareClassicNac8 => 0xB8,
            UemInternalError::MifareClassicNac7 => 0xB7,
            UemInternalError::MifareClassicNac6 => 0xB6,
            UemInternalError::MifareClassicNac5 => 0xB5,
            UemInternalError::MifareClassicNac4 => 0xB4,
            UemInternalError::MifareClassicNac3 => 0xB3,
            UemInternalError::MifareClassicNac2 => 0xB2,
            UemInternalError::MifareClassicNac1 => 0xB1,
            UemInternalError::MifareClassicNac0 => 0xB0,
            UemInternalError::MifarePlusGeneralManipulate => 0xAF,
            UemInternalError::MifarePlusCardMac => 0xAE,
            UemInternalError::MifarePlusEv1NotSupported => 0xAD,
            UemInternalError::MifarePlusLength => 0xAC,
            UemInternalError::MifarePlusNoStateForCommand => 0xAB,
            UemInternalError::MifarePlusNotExistingBlock => 0xAA,
            UemInternalError::MifarePlusBlockNumber => 0xA9,
            UemInternalError::MifarePlusMac => 0xA8,
            UemInternalError::MifarePlusCommandOverflow => 0xA7,
            UemInternalError::MifarePlusAuthentication => 0xA6,
            UemInternalError::MifarePlusEv1Tmac => 0xA5,
            UemInternalError::NotYetImplemented => 0x9C,
            UemInternalError::Crc16 => 0x9B,
            UemInternalError::ReceiveBufferOverflow => 0x90,
            UemInternalError::InternalReaderLibrary => 0x85,
            UemInternalError::ValueBlockFormat => 0x84,
            UemInternalError::UnsupportedParameter => 0x83,
            UemInternalError::IncompleteChaining => 0x82,
            UemInternalError::Temperature => 0x81,
            UemInternalError::Unknown => 0x80,
        }
    }
}

/// Decode totality and stability law: every named device error decodes
/// back from its own status byte, so the byte-to-name mapping is one to
/// one over the mapped code space.
pub proof fn lemma_device_error_code_round_trip(err: UemInternalError)
    ensures
        device_error_of_byte_spec(device_error_code_spec(err)) == err,
{
}

} // verus!
