//! Commands that control the behavior of the reader itself.

use crate::errors::UemError;
use crate::reader::{UemReaderInternalTrait, UemResult, UemResultVec};
use vstd::prelude::*;

verus! {

#[derive(Debug, Clone, Copy, PartialEq, Eq, Structural)]
/// LED color combinations, three bits on the wire: red, green and blue.
pub enum UemColor {
    /// LED is off
    Off,
    Red,
    Green,
    Blue,
    Yellow,
    Magenta,
    Cyan,
    White,
}

/// The three-bit wire encoding of a LED color.
pub open spec fn color_bits_spec(color: UemColor) -> u8 {
    match color {
        UemColor::Off => 0b000,
        UemColor::Red => 0b001,
        UemColor::Green => 0b010,
        UemColor::Blue => 0b100,
        UemColor::Yellow => 0b011,
        UemColor::Magenta => 0b101,
        UemColor::Cyan => 0b110,
        UemColor::White => 0b111,
    }
}

impl UemColor {
    /// The three-bit value that encodes this color in a LED command.
    pub fn bits(&self) -> (b: u8)
        ensures
            b == color_bits_spec(*self),
    {
        match self {
            UemColor::Off => 0b000,
            UemColor::Red => 0b001,
            UemColor::Green => 0b010,
            UemColor::Blue => 0b100,
            UemColor::Yellow => 0b011,
            UemColor::Magenta => 0b101,
            UemColor::Cyan => 0b110,
            UemColor::White => 0b111,
        }
    }
}

/// The request payload of a beep command.
pub open spec fn beep_request_spec(count: u8) -> Seq<u8> {
    seq![0x05u8, count]
}

/// The request payload of a LED command.
pub open spec fn led_request_spec(count: u8, color: UemColor, post_color: UemColor) -> Seq<u8> {
    seq![0x07u8, color_bits_spec(color), count, color_bits_spec(post_color)]
}

/// The request payload that powers the radio field on or off.
pub open spec fn power_radio_request_spec(on: bool) -> Seq<u8> {
    if on {
        seq![0x10u8]
    } else {
        seq![0x04u8, 0x80u8, 0x01u8]
    }
}

/// The request payload that switches the radio field off for `duration`
/// milliseconds, low byte first.
pub open spec fn radio_off_on_request_spec(duration: u16) -> Seq<u8> {
    seq![0x05u8, (duration & 0x00FF) as u8, (((duration & 0xFF00) >> 8) & 0x00FF) as u8]
}

/// The request payload that asks for the reader version.
pub open spec fn version_request_spec() -> Seq<u8> {
    seq![0x64u8]
}

/// The request payload that asks for the reader serial.
pub open spec fn serial_request_spec() -> Seq<u8> {
    seq![0x22u8]
}

/// Namespace for commands controlling the reader itself.
pub struct UemCommandsReader;

impl UemCommandsReader {
    /// Build the beep request: `count` must be at least 1.
    pub fn beep_request(count: u8) -> (r: Result<Vec<u8>, UemError>)
        ensures
            count == 0 ==> r == Err::<Vec<u8>, UemError>(UemError::IncorrectParameter),
            count >= 1 ==> (r matches Ok(req) && req@ == beep_request_spec(count)),
    {
        if count < 1 {
            return Err(UemError::IncorrectParameter);
        }
        let mut req: Vec<u8> = Vec::new();
        req.push(0x05);
        req.push(count);
        proof {
            assert(req@ =~= beep_request_spec(count));
        }
        Ok(req)
    }

    /// Make short sound signals of the given count.
    pub fn beep<R: UemReaderInternalTrait>(reader: &mut R, count: u8) -> (r: UemResult)
        ensures
            count == 0 ==> r == Err::<(), UemError>(UemError::IncorrectParameter),
    {
        let req = match Self::beep_request(count) {
            Ok(req) => req,
            Err(e) => {
                return Err(e);
            },
        };
        match reader.send(req.as_slice()) {
            Ok(_) => Ok(()),
            Err(e) => Err(e),
        }
    }

    /// Build the LED request.
    pub fn led_request(count: u8, color: UemColor, post_color: UemColor) -> (req: Vec<u8>)
        ensures
            req@ == led_request_spec(count, color, post_color),
    {
        let mut req: Vec<u8> = Vec::new();
        req.push(0x07);
        req.push(color.bits());
        req.push(count);
        req.push(post_color.bits());
        proof {
            assert(req@ =~= led_request_spec(count, color, post_color));
        }
        req
    }

    /// Blink `count` times with `color`, then leave `post_color` on.
    pub fn led<R: UemReaderInternalTrait>(
        reader: &mut R,
        count: u8,
        color: UemColor,
        post_color: UemColor,
    ) -> (r: UemResult) {
        let req = Self::led_request(count, color, post_color);
        match reader.send(req.as_slice()) {
            Ok(_) => Ok(()),
            Err(e) => Err(e),
        }
    }

    /// Build the radio power request.
    pub fn power_radio_request(on: bool) -> (req: Vec<u8>)
        ensures
            req@ == power_radio_request_spec(on),
    {
        let mut req: Vec<u8> = Vec::new();
        if on {
            req.push(0x10);
        } else {
            req.push(0x04);
            req.push(0x80);
            req.push(0x01);
        }
        proof {
            assert(req@ =~= power_radio_request_spec(on));
        }
        req
    }

    /// Turn the radio chip on or off.
    pub fn power_radio<R: UemReaderInternalTrait>(reader: &mut R, on: bool) -> (r: UemResult) {
        let req = Self::power_radio_request(on);
        match reader.send(req.as_slice()) {
            Ok(_) => Ok(()),
            Err(e) => Err(e),
        }
    }

    /// Build the request that switches the radio field off for a duration.
    pub fn radio_off_on_request(duration: u16) -> (req: Vec<u8>)
        ensures
            req@ == radio_off_on_request_spec(duration),
    {
        let mut req: Vec<u8> = Vec::new();
        req.push(0x05);
        req.push((duration & 0x00FF) as u8);
        req.push((((duration & 0xFF00) >> 8) & 0x00FF) as u8);
        proof {
            assert(req@ =~= radio_off_on_request_spec(duration));
        }
        req
    }

    /// Switch the radio field off for `duration` milliseconds, resetting
    /// every card in the field; a duration of 0 switches it off until the
    /// same command is sent again with a non-zero duration.
    pub fn radio_off_on<R: UemReaderInternalTrait>(reader: &mut R, duration: u16) -> (r:
        UemResult) {
        let req = Self::radio_off_on_request(duration);
        match reader.send(req.as_slice()) {
            Ok(_) => Ok(()),
            Err(e) => Err(e),
        }
    }

    /// Build the request that asks for the reader version.
    pub fn version_request() -> (req: Vec<u8>)
        ensures
            req@ == version_request_spec(),
    {
        let mut req: Vec<u8> = Vec::new();
        req.push(0x64);
        proof {
            assert(req@ =~= version_request_spec());
        }
        req
    }

    /// Read the reader version, a 6-byte vector; the length is
    /// caller-enforced.
    pub fn get_version<R: UemReaderInternalTrait>(reader: &mut R) -> (r: UemResultVec) {
        let req = Self::version_request();
        reader.send(req.as_slice())
    }

    /// Build the request that asks for the reader serial.
    pub fn serial_request() -> (req: Vec<u8>)
        ensures
            req@ == serial_request_spec(),
    {
        let mut req: Vec<u8> = Vec::new();
        req.push(0x22);
        proof {
            assert(req@ =~= serial_request_spec());
        }
        req
    }

    /// Read the reader serial, a 4-byte vector; the length is
    /// caller-enforced.
    pub fn get_serial<R: UemReaderInternalTrait>(reader: &mut R) -> (r: UemResultVec) {
        let req = Self::serial_request();
        reader.send(req.as_slice())
    }
}

} // verus!
