//! Transaction layer and transport interface.
//!
//! A command payload travels to the reader as one frame:
//! `[0xFD][mode][sequence][payload][crc_lo][crc_hi][0xFE]`, where everything
//! between the delimiters is byte-stuffed. The mode byte is always `0x00`
//! (non-zero values are reserved for an encrypted channel). The sequence
//! byte comes from a per-reader counter that wraps from 255 back to 0.
//!
//! [`prepare_command`] builds such a frame, [`parse_response`] validates and
//! strips one, and [`transact_outcome`] turns the raw outcome of a
//! write/read exchange into the typed result of a transaction. A transport
//! implements [`UemReaderInternalTrait`] and only moves bytes; every
//! decision about them is made here.

pub mod com;

use crate::errors::{device_error_of_byte_spec, UemError, UemInternalError};
use crate::helpers::{
    byte_stuff, crc16, crc16_ex, crc16_spec, lemma_unstuff_stuff_prefix, stuff_spec, unbyte_stuff,
    unstuff_spec, vec_subrange,
};
use vstd::prelude::*;
use vstd::slice::slice_index_get;

verus! {

/// Common library result
pub type UemResult = Result<(), UemError>;

/// Library result containing a returned vector of bytes
pub type UemResultVec = Result<Vec<u8>, UemError>;

/// Common reader methods: a byte transport that carries one command payload
/// to the reader and returns the response payload. Implementations own the
/// physical channel; the framing itself is fixed by this module.
pub trait UemReaderInternalTrait {
    /// Open the transport.
    fn open(&mut self) -> UemResult;

    /// Close the opened transport.
    fn close(&mut self) -> UemResult;

    /// Send a raw command payload and return the response data bytes.
    fn send(&mut self, command: &[u8]) -> UemResultVec;
}

/// How the sequence counter advances after each prepared command: it wraps
/// from 255 back to 0 instead of overflowing.
pub open spec fn next_counter_spec(counter: u8) -> u8 {
    if counter == 0xFF {
        0
    } else {
        (counter + 1) as u8
    }
}

/// The counter after `n` prepared commands.
pub open spec fn counter_after_spec(counter: u8, n: nat) -> u8
    decreases n,
{
    if n == 0 {
        counter
    } else {
        next_counter_spec(counter_after_spec(counter, (n - 1) as nat))
    }
}

proof fn lemma_counter_after_adds(counter: u8, n: nat)
    requires
        n <= 256,
    ensures
        counter_after_spec(counter, n) == if counter + n < 256 {
            counter + n
        } else {
            counter + n - 256
        },
    decreases n,
{
    if n > 0 {
        lemma_counter_after_adds(counter, (n - 1) as nat);
    }
}

/// Sequence wraparound law: after 256 consecutively prepared commands the
/// sequence counter is back at its starting value.
pub proof fn lemma_sequence_counter_wraparound(counter: u8)
    ensures
        counter_after_spec(counter, 256) == counter,
{
    lemma_counter_after_adds(counter, 256);
}

/// The checksummed frame body: mode byte `0x00`, sequence byte, payload,
/// then the two checksum bytes covering mode, sequence and payload.
pub open spec fn frame_body_spec(counter: u8, data: Seq<u8>) -> Seq<u8> {
    (seq![0u8, counter] + data) + crc16_spec(seq![0u8, counter] + data)
}

/// The complete wire frame: the stuffed body between the two delimiters.
pub open spec fn frame_spec(counter: u8, data: Seq<u8>) -> Seq<u8> {
    (seq![0xFDu8] + stuff_spec(frame_body_spec(counter, data))) + seq![0xFEu8]
}

/// What un-framing a received buffer yields: the opcode, status and data
/// region of a well-formed frame, or the protocol violation found.
pub open spec fn parse_spec(raw: Seq<u8>) -> Result<Seq<u8>, UemError> {
    match unstuff_spec(raw) {
        None => Err(parse_error_spec()),
        Some(d) => {
            if d.len() < 6 {
                Err(parse_error_spec())
            } else if d[0] != 0xFD {
                Err(parse_error_spec())
            } else if d[d.len() - 1] != 0xFE {
                Err(parse_error_spec())
            } else if crc16_spec(d.subrange(1, d.len() - 3))[0] != d[d.len() - 3] {
                Err(crc_error_spec())
            } else if crc16_spec(d.subrange(1, d.len() - 3))[1] != d[d.len() - 2] {
                Err(crc_error_spec())
            } else {
                Ok(d.subrange(3, d.len() - 3))
            }
        },
    }
}

/// The error reported for a malformed frame: a dangling escape, a missing
/// delimiter or a buffer too short to hold a frame at all.
pub open spec fn parse_error_spec() -> UemError {
    UemError::ReaderUnsuccessful(UemInternalError::Protocol, None)
}

/// The error reported for a frame whose checksum does not match its body.
pub open spec fn crc_error_spec() -> UemError {
    UemError::ReaderUnsuccessful(UemInternalError::Crc, None)
}

/// Build the outgoing frame for a raw command payload and advance the
/// sequence counter, wrapping from 255 back to 0.
pub fn prepare_command(counter: &mut u8, data: &[u8]) -> (frame: Vec<u8>)
    ensures
        frame@ == frame_spec(*old(counter), data@),
        *final(counter) == next_counter_spec(*old(counter)),
{
    let mut raw_data: Vec<u8> = Vec::new();
    raw_data.push(0x00);
    raw_data.push(*counter);
    if *counter == 0xFF {
        *counter = 0;
    } else {
        *counter = *counter + 1;
    }
    let mut i: usize = 0;
    while i < data.len()
        invariant
            i <= data@.len(),
            raw_data@ == seq![0u8, *old(counter)] + data@.take(i as int),
        decreases data@.len() - i,
    {
        raw_data.push(*slice_index_get(data, i));
        proof {
            assert(raw_data@ =~= seq![0u8, *old(counter)] + data@.take(i + 1));
        }
        i = i + 1;
    }
    proof {
        assert(data@.take(data@.len() as int) =~= data@);
    }
    let mut fsc = crc16(&raw_data);
    raw_data.append(&mut fsc);
    let stuffed = byte_stuff(&raw_data);
    let mut frame: Vec<u8> = Vec::new();
    frame.push(0xFD);
    let mut j: usize = 0;
    while j < stuffed.len()
        invariant
            j <= stuffed@.len(),
            frame@ == seq![0xFDu8] + stuffed@.take(j as int),
        decreases stuffed@.len() - j,
    {
        frame.push(stuffed[j]);
        proof {
            assert(frame@ =~= seq![0xFDu8] + stuffed@.take(j + 1));
        }
        j = j + 1;
    }
    proof {
        assert(stuffed@.take(stuffed@.len() as int) =~= stuffed@);
    }
    frame.push(0xFE);
    proof {
        assert(frame@ =~= frame_spec(*old(counter), data@));
    }
    frame
}

/// Un-stuff a received buffer, validate its delimiters and checksum, and
/// return the opcode, status and data region.
pub fn parse_response(raw_data: &Vec<u8>) -> (r: UemResultVec)
    ensures
        match r {
            Ok(data) => parse_spec(raw_data@) == Ok::<Seq<u8>, UemError>(data@),
            Err(e) => parse_spec(raw_data@) == Err::<Seq<u8>, UemError>(e),
        },
{
    let unstuffed = match unbyte_stuff(raw_data) {
        Some(d) => d,
        None => {
            return Err(UemError::ReaderUnsuccessful(UemInternalError::Protocol, None));
        },
    };
    let n = unstuffed.len();
    if n < 6 {
        return Err(UemError::ReaderUnsuccessful(UemInternalError::Protocol, None));
    }
    if unstuffed[0] != 0xFD {
        return Err(UemError::ReaderUnsuccessful(UemInternalError::Protocol, None));
    }
    if unstuffed[n - 1] != 0xFE {
        return Err(UemError::ReaderUnsuccessful(UemInternalError::Protocol, None));
    }
    let fsc = crc16_ex(&unstuffed, 1, n - 4);
    proof {
        assert(unstuffed@.subrange(1, 1 + (n - 4)) =~= unstuffed@.subrange(
            1,
            unstuffed@.len() - 3,
        ));
    }
    if fsc[0] != unstuffed[n - 3] {
        return Err(UemError::ReaderUnsuccessful(UemInternalError::Crc, None));
    }
    if fsc[1] != unstuffed[n - 2] {
        return Err(UemError::ReaderUnsuccessful(UemInternalError::Crc, None));
    }
    Ok(vec_subrange(&unstuffed, 3, n - 3))
}

/// What a transaction returns once a response payload has been un-framed:
/// the response must echo the command opcode and carry a zero status byte;
/// a non-zero status byte decodes to a device error, together with any
/// auxiliary diagnostic bytes that followed it.
pub open spec fn response_matches_spec(
    command: Seq<u8>,
    response: Seq<u8>,
    r: Result<Vec<u8>, UemError>,
) -> bool {
    if response.len() < 2 || response[0] != command[0] {
        r == Err::<Vec<u8>, UemError>(UemError::ReaderIncorrectResponse)
    } else if response[1] != 0 {
        if response.len() == 2 {
            r == Err::<Vec<u8>, UemError>(
                UemError::ReaderUnsuccessful(device_error_of_byte_spec(response[1]), None),
            )
        } else {
            r matches Err(UemError::ReaderUnsuccessful(code, Some(trailing))) && code
                == device_error_of_byte_spec(response[1]) && trailing@ == response.skip(2)
        }
    } else {
        r matches Ok(data) && data@ == response.skip(2)
    }
}

/// What a whole transaction returns, given how the raw write/read exchange
/// went: a failed write, a failed or impossibly short read, a malformed
/// frame, a wrong opcode echo and a device-reported status each map to
/// their own error; otherwise the response data bytes come back.
pub open spec fn transact_matches_spec(
    command: Seq<u8>,
    wrote: bool,
    read: Option<Seq<u8>>,
    r: Result<Vec<u8>, UemError>,
) -> bool {
    if !wrote {
        r == Err::<Vec<u8>, UemError>(UemError::NotTransacted)
    } else {
        match read {
            None => r == Err::<Vec<u8>, UemError>(UemError::ReaderResponseFailure),
            Some(raw) => {
                if raw.len() <= 6 {
                    r == Err::<Vec<u8>, UemError>(UemError::ReaderResponseFailure)
                } else {
                    match parse_spec(raw) {
                        Err(e) => r == Err::<Vec<u8>, UemError>(e),
                        Ok(response) => response_matches_spec(command, response, r),
                    }
                }
            },
        }
    }
}

/// The view of a raw read outcome: the bytes that arrived, if any did.
pub open spec fn read_view_spec(read: Option<Vec<u8>>) -> Option<Seq<u8>> {
    match read {
        Some(raw) => Some(raw@),
        None => None,
    }
}

/// Connection-state rule of `open`: a session that is already connected
/// cannot be opened again.
pub fn open_precheck(connected: bool) -> (r: UemResult)
    ensures
        connected ==> r == Err::<(), UemError>(UemError::ReaderAlreadyConnected),
        !connected ==> r == Ok::<(), UemError>(()),
{
    if connected {
        Err(UemError::ReaderAlreadyConnected)
    } else {
        Ok(())
    }
}

/// Connection-state rule of `close`: only a connected session can be
/// closed; a repeated close reports the session as not connected.
pub fn close_precheck(connected: bool) -> (r: UemResult)
    ensures
        !connected ==> r == Err::<(), UemError>(UemError::ReaderNotConnected),
        connected ==> r == Ok::<(), UemError>(()),
{
    if !connected {
        Err(UemError::ReaderNotConnected)
    } else {
        Ok(())
    }
}

/// Check the session state and build the frame for one command: the reader
/// must be connected and the command payload non-empty. On success the
/// sequence counter advances; a rejected command leaves it unchanged.
pub fn prepare_send(connected: bool, counter: &mut u8, command: &[u8]) -> (r: Result<
    Vec<u8>,
    UemError,
>)
    ensures
        !connected ==> r == Err::<Vec<u8>, UemError>(UemError::ReaderNotConnected)
            && *final(counter) == *old(counter),
        connected && command@.len() == 0 ==> r == Err::<Vec<u8>, UemError>(
            UemError::IncorrectParameter,
        ) && *final(counter) == *old(counter),
        connected && command@.len() > 0 ==> (r matches Ok(frame) && frame@ == frame_spec(
            *old(counter),
            command@,
        ) && *final(counter) == next_counter_spec(*old(counter))),
{
    if !connected {
        return Err(UemError::ReaderNotConnected);
    }
    if command.len() == 0 {
        return Err(UemError::IncorrectParameter);
    }
    Ok(prepare_command(counter, command))
}

/// Decide the result of one transaction from the raw outcome of the
/// write/read exchange: `wrote` says whether the frame reached the
/// transport, `read` holds the raw bytes that came back, if any. Every
/// decision that follows the exchange — length floor, un-framing, opcode
/// echo, status decoding — is made here.
pub fn transact_outcome(command: &[u8], wrote: bool, read: Option<Vec<u8>>) -> (r: UemResultVec)
    requires
        command@.len() > 0,
    ensures
        transact_matches_spec(command@, wrote, read_view_spec(read), r),
{
    if !wrote {
        return Err(UemError::NotTransacted);
    }
    let raw = match read {
        Some(raw) => raw,
        None => {
            return Err(UemError::ReaderResponseFailure);
        },
    };
    if raw.len() <= 6 {
        return Err(UemError::ReaderResponseFailure);
    }
    let response = match parse_response(&raw) {
        Ok(response) => response,
        Err(e) => {
            return Err(e);
        },
    };
    if response.len() < 2 || response[0] != *slice_index_get(command, 0) {
        return Err(UemError::ReaderIncorrectResponse);
    }
    if response[1] != 0 {
        let code = UemInternalError::from_byte(response[1]);
        if response.len() == 2 {
            return Err(UemError::ReaderUnsuccessful(code, None));
        }
        let trailing = vec_subrange(&response, 2, response.len());
        proof {
            assert(trailing@ =~= response@.skip(2));
        }
        return Err(UemError::ReaderUnsuccessful(code, Some(trailing)));
    }
    let data = vec_subrange(&response, 2, response.len());
    proof {
        assert(data@ =~= response@.skip(2));
    }
    Ok(data)
}

/// Frame round-trip law: un-framing a frame that [`prepare_command`] built
/// for a payload yields that payload again — the stuffing, the delimiters
/// and the checksum all validate.
pub proof fn lemma_frame_round_trip(counter: u8, data: Seq<u8>)
    ensures
        parse_spec(frame_spec(counter, data)) == Ok::<Seq<u8>, UemError>(data),
{
    let body = frame_body_spec(counter, data);
    let frame = frame_spec(counter, data);
    let pre = seq![0u8, counter] + data;
    let fsc = crc16_spec(pre);
    lemma_unstuff_stuff_prefix(body, seq![0xFEu8]);
    assert(frame[0] == 0xFD);
    assert(frame.skip(1) =~= stuff_spec(body) + seq![0xFEu8]);
    reveal_with_fuel(unstuff_spec, 2);
    assert(seq![0xFEu8].skip(1) =~= Seq::<u8>::empty());
    assert(unstuff_spec(seq![0xFEu8]) == Some(seq![0xFEu8] + Seq::<u8>::empty()));
    assert(seq![0xFEu8] + Seq::<u8>::empty() =~= seq![0xFEu8]);
    let d = seq![0xFDu8] + (body + seq![0xFEu8]);
    assert(unstuff_spec(frame) == Some(d));
    assert(d.len() == data.len() + 6);
    assert(d[0] == 0xFD);
    assert(d[d.len() - 1] == 0xFE);
    assert(d.subrange(1, d.len() - 3) =~= pre);
    assert(d[d.len() - 3] == fsc[0]);
    assert(d[d.len() - 2] == fsc[1]);
    assert(d.subrange(3, d.len() - 3) =~= data);
}

} // verus!
