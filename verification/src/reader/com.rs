//! COM port reader interface (RS232/485). Not implemented: every operation
//! is a stub and discovery finds no readers.

use crate::errors::UemError;
use crate::reader::{UemReaderInternalTrait, UemResult, UemResultVec};
use vstd::prelude::*;

verus! {

#[derive(Debug)]
/// Placeholder reader on a serial port.
pub struct ReaderRs {
    /// Transceive timeout, in milliseconds.
    timeout_ms: u64,
    /// Port number of the reader.
    port: u8,
    /// Sequence counter for prepared commands.
    ncommand: u8,
}

impl ReaderRs {
    /// Open the COM interface.
    pub fn open(&mut self) -> (r: UemResult)
        ensures
            r == Ok::<(), UemError>(()),
    {
        Ok(())
    }

    /// Close the opened COM interface.
    pub fn close(&mut self) -> (r: UemResult)
        ensures
            r == Ok::<(), UemError>(()),
    {
        Ok(())
    }

    /// Send a command to the reader and receive a response.
    pub fn send(&mut self, _command: &[u8]) -> (r: UemResultVec)
        ensures
            r matches Ok(data) && data@ == Seq::<u8>::empty(),
    {
        Ok(Vec::new())
    }
}

impl UemReaderInternalTrait for ReaderRs {
    fn open(&mut self) -> UemResult {
        ReaderRs::open(self)
    }

    fn close(&mut self) -> UemResult {
        ReaderRs::close(self)
    }

    fn send(&mut self, command: &[u8]) -> UemResultVec {
        ReaderRs::send(self, command)
    }
}

/// Searches the system for readers on COM ports. The serial transport is
/// not implemented, so none are ever found.
pub fn find_rs_readers() -> (readers: Vec<ReaderRs>)
    ensures
        readers@.len() == 0,
{
    Vec::new()
}

} // verus!
