//! The decoder contract: the abstraction a connection worker feeds with raw
//! bytes, implemented by callers for their own wire protocols.

use vstd::prelude::*;

verus! {

/// The outcome of one socket read, as handed to a decoder.
#[derive(Clone, Copy, PartialEq, Eq, Structural, Debug)]
pub enum ReadOutcome {
    /// The read completed and filled this many leading bytes of the buffer.
    Read(usize),
    /// The read failed.
    Failed,
}

/// A resumable byte-stream decoder. A connection worker calls
/// `parse_and_dispatch` once per completed socket read, with the read buffer
/// and the read's outcome. An implementation must not block, must not keep
/// access to the buffer beyond the call, and must keep enough state between
/// calls that a record boundary split across two reads is still recognized.
/// It may emit zero or more fully decoded messages per call, in the order
/// they are discovered, each handed to an output queue of its own choosing.
pub trait ParserDispatcher {
    /// The fully decoded message type this decoder emits.
    type Message;

    fn parse_and_dispatch(&mut self, buf: &Vec<u8>, sz: ReadOutcome)
        requires
            sz matches ReadOutcome::Read(n) ==> n <= buf@.len(),
    ;
}

} // verus!
