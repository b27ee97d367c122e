//! Decisions of the byte-by-byte serial receive loops. The loops themselves
//! (a read of one byte under a timeout) run where the ports are; they hand
//! each outcome to the functions here and do what these say.
use vstd::prelude::*;

use crate::errors::Error;

verus! {

/// The outcome of one attempt to read one byte under a timeout.
#[derive(Debug, Clone, Copy, PartialEq, Eq, Structural)]
pub enum ReadEvent {
    /// Nothing arrived before the timeout.
    Timeout,
    /// The port reported an error.
    Failed,
    /// The read returned `count` bytes; `byte` is the first of them when `count > 0`.
    Data(usize, u8),
}

/// What a receive loop does with one read outcome.
#[derive(Debug, Clone, Copy, PartialEq, Eq, Structural)]
pub enum RxAction {
    /// Append the byte to the buffer and read again.
    Store(u8),
    /// Read again without storing anything.
    Skip,
    /// Stop receiving.
    Stop,
}

/// The result of reading a single byte from the radio module's port.
pub fn read_byte_result(ev: ReadEvent) -> (r: Result<u8, Error>)
    ensures
        r == (match ev {
            ReadEvent::Timeout => Err::<u8, Error>(Error::Timeout),
            ReadEvent::Failed => Err::<u8, Error>(Error::E220ReadErr),
            ReadEvent::Data(count, b) => if count > 0 {
                Ok::<u8, Error>(b)
            } else {
                Err::<u8, Error>(Error::E220ReadErr)
            },
        }),
{
    match ev {
        ReadEvent::Timeout => Err(Error::Timeout),
        ReadEvent::Failed => Err(Error::E220ReadErr),
        ReadEvent::Data(count, b) => {
            if count > 0 {
                Ok(b)
            } else {
                Err(Error::E220ReadErr)
            }
        },
    }
}

/// Whether a loop that throws away stale input keeps reading: only while
/// bytes (or empty reads) keep coming; a timeout or an error ends it.
pub fn drain_continues(ev: ReadEvent) -> (r: bool)
    ensures
        r == ev is Data,
{
    match ev {
        ReadEvent::Timeout => false,
        ReadEvent::Failed => false,
        ReadEvent::Data(_, _) => true,
    }
}

} // verus!
