//! The capabilities the controller consumes: a nonblocking byte-oriented
//! serial line and a monotonic millisecond clock. Concrete endpoints
//! implement these outside the library.

use vstd::prelude::*;

verus! {

/// Nonblocking byte fetch from the serial line: `Some` when a byte is
/// ready, `None` when the line has nothing yet.
pub trait SerialRead {
    /// Polls the line once for a byte.
    fn read(&mut self) -> Option<u8>;
}

/// Byte push onto the serial line. The push may busy-loop on readiness
/// inside the endpoint; transmit failures cannot occur, the line either
/// takes the byte or is not ready yet.
pub trait SerialWrite {
    /// Pushes one byte, blocking until the line has accepted it.
    fn write(&mut self, b: u8);
}

/// A monotonic clock read in milliseconds.
pub trait Clock {
    /// The current time in milliseconds.
    fn now_ms(&mut self) -> u64;
}

} // verus!
