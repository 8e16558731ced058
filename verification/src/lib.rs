//! Host-side driver for the Robotis Dynamixel protocol v2: packet
//! construction and parsing with CRC-16/BUYPASS, and a blocking
//! request/response controller over a byte-oriented serial transport.

use vstd::prelude::*;

pub mod error;
pub mod motors;
pub mod protocol;
pub mod transport;

pub use protocol::v2::ControllerV2;

use protocol::v2::DEFAULT_TIMEOUT_MS;
use transport::{Clock, SerialRead, SerialWrite};

verus! {

/// Create a controller for the Dynamixel protocol v2 using a serial
/// receive endpoint, a transmit endpoint and a clock.
pub fn with_protocol_v2<RX: SerialRead, TX: SerialWrite, CLOCK: Clock>(
    rx: RX,
    tx: TX,
    clock: CLOCK,
) -> (r: ControllerV2<RX, TX, CLOCK>)
    ensures
        r.spec_timeout() == DEFAULT_TIMEOUT_MS,
{
    ControllerV2::new(rx, tx, clock)
}

} // verus!
