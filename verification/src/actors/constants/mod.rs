//! Timings, retries and thresholds of the connection actors.
use vstd::prelude::*;

pub mod port;
pub mod probe;
pub mod reconnect;

verus! {

/// The baud rates that auto-detection tries, in this order: the most common one,
/// then high speeds, then older ones.
pub const BAUD_CANDIDATES: [u32; 11] = [
    115200, 1500000, 1000000, 2000000, 921600, 57600, 460800, 230400, 38400, 19200, 9600,
];

} // verus!
