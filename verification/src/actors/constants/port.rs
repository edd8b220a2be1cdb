//! Opening and closing a port.
use vstd::prelude::*;

verus! {

/// How often a port is tried before giving up.
pub const MAX_OPEN_RETRIES: u32 = 10;

/// The pause after closing a port, in milliseconds: drivers need it to release
/// their locks.
pub const CLOSE_COOLDOWN_MS: u64 = 50;

/// The pause after opening a port, in milliseconds: bridges need it to start up.
pub const STABILIZATION_MS: u64 = 100;

/// The byte that wakes a device up: a carriage return, at which a shell shows its prompt.
pub const WAKE_UP_BYTE: u8 = 0x0D;

/// How long the read loop may take to end, in milliseconds.
pub const CLEANUP_TIMEOUT_MS: u64 = 500;

} // verus!
