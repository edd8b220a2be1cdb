//! Watching for a device that went away.
use vstd::prelude::*;

verus! {

/// How often the device is looked for.
pub const MAX_RETRIES: u32 = 5;

/// The pause before the first look, in milliseconds.
pub const INITIAL_DELAY_MS: u64 = 50;

/// How long the device is looked for altogether, in milliseconds.
pub const GLOBAL_TIMEOUT_MS: u64 = 5000;

/// The attempt from which on another device counts as a swap: by then interfaces
/// that enumerate slowly have shown up.
pub const DEVICE_SWAP_CHECK_ATTEMPT: u32 = 3;

} // verus!
