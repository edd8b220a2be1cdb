//! Auto-detection. Confidences are bit patterns of double-precision values.
use vstd::prelude::*;

verus! {

/// How often a port is tried at each baud rate.
pub const PORT_OPEN_MAX_RETRIES: u8 = 5;

/// How long to wait for the first data, in milliseconds.
pub const INITIAL_READ_TIMEOUT_MS: u64 = 150;

/// How long to wait altogether once data has come, in milliseconds.
pub const EXTENDED_READ_TIMEOUT_MS: u64 = 250;

/// The pause between two attempts to open a port, in milliseconds.
pub const PORT_OPEN_RETRY_DELAY_MS: u64 = 200;

/// The least confidence that counts as a signal: 0.3.
pub const MIN_CONFIDENCE: u64 = 0x3FD3_3333_3333_3333;

/// The confidence above which enough data ends the search: 0.99.
pub const PERFECT_MATCH_THRESHOLD: u64 = 0x3FEF_AE14_7AE1_47AE;

/// The confidence above which the search ends from a million baud on: 0.85.
pub const HIGH_SPEED_THRESHOLD: u64 = 0x3FEB_3333_3333_3333;

/// The confidence above which the search ends at lower rates: 0.98.
pub const STANDARD_THRESHOLD: u64 = 0x3FEF_5C28_F5C2_8F5C;

/// The confidence in text above which reading may end early: 0.9.
pub const TEXT_THRESHOLD: u64 = 0x3FEC_CCCC_CCCC_CCCD;

/// How much data a high confidence takes: more than this many bytes.
pub const MIN_BUFFER_FOR_HIGH_CONFIDENCE: usize = 64;

/// How much data is collected at each baud rate: reading ends above this.
pub const MAX_BUFFER_SIZE: usize = 200;

/// How many bytes make the right baud rate likely.
pub const MIN_BYTES_FOR_EARLY_EXIT: usize = 10;

} // verus!
