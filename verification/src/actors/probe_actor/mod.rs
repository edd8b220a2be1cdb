//! The actor that detects a port's baud rate, framing and protocol.
pub mod actor;
pub mod classifier;
pub mod gathering;
