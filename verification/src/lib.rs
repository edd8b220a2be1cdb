//! Verified core of a serial terminal: framing, decoding, connection
//! management and the local bridge that reaches serial ports over a socket.
pub mod actors;
pub mod analysis;
pub mod bridge;
pub mod browser;
pub mod decoders;
pub mod encoding;
pub mod float;
pub mod framing;
pub mod json;
pub mod protocol;
pub mod runtime;
pub mod text;
pub mod transport;
pub mod types;
