//! Decoders: what frames mean.
pub mod hex;
pub mod mavlink;
pub mod nmea;
pub mod utf8;
