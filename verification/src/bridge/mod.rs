//! The local bridge daemon: a socket server that reaches serial ports.
pub mod certificate;
pub mod protocol;
pub mod serial;
pub mod server;
pub mod tls;
