//! The transports of a browser: its own serial ports, and the bridge.
pub mod webserial;
pub mod websocket;
