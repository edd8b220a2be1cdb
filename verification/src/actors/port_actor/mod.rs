//! Opening, closing, reading and writing the port.
pub mod framing;
pub mod actor;
pub mod read_loop;
pub mod turn;
