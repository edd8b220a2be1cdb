//! What the actors exchange, and how they are routed and supervised.
pub mod actor;
pub mod channels;
pub mod debug;
pub mod supervision;
