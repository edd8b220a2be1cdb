//! What the user interface and the connection actors say to each other.
pub mod errors;
pub mod messages;
pub mod state;
