//! The actor that owns the connection state.
//!
//! A handler changes the actor's state and says, as a [`turn::Turn`], what is to
//! be sent. A message that must arrive ends a turn: once it was sent, the rest of
//! the handler runs with a report of how the sending went.
pub mod actor;
pub mod behavior;
pub mod laws;
pub mod promises;
pub mod turn;
