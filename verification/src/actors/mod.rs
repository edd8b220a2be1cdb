//! The connection actors: pure state machines that say what is to be done.
pub mod backoff;
pub mod constants;
pub mod data_processing;
pub mod port_actor;
pub mod probe_actor;
pub mod reconnect_actor;
pub mod state_actor;
