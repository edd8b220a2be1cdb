//! The actor that watches for a device that went away.
pub mod actor;
pub mod hotplug;
pub mod persistence;
