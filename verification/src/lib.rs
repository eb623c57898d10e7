//! A library for assembling point-in-time snapshots of host system metrics.
//!
//! The host's metric interfaces (CPU load, memory counters, disk volumes,
//! temperature sensors) are read through the `sysinfo` crate; everything the
//! snapshot does with those readings — unit conversion and assembly into the
//! fixed response shape — is verified here.

pub mod collector;
pub mod snapshot;
pub mod stats;
