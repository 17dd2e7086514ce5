//! Pidfile-based process supervision core.
//!
//! A pidfile records the identity of a monitored process in a fixed
//! seven-byte on-disk record. This crate holds the pieces that must be
//! bit-exact and race-aware: the record codec, the liveness probe, the
//! uptime computation, and the status query that composes them. File
//! I/O and command-line handling are thin glue that callers supply.

pub mod codec;
pub mod errors;

pub mod probe;
pub mod status;
pub mod uptime;
