//! Client-side core of a remote motor-control protocol: request opcodes,
//! little-endian wire encoding, the telemetry codec, the acquisition
//! session scripts, and the frequency-sweep state machine.
//!
//! Channel values travel on the wire as IEEE 754 single-precision floats;
//! this crate handles them as their 32-bit patterns, leaving numeric
//! interpretation to the caller.

pub mod acquire;
pub mod requests;
pub mod session;
pub mod status;
pub mod sweep;
pub mod wire;
