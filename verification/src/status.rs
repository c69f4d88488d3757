//! Decoding of the device's status reply.
//!
//! A `GetStatus` command triggers a fixed 17-byte reply: three
//! little-endian float words (the P, I and D gains, kept here as bit
//! patterns), one little-endian `u32` (the feedback-loop sample time), and
//! one byte read as a boolean (nonzero means the feedback loop is on).

use vstd::prelude::*;
use crate::wire::{word_at, word_from_le};

verus! {

/// Bytes in a status reply: three float words, one `u32`, one flag byte.
pub const STATUS_SIZE: usize = 17;

/// The controller parameters the device reports. The three gains are
/// single-precision float bit patterns.
#[derive(Clone, Copy, Debug, PartialEq, Eq, Structural)]
pub struct Status {
    pub kp: u32,
    pub ki: u32,
    pub kd: u32,
    pub feedback_loop_sample_time: u32,
    pub feedback_enabled: bool,
}

/// The status encoded by a 17-byte reply.
pub open spec fn status_of(bytes: Seq<u8>) -> Status {
    Status {
        kp: word_at(bytes, 0),
        ki: word_at(bytes, 1),
        kd: word_at(bytes, 2),
        feedback_loop_sample_time: word_at(bytes, 3),
        feedback_enabled: bytes[16] != 0,
    }
}

impl Status {
    /// Decodes a status reply.
    pub fn from_bytes(bytes: [u8; STATUS_SIZE]) -> (s: Status)
        ensures
            s == status_of(bytes@),
    {
        let s = Status {
            kp: word_from_le(bytes[0], bytes[1], bytes[2], bytes[3]),
            ki: word_from_le(bytes[4], bytes[5], bytes[6], bytes[7]),
            kd: word_from_le(bytes[8], bytes[9], bytes[10], bytes[11]),
            feedback_loop_sample_time: word_from_le(bytes[12], bytes[13], bytes[14], bytes[15]),
            feedback_enabled: bytes[16] != 0,
        };
        s
    }
}

} // verus!
