//! The closed set of device commands and their single-byte opcodes.
//!
//! The opcode values are a permanent wire contract: they are fixed here,
//! explicitly and exhaustively, and must never be reassigned.

use vstd::prelude::*;

verus! {

/// A command the client can send to the device.
#[derive(Clone, Copy, Debug, PartialEq, Eq, Structural)]
pub enum Request {
    SetSampleCount,
    SetAcqSampleRate,
    SetInputSpeed,
    LaunchAq,
    SetFeedbackSampleRate,
    SetP,
    SetI,
    SetD,
    GetStatus,
    SetFeedback,
}

/// The wire opcode of each command.
pub open spec fn opcode(r: Request) -> u8 {
    match r {
        Request::SetSampleCount => 0x00,
        Request::SetAcqSampleRate => 0x01,
        Request::SetInputSpeed => 0x02,
        Request::LaunchAq => 0x03,
        Request::SetFeedbackSampleRate => 0x04,
        Request::SetP => 0x05,
        Request::SetI => 0x06,
        Request::SetD => 0x07,
        Request::GetStatus => 0x08,
        Request::SetFeedback => 0x09,
    }
}

impl Request {
    /// Returns the single-byte wire value of this command.
    pub fn value(&self) -> (v: u8)
        ensures
            v == opcode(*self),
    {
        match *self {
            Request::SetSampleCount => 0x00,
            Request::SetAcqSampleRate => 0x01,
            Request::SetInputSpeed => 0x02,
            Request::LaunchAq => 0x03,
            Request::SetFeedbackSampleRate => 0x04,
            Request::SetP => 0x05,
            Request::SetI => 0x06,
            Request::SetD => 0x07,
            Request::GetStatus => 0x08,
            Request::SetFeedback => 0x09,
        }
    }
}

} // verus!
