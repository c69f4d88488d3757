//! The computational half of an acquisition session.
//!
//! A session connects to the device, sends a scripted command sequence,
//! half-closes, drains the fixed-length telemetry reply, and decodes it.
//! The connection itself belongs to the caller; this module builds the
//! exact outbound byte script, the excitation payload, the expected reply
//! length, and the decision taken after each read of the drain loop.

use vstd::prelude::*;
use crate::requests::{Request, opcode};
use crate::wire::{le_bytes, word_at, push_le_bytes, lemma_le_round_trip};

verus! {

/// A configuration mistake that must abort a session before the device is
/// contacted. It is never retried.
#[derive(Clone, Copy, Debug, PartialEq, Eq, Structural)]
pub enum AcquireError {
    /// The acquisition duration is shorter than the sample period, so the
    /// negotiated sample count would be zero.
    ZeroSampleCount,
}

/// Derives the sample count from the acquisition duration and the sample
/// period (both in microseconds) by truncating division; a zero count is
/// a fatal configuration error.
pub fn sample_count_for(acquire_duration: u32, sample_time: u32) -> (r: Result<
    u32,
    AcquireError,
>)
    requires
        sample_time > 0,
    ensures
        r == (if acquire_duration as int / sample_time as int == 0 {
            Result::<u32, AcquireError>::Err(AcquireError::ZeroSampleCount)
        } else {
            Result::<u32, AcquireError>::Ok(acquire_duration / sample_time)
        }),
{
    let sample_count: u32 = acquire_duration / sample_time;
    if sample_count == 0 {
        Err(AcquireError::ZeroSampleCount)
    } else {
        Ok(sample_count)
    }
}

/// The little-endian byte image of a word sequence: the wire form of an
/// input-speed payload.
pub open spec fn payload_bytes(words: Seq<u32>) -> Seq<u8>
    decreases words.len(),
{
    if words.len() == 0 {
        Seq::<u8>::empty()
    } else {
        payload_bytes(words.drop_last()) + le_bytes(words.last())
    }
}

pub proof fn lemma_payload_len(words: Seq<u32>)
    ensures
        payload_bytes(words).len() == 4 * words.len(),
    decreases words.len(),
{
    if words.len() > 0 {
        lemma_payload_len(words.drop_last());
    }
}

/// Each word of a payload reads back unchanged from its byte image.
pub proof fn lemma_payload_word_at(words: Seq<u32>, i: int)
    requires
        0 <= i < words.len(),
    ensures
        word_at(payload_bytes(words), i) == words[i],
    decreases words.len(),
{
    lemma_payload_len(words.drop_last());
    if i == words.len() - 1 {
        lemma_le_round_trip(words.last());
        assert(payload_bytes(words)[4 * i] == le_bytes(words.last())[0]);
        assert(payload_bytes(words)[4 * i + 1] == le_bytes(words.last())[1]);
        assert(payload_bytes(words)[4 * i + 2] == le_bytes(words.last())[2]);
        assert(payload_bytes(words)[4 * i + 3] == le_bytes(words.last())[3]);
    } else {
        lemma_payload_word_at(words.drop_last(), i);
    }
}

/// Serialises an input-speed payload: each word as four little-endian
/// bytes, in order.
pub fn input_speed_payload(words: &Vec<u32>) -> (r: Vec<u8>)
    ensures
        r@ == payload_bytes(words@),
        r@.len() == 4 * words@.len(),
{
    let mut r: Vec<u8> = Vec::new();
    let mut i: usize = 0;
    while i < words.len()
        invariant
            i <= words@.len(),
            r@ == payload_bytes(words@.take(i as int)),
        decreases words@.len() - i,
    {
        push_le_bytes(&mut r, words[i]);
        proof {
            assert(words@.take(i + 1).drop_last() =~= words@.take(i as int));
            assert(words@.take(i + 1).last() == words@[i as int]);
        }
        i = i + 1;
    }
    proof {
        assert(words@.take(words@.len() as int) =~= words@);
        lemma_payload_len(words@);
    }
    r
}

/// Shape of a transmitted excitation: the last two entries of the
/// flattened array are forced to the zero word (the bit pattern of 0.0,
/// the safety-stop convention), every earlier entry carries `value`.
pub open spec fn step_shape(value: u32, words: Seq<u32>) -> bool {
    &&& forall|i: int| 0 <= i < words.len() - 2 ==> words[i] == value
    &&& words[words.len() - 2] == 0u32
    &&& words[words.len() - 1] == 0u32
}

/// Forces the last two entries of an excitation array to the zero word.
///
/// This safety stop is applied uniformly to every excitation, whatever
/// waveform produced the array.
pub fn apply_safety_stop(input: &mut Vec<u32>)
    requires
        old(input)@.len() >= 2,
    ensures
        final(input)@ == old(input)@.update(old(input)@.len() - 2, 0u32).update(
            old(input)@.len() - 1,
            0u32,
        ),
{
    let n: usize = input.len();
    input.set(n - 2, 0);
    input.set(n - 1, 0);
}

/// Builds a step (constant) excitation of `value` over `input_size`
/// flattened entries, with the safety stop applied.
pub fn step_excitation(value: u32, input_size: usize) -> (r: Vec<u32>)
    requires
        input_size >= 2,
    ensures
        r@.len() == input_size,
        step_shape(value, r@),
{
    let mut r: Vec<u32> = Vec::new();
    let mut i: usize = 0;
    while i < input_size
        invariant
            i <= input_size,
            r@.len() == i,
            forall|k: int| 0 <= k < i ==> r@[k] == value,
        decreases input_size - i,
    {
        r.push(value);
        i = i + 1;
    }
    apply_safety_stop(&mut r);
    r
}

/// Round-trip law: the byte payload of a step excitation reads back as
/// the step value at every index except the final two, which read back as
/// the zero word.
pub proof fn lemma_step_payload_round_trip(value: u32, words: Seq<u32>)
    requires
        words.len() >= 2,
        step_shape(value, words),
    ensures
        forall|i: int|
            0 <= i < words.len() - 2 ==> word_at(payload_bytes(words), i) == value,
        word_at(payload_bytes(words), words.len() - 2) == 0u32,
        word_at(payload_bytes(words), words.len() - 1) == 0u32,
{
    assert forall|i: int| 0 <= i < words.len() - 2 implies word_at(payload_bytes(words), i)
        == value by {
        lemma_payload_word_at(words, i);
        assert(words[i] == value);
    }
    lemma_payload_word_at(words, words.len() - 2);
    lemma_payload_word_at(words, words.len() - 1);
}

/// The full outbound byte script of one acquisition: sample count,
/// acquisition sample rate, input-speed payload, then the launch command.
pub open spec fn acquisition_script_bytes(
    sample_count: u32,
    sample_time: u32,
    motor_input: Seq<u32>,
) -> Seq<u8> {
    seq![opcode(Request::SetSampleCount)] + le_bytes(sample_count)
        + seq![opcode(Request::SetAcqSampleRate)] + le_bytes(sample_time)
        + seq![opcode(Request::SetInputSpeed)] + payload_bytes(motor_input)
        + seq![opcode(Request::LaunchAq)]
}

/// Builds the outbound byte script of one acquisition. After writing it,
/// the caller half-closes the connection and drains the reply.
pub fn acquisition_script(sample_count: u32, sample_time: u32, motor_input: &Vec<u32>) -> (r:
    Vec<u8>)
    ensures
        r@ == acquisition_script_bytes(sample_count, sample_time, motor_input@),
{
    let mut r: Vec<u8> = Vec::new();
    r.push(Request::SetSampleCount.value());
    push_le_bytes(&mut r, sample_count);
    r.push(Request::SetAcqSampleRate.value());
    push_le_bytes(&mut r, sample_time);
    r.push(Request::SetInputSpeed.value());
    let mut payload = input_speed_payload(motor_input);
    r.append(&mut payload);
    r.push(Request::LaunchAq.value());
    assert(r@ =~= acquisition_script_bytes(sample_count, sample_time, motor_input@));
    r
}

/// The telemetry reply to expect: 32 bytes per sample (eight float words).
pub fn expected_response_len(sample_count: u32) -> (r: usize)
    requires
        sample_count as int * 32 <= usize::MAX as int,
    ensures
        r as int == sample_count as int * 32,
{
    (sample_count as usize) * 32
}

/// What the drain loop does after one read.
#[derive(Clone, Copy, Debug, PartialEq, Eq, Structural)]
pub enum DrainStep {
    /// The buffer has reached the expected length; decode it.
    Complete,
    /// The target is unmet and bytes arrived; keep reading.
    NeedMore,
    /// The target is unmet but the last read returned nothing: the peer
    /// closed early, a fatal session error.
    PeerClosedEarly,
}

/// Decides the next step of the drain loop from the bytes buffered so
/// far, the expected total, and the size of the last read.
pub fn drain_status(buffered: usize, expected: usize, last_read: usize) -> (r: DrainStep)
    ensures
        buffered >= expected ==> r == DrainStep::Complete,
        buffered < expected && last_read == 0 ==> r == DrainStep::PeerClosedEarly,
        buffered < expected && last_read > 0 ==> r == DrainStep::NeedMore,
{
    if buffered >= expected {
        DrainStep::Complete
    } else if last_read == 0 {
        DrainStep::PeerClosedEarly
    } else {
        DrainStep::NeedMore
    }
}

/// The optional controller parameters of one `set` command.
#[derive(Clone, Copy, Debug, PartialEq, Eq, Structural)]
pub struct SetParams {
    /// Proportional gain, as a float bit pattern.
    pub proportional: Option<u32>,
    /// Integral gain, as a float bit pattern.
    pub integral: Option<u32>,
    /// Derivative gain, as a float bit pattern.
    pub derivative: Option<u32>,
    /// Feedback-loop sample time in microseconds.
    pub feedback_sample_time: Option<u32>,
    /// Feedback-loop enable flag byte.
    pub feedback_enabled: Option<u8>,
}

/// The frame of one optional word-valued parameter: nothing when absent,
/// opcode plus little-endian word when present.
pub open spec fn word_frame(req: Request, v: Option<u32>) -> Seq<u8> {
    match v {
        Option::None => Seq::<u8>::empty(),
        Option::Some(x) => seq![opcode(req)] + le_bytes(x),
    }
}

/// The frame of the optional feedback-enable flag.
pub open spec fn flag_frame(v: Option<u8>) -> Seq<u8> {
    match v {
        Option::None => Seq::<u8>::empty(),
        Option::Some(b) => seq![opcode(Request::SetFeedback), b],
    }
}

/// The outbound byte script of one `set` command: one frame per present
/// parameter, in the fixed order P, I, D, feedback sample rate, feedback
/// enable.
pub open spec fn set_script_bytes(p: SetParams) -> Seq<u8> {
    word_frame(Request::SetP, p.proportional) + word_frame(Request::SetI, p.integral)
        + word_frame(Request::SetD, p.derivative) + word_frame(
        Request::SetFeedbackSampleRate,
        p.feedback_sample_time,
    ) + flag_frame(p.feedback_enabled)
}

/// Builds the outbound byte script of one `set` command.
pub fn set_script(p: &SetParams) -> (r: Vec<u8>)
    ensures
        r@ == set_script_bytes(*p),
{
    let mut r: Vec<u8> = Vec::new();
    if let Some(kp) = p.proportional {
        r.push(Request::SetP.value());
        push_le_bytes(&mut r, kp);
    }
    if let Some(ki) = p.integral {
        r.push(Request::SetI.value());
        push_le_bytes(&mut r, ki);
    }
    if let Some(kd) = p.derivative {
        r.push(Request::SetD.value());
        push_le_bytes(&mut r, kd);
    }
    if let Some(t) = p.feedback_sample_time {
        r.push(Request::SetFeedbackSampleRate.value());
        push_le_bytes(&mut r, t);
    }
    if let Some(b) = p.feedback_enabled {
        r.push(Request::SetFeedback.value());
        r.push(b);
    }
    assert(r@ =~= set_script_bytes(*p));
    r
}

} // verus!
