//! The telemetry codec: reconstructing time-stamped samples from the raw
//! byte stream the device returns after an acquisition.
//!
//! The stream is a flat array of little-endian 32-bit float words, eight
//! per time step (four channels for each of the two motors). Each group of
//! eight words becomes one [`Sample`]; the i-th group is stamped with the
//! elapsed time `sample_time * i` in microseconds. Trailing bytes that do
//! not fill a whole group are dropped silently: that leniency is a design
//! choice of the protocol, not an error.
//!
//! Channel values are kept as IEEE 754 bit patterns (`u32`); callers that
//! need the numeric value reinterpret the bits.

use vstd::prelude::*;
use vstd::string::StringExecFns;
use crate::wire::{word_at, read_word_at};

verus! {

/// Motors reporting in each sample group.
pub const MOTOR_COUNT: usize = 2;

/// Channels reported per motor in each sample group.
pub const ACQ_BLOCK_SIZE: usize = 4;

/// One decoded time step: four channels for each motor, in wire order,
/// each a single-precision float bit pattern.
#[derive(Clone, Copy, Debug, PartialEq, Eq, Structural)]
pub struct Sample {
    pub motor_1_input_speed: u32,
    pub motor_1_speed: u32,
    pub motor_1_error: u32,
    pub motor_1_input: u32,
    pub motor_2_input_speed: u32,
    pub motor_2_speed: u32,
    pub motor_2_error: u32,
    pub motor_2_input: u32,
}

/// The sample encoded by the g-th group of eight words of `bytes`.
pub open spec fn sample_at(bytes: Seq<u8>, g: int) -> Sample {
    Sample {
        motor_1_input_speed: word_at(bytes, 8 * g),
        motor_1_speed: word_at(bytes, 8 * g + 1),
        motor_1_error: word_at(bytes, 8 * g + 2),
        motor_1_input: word_at(bytes, 8 * g + 3),
        motor_2_input_speed: word_at(bytes, 8 * g + 4),
        motor_2_speed: word_at(bytes, 8 * g + 5),
        motor_2_error: word_at(bytes, 8 * g + 6),
        motor_2_input: word_at(bytes, 8 * g + 7),
    }
}

impl Sample {
    /// Builds a sample from its eight channel words in wire order.
    pub fn from_floats(floats: [u32; 8]) -> (s: Sample)
        ensures
            s.motor_1_input_speed == floats@[0],
            s.motor_1_speed == floats@[1],
            s.motor_1_error == floats@[2],
            s.motor_1_input == floats@[3],
            s.motor_2_input_speed == floats@[4],
            s.motor_2_speed == floats@[5],
            s.motor_2_error == floats@[6],
            s.motor_2_input == floats@[7],
    {
        Sample {
            motor_1_input_speed: floats[0],
            motor_1_speed: floats[1],
            motor_1_error: floats[2],
            motor_1_input: floats[3],
            motor_2_input_speed: floats[4],
            motor_2_speed: floats[5],
            motor_2_error: floats[6],
            motor_2_input: floats[7],
        }
    }
}

/// One full acquisition: samples in acquisition order, each stamped with
/// its elapsed time in microseconds.
pub struct AcqResult {
    pub samples: Vec<(u64, Sample)>,
}

/// `r` is the decoding of `bytes` at sample period `sample_time`
/// (microseconds): one sample per whole 32-byte group, in buffer order,
/// the g-th stamped `sample_time * g`.
pub open spec fn decodes(sample_time: u32, bytes: Seq<u8>, r: AcqResult) -> bool {
    &&& r.samples@.len() == bytes.len() as int / 32
    &&& forall|g: int|
        0 <= g < r.samples@.len() ==> (#[trigger] r.samples@[g]).0 as int == sample_time as int
            * g
    &&& forall|g: int|
        0 <= g < r.samples@.len() ==> (#[trigger] r.samples@[g]).1 == sample_at(bytes, g)
}

impl AcqResult {
    /// Decodes a raw telemetry buffer.
    ///
    /// Trailing bytes beyond the last whole 32-byte group are ignored.
    ///
    /// The precondition only rules out time stamps beyond what a `u64`
    /// of microseconds can hold.
    pub fn from_bytes(sample_time: u32, bytes: &[u8]) -> (r: AcqResult)
        requires
            sample_time as int * (bytes@.len() as int / 32) <= u64::MAX as int,
        ensures
            decodes(sample_time, bytes@, r),
    {
        let n_bytes: usize = bytes.len();
        let n: usize = n_bytes / 32;
        let mut samples: Vec<(u64, Sample)> = Vec::new();
        let mut g: usize = 0;
        while g < n
            invariant
                g <= n,
                bytes@.len() <= usize::MAX,
                n == bytes@.len() as int / 32,
                sample_time as int * (n as int) <= u64::MAX as int,
                samples@.len() == g,
                forall|k: int|
                    0 <= k < g ==> (#[trigger] samples@[k]).0 as int == sample_time as int * k,
                forall|k: int|
                    0 <= k < g ==> (#[trigger] samples@[k]).1 == sample_at(bytes@, k),
            decreases n - g,
        {
            assert(32 * (g + 1) <= 32 * n <= bytes@.len());
            let w: usize = 8 * g;
            let words: [u32; 8] = [
                read_word_at(bytes, w),
                read_word_at(bytes, w + 1),
                read_word_at(bytes, w + 2),
                read_word_at(bytes, w + 3),
                read_word_at(bytes, w + 4),
                read_word_at(bytes, w + 5),
                read_word_at(bytes, w + 6),
                read_word_at(bytes, w + 7),
            ];
            let s = Sample::from_floats(words);
            proof {
                assert(sample_time as int * (g as int) <= sample_time as int * (n as int))
                    by (nonlinear_arith)
                    requires
                        0 <= sample_time,
                        0 <= g <= n,
                ;
            }
            let t: u64 = sample_time as u64 * g as u64;
            samples.push((t, s));
            assert(s == sample_at(bytes@, g as int));
            g = g + 1;
        }
        AcqResult { samples }
    }
}

/// Time-grid law: a buffer of exactly `32 * n` bytes decodes to exactly
/// `n` samples, stamped `0, p, 2p, ..., (n - 1) * p` in order for sample
/// period `p`.
pub proof fn lemma_decode_time_grid(sample_time: u32, bytes: Seq<u8>, n: int, a: AcqResult)
    requires
        0 <= n,
        bytes.len() == 32 * n,
        decodes(sample_time, bytes, a),
    ensures
        a.samples@.len() == n,
        forall|g: int|
            0 <= g < n ==> (#[trigger] a.samples@[g]).0 as int == sample_time as int * g,
{
    vstd::arithmetic::div_mod::lemma_fundamental_div_mod_converse(
        bytes.len() as int,
        32,
        n,
        0,
    );
}

/// Decoding is pure: a sample period and a byte buffer admit exactly one
/// decoded result, so identical inputs always yield identical samples.
pub proof fn lemma_decode_deterministic(
    sample_time: u32,
    bytes: Seq<u8>,
    a: AcqResult,
    b: AcqResult,
)
    requires
        decodes(sample_time, bytes, a),
        decodes(sample_time, bytes, b),
    ensures
        a.samples@ == b.samples@,
{
    assert forall|g: int| 0 <= g < a.samples@.len() implies a.samples@[g] == b.samples@[g] by {
        assert(a.samples@[g].0 == b.samples@[g].0);
        assert(a.samples@[g].1 == b.samples@[g].1);
    }
    assert(a.samples@ =~= b.samples@);
}

/// Truncation law: a buffer of length `32 * n + r` with `0 <= r < 32`
/// decodes to exactly what its first `32 * n` bytes decode to.
pub proof fn lemma_decode_truncation(sample_time: u32, bytes: Seq<u8>, n: int, r: int)
    requires
        0 <= n,
        0 <= r < 32,
        bytes.len() == 32 * n + r,
    ensures
        forall|a: AcqResult|
            decodes(sample_time, bytes, a) <==> decodes(
                sample_time,
                bytes.take(32 * n),
                a,
            ),
{
    vstd::arithmetic::div_mod::lemma_fundamental_div_mod_converse(
        bytes.len() as int,
        32,
        n,
        r,
    );
    assert(bytes.len() as int / 32 == n);
    assert(bytes.take(32 * n).len() as int / 32 == n) by {
        vstd::arithmetic::div_mod::lemma_fundamental_div_mod_converse(32 * n, 32, n, 0);
    }
    assert forall|g: int| 0 <= g < n implies sample_at(bytes, g) == sample_at(
        bytes.take(32 * n),
        g,
    ) by {
        assert forall|w: int| 8 * g <= w < 8 * g + 8 implies word_at(bytes, w) == word_at(
            bytes.take(32 * n),
            w,
        ) by {
            assert(4 * w + 3 < 32 * n);
        }
    }
}

/// One line of the Regressi table, every value already rendered as its
/// decimal string: the elapsed time in seconds, then the eight channels
/// in wire order. Rendering numbers is the caller's step; the table's
/// layout is fixed here.
pub struct SampleRow {
    pub time: String,
    pub motor_1_input_speed: String,
    pub motor_1_speed: String,
    pub motor_1_error: String,
    pub motor_1_input: String,
    pub motor_2_input_speed: String,
    pub motor_2_speed: String,
    pub motor_2_error: String,
    pub motor_2_input: String,
}

/// One table line: a newline, then the rendered values separated by
/// single spaces, in the fixed column order.
pub open spec fn row_chars(row: SampleRow) -> Seq<char> {
    "\n"@ + row.time@ + " "@ + row.motor_1_input_speed@ + " "@ + row.motor_1_speed@ + " "@
        + row.motor_1_error@ + " "@ + row.motor_1_input@ + " "@ + row.motor_2_input_speed@
        + " "@ + row.motor_2_speed@ + " "@ + row.motor_2_error@ + " "@ + row.motor_2_input@
}

pub open spec fn rows_chars(rows: Seq<SampleRow>) -> Seq<char>
    decreases rows.len(),
{
    if rows.len() == 0 {
        Seq::<char>::empty()
    } else {
        rows_chars(rows.drop_last()) + row_chars(rows.last())
    }
}

/// The whole table: the fixed header row, then one line per sample.
pub open spec fn regressi_chars(rows: Seq<SampleRow>) -> Seq<char> {
    "t CVM1 VM1 EM1 IM1 CVM2 VM2 EM2 IM2"@ + rows_chars(rows)
}

/// Renders decoded samples as a whitespace-separated Regressi table.
#[verifier::rlimit(80)]
pub fn as_regressi_format(rows: &Vec<SampleRow>) -> (r: String)
    ensures
        r@ == regressi_chars(rows@),
{
    let mut r = String::new();
    r.append("t CVM1 VM1 EM1 IM1 CVM2 VM2 EM2 IM2");
    assert(r@ =~= regressi_chars(rows@.take(0)));
    let mut i: usize = 0;
    while i < rows.len()
        invariant
            i <= rows@.len(),
            r@ == regressi_chars(rows@.take(i as int)),
        decreases rows@.len() - i,
    {
        let ghost prev = r@;
        let row = &rows[i];
        r.append("\n");
        r.append(row.time.as_str());
        r.append(" ");
        r.append(row.motor_1_input_speed.as_str());
        r.append(" ");
        r.append(row.motor_1_speed.as_str());
        r.append(" ");
        r.append(row.motor_1_error.as_str());
        r.append(" ");
        r.append(row.motor_1_input.as_str());
        r.append(" ");
        r.append(row.motor_2_input_speed.as_str());
        r.append(" ");
        r.append(row.motor_2_speed.as_str());
        r.append(" ");
        r.append(row.motor_2_error.as_str());
        r.append(" ");
        r.append(row.motor_2_input.as_str());
        proof {
            assert(r@ =~= prev + row_chars(rows@[i as int]));
            assert(rows@.take(i + 1).drop_last() =~= rows@.take(i as int));
            assert(rows@.take(i + 1).last() == rows@[i as int]);
            assert(rows_chars(rows@.take(i + 1)) == rows_chars(rows@.take(i as int))
                + row_chars(rows@[i as int]));
            assert(r@ =~= regressi_chars(rows@.take(i + 1)));
        }
        i = i + 1;
    }
    proof {
        assert(rows@.take(rows@.len() as int) =~= rows@);
    }
    r
}

} // verus!
