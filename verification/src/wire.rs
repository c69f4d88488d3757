//! Little-endian 32-bit words on the wire.
//!
//! Every multi-byte payload of the protocol is a sequence of 32-bit words
//! stored least-significant byte first. Reading and writing such words is
//! the whole of this module; the codec and the session scripts build on it.

use vstd::prelude::*;

verus! {

/// The 32-bit word whose little-endian bytes are `b0, b1, b2, b3`.
pub open spec fn le_word(b0: u8, b1: u8, b2: u8, b3: u8) -> u32 {
    b0 as u32 | (b1 as u32) << 8 | (b2 as u32) << 16 | (b3 as u32) << 24
}

/// The word starting at byte offset `4 * w` of `bytes`, read little-endian.
pub open spec fn word_at(bytes: Seq<u8>, w: int) -> u32 {
    le_word(bytes[4 * w], bytes[4 * w + 1], bytes[4 * w + 2], bytes[4 * w + 3])
}

/// The four little-endian bytes of `v`.
pub open spec fn le_bytes(v: u32) -> Seq<u8> {
    seq![
        (v & 0xff) as u8,
        ((v >> 8) & 0xff) as u8,
        ((v >> 16) & 0xff) as u8,
        ((v >> 24) & 0xff) as u8,
    ]
}

/// Reads one little-endian word from four bytes.
pub fn word_from_le(b0: u8, b1: u8, b2: u8, b3: u8) -> (w: u32)
    ensures
        w == le_word(b0, b1, b2, b3),
{
    b0 as u32 | (b1 as u32) << 8 | (b2 as u32) << 16 | (b3 as u32) << 24
}

/// Reads the word at byte offset `4 * w` of `bytes`.
pub fn read_word_at(bytes: &[u8], w: usize) -> (r: u32)
    requires
        4 * w + 4 <= bytes@.len(),
    ensures
        r == word_at(bytes@, w as int),
{
    // Establishes that the slice's length, and so `4 * w + 4`, fits in usize.
    let n: usize = bytes.len();
    word_from_le(bytes[4 * w], bytes[4 * w + 1], bytes[4 * w + 2], bytes[4 * w + 3])
}

/// Appends the four little-endian bytes of `v` to `out`.
pub fn push_le_bytes(out: &mut Vec<u8>, v: u32)
    ensures
        final(out)@ == old(out)@ + le_bytes(v),
{
    out.push((v & 0xff) as u8);
    out.push(((v >> 8) & 0xff) as u8);
    out.push(((v >> 16) & 0xff) as u8);
    out.push(((v >> 24) & 0xff) as u8);
    assert(out@ =~= old(out)@ + le_bytes(v));
}

/// Writing a word and reading it back is the identity.
pub proof fn lemma_le_round_trip(v: u32)
    ensures
        le_word(le_bytes(v)[0], le_bytes(v)[1], le_bytes(v)[2], le_bytes(v)[3]) == v,
{
    assert((v & 0xff) as u8 as u32 | (((v >> 8) & 0xff) as u8 as u32) << 8
        | (((v >> 16) & 0xff) as u8 as u32) << 16 | (((v >> 24) & 0xff) as u8 as u32) << 24
        == v) by (bit_vector);
}

} // verus!
