//! Bit-level facts about register bytes, and the numeric view of flags.
use vstd::prelude::*;

verus! {

/// The numeric view of a flag, as it stands in a register bit.
pub open spec fn bit_of(b: bool) -> u8 {
    if b {
        1
    } else {
        0
    }
}

/// Returns 1 for `true` and 0 for `false`.
pub fn flag_bit(b: bool) -> (r: u8)
    ensures
        r == bit_of(b),
{
    if b {
        1
    } else {
        0
    }
}

/// Ranges of the bit fields that the registers take out of a written byte.
pub proof fn lemma_byte_fields(w: u8)
    by (bit_vector)
    ensures
        w >> 4u8 <= 15,
        (w >> 4u8) & 7 <= 7,
        w >> 5u8 <= 7,
        w >> 6u8 <= 3,
        w >> 7u8 <= 1,
        (w >> 3u8) & 1 <= 1,
        (w >> 5u8) & 3 <= 3,
        (w >> 6u8) & 3 <= 3,
        w & 0x3F <= 63,
        w & 0x0F <= 15,
        w & 7 <= 7,
        w & 3 <= 3,
        w >> 3u8 == 0 <==> w < 8,
        w >> 7u8 == 0 <==> w < 0x80,
        w & 0x80 > 0 <==> w >= 0x80,
{
}

/// Shifting a 4-bit sample right keeps it a 4-bit sample.
pub proof fn lemma_sample_shift(b: u8, c: u8)
    by (bit_vector)
    requires
        b <= 15,
        c <= 3,
    ensures
        b >> c <= 15,
{
}

/// The frequency registers only ever hold an 11-bit value.
pub proof fn lemma_frequency_bytes(f: u16, w: u8)
    by (bit_vector)
    ensures
        (f & 0x0700) | (w as u16) < 2048,
        (f & 0x00FF) | (((w & 7) as u16) << 8u16) < 2048,
{
}

/// A right shift never makes a value larger.
pub proof fn lemma_shift_right_le(f: u16, s: u8)
    by (bit_vector)
    requires
        s < 16,
    ensures
        f >> s <= f,
{
}

} // verus!
