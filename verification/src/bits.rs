//! Shared bit-level facts about the 32-bit instruction word.

use vstd::prelude::*;

verus! {

/// Masking with a constant mask bounds the result by the mask.
pub proof fn lemma_and_bound(x: u32, m: u32)
    by (bit_vector)
    ensures
        x & m <= m,
{
}

/// Bounds of the standard RV32 instruction fields extracted from a word.
pub proof fn lemma_field_bounds(x: u32)
    by (bit_vector)
    ensures
        x & 0x7f <= 0x7f,
        (x >> 12) & 7 <= 7,
        x >> 25 <= 0x7f,
        x >> 20 <= 0xfff,
        x >> 27 <= 0x1f,
        x >> 28 <= 0xf,
        (x >> 15) & 0x1f <= 0x1f,
        (x >> 20) & 0x1f <= 0x1f,
        (x >> 7) & 0x1f <= 0x1f,
{
}

/// The two little-endian bytes of a 16-bit value.
pub proof fn lemma_u16_le_bytes(x: u16)
    by (bit_vector)
    ensures
        x & 0xff == x % 256,
        x & 0xff <= 0xff,
        x >> 8 == x / 256,
        x >> 8 <= 0xff,
{
}

/// The four little-endian bytes of a 32-bit value.
pub proof fn lemma_u32_le_bytes(x: u32)
    by (bit_vector)
    ensures
        x & 0xff == x % 256,
        x & 0xff <= 0xff,
        (x >> 8) & 0xff == (x / 256) % 256,
        (x >> 8) & 0xff <= 0xff,
        (x >> 16) & 0xff == (x / 65536) % 256,
        (x >> 16) & 0xff <= 0xff,
        x >> 24 == x / 16777216,
        x >> 24 <= 0xff,
{
}

} // verus!
