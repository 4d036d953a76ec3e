//! Bit-level facts about status words, masks and register fields.
use vstd::prelude::*;

verus! {

/// A masked value never exceeds its mask.
pub broadcast proof fn lemma_and_le_mask(x: u32, m: u32)
    ensures
        #[trigger] (x & m) <= m,
{
    assert((x & m) <= m) by (bit_vector);
}

/// Replacing the mode field of a status word by `m` makes `m` the mode.
pub proof fn lemma_mode_field(x: u32, m: u32)
    requires
        m <= 0x1f,
    ensures
        ((x & !0x1fu32) | m) & 0x1f == m,
{
    assert(((x & !0x1fu32) | m) & 0x1f == m) by (bit_vector)
        requires
            m <= 0x1f,
    ;
}

/// Setting or clearing bits 5 to 7 of a status word leaves its mode field.
pub proof fn lemma_flag_bits_keep_mode(x: u32)
    ensures
        (x | 0x80u32) & 0x1f == x & 0x1f,
        (x | 0x40u32) & 0x1f == x & 0x1f,
        (x | 0x20u32) & 0x1f == x & 0x1f,
        (x & !0x20u32) & 0x1f == x & 0x1f,
{
    assert((x | 0x80u32) & 0x1f == x & 0x1f) by (bit_vector);
    assert((x | 0x40u32) & 0x1f == x & 0x1f) by (bit_vector);
    assert((x | 0x20u32) & 0x1f == x & 0x1f) by (bit_vector);
    assert((x & !0x20u32) & 0x1f == x & 0x1f) by (bit_vector);
}

/// A register number built from a high bit and a three-bit field is below 16.
pub proof fn lemma_high_register(a: u32, b: u32)
    ensures
        ((a & 1) << 3u32) | (b & 7) < 16,
{
    assert(((a & 1) << 3u32) | (b & 7) < 16) by (bit_vector);
}

/// Clearing the low two bits of a word-aligned address changes nothing.
pub proof fn lemma_aligned_mask(x: u32)
    requires
        x % 4 == 0,
    ensures
        x & 0xFFFF_FFFC == x,
{
    assert(x & 0xFFFF_FFFC == x) by (bit_vector)
        requires
            x % 4 == 0,
    ;
}

} // verus!
