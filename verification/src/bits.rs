//! Two's-complement interpretation of 32-bit words, and the handful of
//! bit-level facts the rest of the crate leans on.

use vstd::prelude::*;

verus! {

/// The value of a word read as a two's-complement signed 32-bit integer.
pub open spec fn sg(x: u32) -> int {
    if x < 0x8000_0000 {
        x as int
    } else {
        x - 0x1_0000_0000
    }
}

/// The word that encodes an integer modulo 2^32 (its low 32 bits).
pub open spec fn encode32(v: int) -> u32 {
    (v % 0x1_0000_0000) as u32
}

/// A signed cast of a word yields exactly its two's-complement value.
pub proof fn lemma_cast_i32(x: u32)
    ensures
        x as i32 == sg(x),
{
    assert(x as i32 == if x < 0x8000_0000 {
        x as int
    } else {
        x - 0x1_0000_0000
    }) by (bit_vector);
}

/// A byte sign-extended to 32 bits: the high 24 bits replicate bit 7.
pub open spec fn sext8(b: u8) -> u32 {
    if b >= 0x80 {
        (b + 0xFFFF_FF00) as u32
    } else {
        b as u32
    }
}

/// A halfword sign-extended to 32 bits: the high 16 bits replicate
/// bit 15.
pub open spec fn sext16(h: u16) -> u32 {
    if h >= 0x8000 {
        (h + 0xFFFF_0000) as u32
    } else {
        h as u32
    }
}

/// An arithmetic right shift: the word's sign bit fills the vacated
/// positions, so the two's-complement value is divided by a power of two,
/// rounding toward negative infinity.
pub open spec fn sra32(x: u32, sh: u32) -> u32
    recommends
        sh < 32,
{
    if x >= 0x8000_0000 {
        (x >> sh) | !(0xFFFF_FFFFu32 >> sh)
    } else {
        x >> sh
    }
}

/// Reading a word as signed and re-encoding it is the identity.
pub proof fn lemma_u32_i32_roundtrip(x: u32)
    ensures
        (x as i32) as u32 == x,
{
    assert((x as i32) as u32 == x) by (bit_vector);
}

} // verus!
