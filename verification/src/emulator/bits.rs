//! Facts that tie the bit operations of the handlers to the arithmetic of
//! the model.

use vstd::prelude::*;

verus! {

/// Shifting a byte by one place halves or doubles it, and the bit that
/// falls off is its remainder by two or its quotient by 128.
pub proof fn lemma_shift_by_one(b: u8)
    by (bit_vector)
    ensures
        b >> 1 == b / 2,
        b & 1 == b % 2,
        (b & 0b1000_0000) >> 7 == b / 128,
        b << 1 == ((b as u16 * 2) % 0x100) as u8,
{
}

/// Or-ing a collision bit into a flag that is 0 or 1 sets it on a collision
/// and keeps it otherwise.
pub proof fn lemma_or_flag(flag: u8, hit: u8)
    by (bit_vector)
    requires
        flag <= 1,
        hit <= 1,
    ensures
        hit == 1 ==> flag | hit == 1,
        hit == 0 ==> flag | hit == flag,
{
}

/// Joining two bytes into a word, the first one high.
pub proof fn lemma_join_bytes(hi: u8, lo: u8)
    by (bit_vector)
    ensures
        ((hi as u16) << 8) | (lo as u16) == (hi as u16) * 0x100 + (lo as u16),
{
}

} // verus!
