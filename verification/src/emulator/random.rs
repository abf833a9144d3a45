//! The source of random bytes.

use vstd::prelude::*;

verus! {

/// `macroquad::rand::gen_range`, at `u16`: a pseudo-random number drawn from
/// the generator that the whole process shares.
///
/// The crate documents the result as lying in `low..high`; that is all that
/// is claimed here. Which number comes depends on the generator's state, so
/// two calls with the same bounds may differ.
#[verifier::external_body]
fn gen_range(low: u16, high: u16) -> (r: u16)
    ensures
        low < high ==> low <= r < high,
{
    macroquad::rand::gen_range(low, high)
}

/// A pseudo-random byte. Every byte value can come.
pub(crate) fn random_byte() -> u8 {
    let r: u16 = gen_range(0, 256);
    r as u8
}

} // verus!
