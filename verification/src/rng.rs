//! The one nondeterministic corner: drawing random coordinates.

use vstd::prelude::*;

verus! {

use crate::fx::Fx;
use crate::fx::FX_SCALE;

/// Relies on rand::random: some machine integer; nothing is assumed of
/// its value.
#[verifier::external_body]
fn random_u32() -> (r: u32) {
    rand::random::<u32>()
}

/// A random scalar in `[0, 1)`: the top twenty bits of a random integer.
pub fn random_fx() -> (r: Fx)
    ensures
        0 <= r.v() < FX_SCALE as int,
{
    let x: u32 = random_u32();
    let b: u32 = x >> 12;
    proof {
        assert((x >> 12u32) < 1048576u32) by (bit_vector);
    }
    Fx::from_bits(b as i64)
}

} // verus!
