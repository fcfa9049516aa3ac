//! Plane-based (projective) geometric algebra over the signature G(3,0,1).
//!
//! Entities (planes, points, lines, rotors, translators, motors) carry
//! their coordinates as fixed-point scalars ([`Fx`]); every operation is a
//! pure value computation with an exact contract over the mathematical
//! model of that scalar.  Singular inputs (a zero divisor, a negative
//! radicand) do not panic: the scalar arithmetic saturates at its
//! representable range and roots of negative numbers collapse to zero, so
//! degenerate inputs propagate as extreme values, the fixed-point
//! analogue of an infinity.  This one policy is applied uniformly across
//! `inverse`, `ln`, `sqrt` and `decompose`.
//!
//! Memory model:
//!     scalar = 1
//!     pseudo = e0123
//!     vector = { e0, e1, e2, e3 }
//!     v_bivector = { e01, e02, e03 }
//!     e_bivector = { e23, e31, e12 }
//!     trivector = { e123, e032, e013, e021 }

mod error;
mod rng;

pub mod fx;
pub mod model;
pub mod trig;

pub mod line;
pub mod motor;
pub mod plane;
pub mod point;
pub mod rotor;
pub mod translator;

pub mod inner;
pub mod join;
pub mod meet;

pub use error::CastError;
pub use fx::Fx;
pub use line::Line;
pub use motor::Applicable;
pub use motor::Motor;
pub use plane::Plane;
pub use point::Point;
pub use rotor::Rotor;
pub use translator::Translator;

use vstd::prelude::*;

verus! {

/// The coefficient of the algebra's unit four-volume element.
#[derive(Debug, Copy, Clone)]
pub struct PseudoScalar(pub Fx);

impl PseudoScalar {
    /// The pseudoscalar scaled by `s`.
    pub fn mul_scalar(&self, s: Fx) -> (r: PseudoScalar)
        ensures
            r.0.v() == crate::fx::fx_mul(self.0.v(), s.v()),
    {
        PseudoScalar(self.0.mul(s))
    }

    /// The pseudoscalar scaled by the reciprocal of `s`.
    pub fn div_scalar(&self, s: Fx) -> (r: PseudoScalar)
        ensures
            r.0.v() == crate::fx::fx_mul(
                self.0.v(),
                crate::fx::fx_div(crate::fx::FX_SCALE as int, s.v()),
            ),
    {
        self.mul_scalar(Fx::from_bits(crate::fx::FX_SCALE).div(s))
    }
}

} // verus!
