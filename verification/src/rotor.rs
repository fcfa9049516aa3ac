//! Rotors: the rotation-only restriction of a motor, an axis through
//! the origin and a half-angle.

use vstd::prelude::*;

verus! {

use crate::fx::{
    Fx, fx_add, fx_sub, fx_neg, fx_mul, fx_div, fx_dbl, fx_half, fx_adiff, fx_sqrt, FX_SCALE,
};
use crate::trig::TWO_PI_BITS;
use crate::model::{RotorV, PointV, TranslatorV, MotorV, PlaneV};
use crate::point::Point;
use crate::plane::{Plane, plane_new_v, plane_normalize_v};
use crate::translator::Translator;
use crate::motor::{Motor, motor_from_plane_corr_v, motor_into_rotor_v};
use crate::model::LineV;
use crate::line::Line;
use crate::rng::random_fx;

/// Tolerance on the scalar part when two rotors are compared.
pub const ROTOR_TOL_S: i64 = 31457;

/// Tolerance on the bivector part when two rotors are compared.
pub const ROTOR_TOL_E: i64 = 314573;

/// A pure rotation about a line through the origin: a scalar (the cosine
/// of the half angle) and a Euclidean bivector (the scaled axis).
#[derive(Debug, Copy, Clone)]
pub struct Rotor {
    pub scalar: Fx,
    pub e_bivector: [Fx; 3],
}

impl View for Rotor {
    type V = RotorV;

    open spec fn view(&self) -> RotorV {
        RotorV {
            s: self.scalar.v(),
            e0: self.e_bivector[0].v(),
            e1: self.e_bivector[1].v(),
            e2: self.e_bivector[2].v(),
        }
    }
}

/// Spec form of [`Rotor::new`].
pub open spec fn rotor_new_v(angle: int, x0: int, x1: int, x2: int) -> RotorV {
    let ha: int = fx_half(angle);
    let sha: int = crate::trig::fx_sin(ha);
    let cha: int = crate::trig::fx_cos(ha);
    RotorV {
        s: cha,
        e0: fx_mul(fx_neg(sha), x0),
        e1: fx_mul(fx_neg(sha), x1),
        e2: fx_mul(fx_neg(sha), x2),
    }
}

/// Spec form of [`Rotor::norm`].
pub open spec fn rotor_norm_v(a: RotorV) -> int {
    fx_sqrt(fx_add(fx_add(fx_add(fx_mul(a.e0, a.e0), fx_mul(a.e1, a.e1)), fx_mul(a.e2, a.e2)), fx_mul(a.s, a.s)))
}

/// Spec form of [`Rotor::normalize`].
pub open spec fn rotor_normalize_v(a: RotorV) -> RotorV {
    let fac: int = fx_div(FX_SCALE as int, rotor_norm_v(a));
    RotorV {
        s: fx_mul(a.s, fac),
        e0: fx_mul(a.e0, fac),
        e1: fx_mul(a.e1, fac),
        e2: fx_mul(a.e2, fac),
    }
}

/// Spec form of [`Rotor::sqrt`].
pub open spec fn rotor_sqrt_v(a: RotorV) -> RotorV {
    let fac: int = fx_div(fx_sqrt(2097152), fx_dbl(fx_sqrt(fx_add(a.s, 1048576))));
    RotorV {
        s: fx_half(fx_sqrt(fx_add(fx_dbl(a.s), 2097152))),
        e0: fx_mul(a.e0, fac),
        e1: fx_mul(a.e1, fac),
        e2: fx_mul(a.e2, fac),
    }
}

/// Spec form of [`Rotor::neg`].
pub open spec fn rotor_neg_v(a: RotorV) -> RotorV {
    RotorV { s: fx_neg(a.s), e0: fx_neg(a.e0), e1: fx_neg(a.e1), e2: fx_neg(a.e2) }
}

/// Spec form of [`Rotor::ln`].
pub open spec fn rotor_ln_v(a: RotorV) -> LineV {
    let s2: int = fx_sqrt(fx_add(fx_add(fx_mul(a.e0, a.e0), fx_mul(a.e1, a.e1)), fx_mul(a.e2, a.e2)));
    let u: int = crate::trig::fx_atan2(s2, a.s);
    LineV {
        e0: fx_div(fx_mul(a.e0, u), s2),
        e1: fx_div(fx_mul(a.e1, u), s2),
        e2: fx_div(fx_mul(a.e2, u), s2),
        v0: 0,
        v1: 0,
        v2: 0,
    }
}

/// Spec form of [`Rotor::qtangent_exp`].
pub open spec fn rotor_qtangent_exp_v(x0: int, x1: int, x2: int) -> RotorV {
    RotorV { s: fx_sqrt(fx_sub(1048576, fx_add(fx_add(fx_mul(x0, x0), fx_mul(x1, x1)), fx_mul(x2, x2)))), e0: x0, e1: x1, e2: x2 }
}

/// Spec form of [`Rotor::apply_to_point`].
pub open spec fn rotor_apply_point_v(a: RotorV, b: PointV) -> PointV {
    let qa: int = fx_add(fx_add(fx_mul(a.e0, b.t1), fx_mul(a.e1, b.t2)), fx_mul(a.e2, b.t3));
    let qb: int = fx_add(fx_add(fx_mul(fx_neg(a.e0), b.t2), fx_mul(a.e1, b.t1)), fx_mul(b.t3, a.s));
    let qc: int = fx_add(fx_sub(fx_mul(a.e0, b.t3), fx_mul(a.e2, b.t1)), fx_mul(b.t2, a.s));
    let qd: int = fx_add(fx_add(fx_mul(fx_neg(a.e1), b.t3), fx_mul(a.e2, b.t2)), fx_mul(b.t1, a.s));
    PointV {
        t0: fx_add(fx_add(fx_add(fx_mul(fx_mul(a.e0, a.e0), b.t0), fx_mul(fx_mul(a.e1, a.e1), b.t0)), fx_mul(fx_mul(a.e2, a.e2), b.t0)), fx_mul(fx_mul(b.t0, a.s), a.s)),
        t1: fx_add(fx_add(fx_sub(fx_mul(a.e0, qa), fx_mul(a.e1, qb)), fx_mul(a.e2, qc)), fx_mul(a.s, qd)),
        t2: fx_add(fx_sub(fx_add(fx_mul(a.e0, qb), fx_mul(a.e1, qa)), fx_mul(a.e2, qd)), fx_mul(a.s, qc)),
        t3: fx_add(fx_add(fx_add(fx_mul(fx_neg(a.e0), qc), fx_mul(a.e1, qd)), fx_mul(a.e2, qa)), fx_mul(a.s, qb)),
    }
}

/// Spec form of [`Rotor::mul_translator`].
pub open spec fn rotor_mul_translator_v(a: RotorV, b: TranslatorV) -> MotorV {
    MotorV {
        s: fx_mul(a.s, b.s),
        ps: fx_add(fx_add(fx_mul(a.e0, b.v0), fx_mul(a.e1, b.v1)), fx_mul(a.e2, b.v2)),
        v0: fx_add(fx_add(fx_mul(fx_neg(a.e1), b.v2), fx_mul(a.e2, b.v1)), fx_mul(a.s, b.v0)),
        v1: fx_add(fx_sub(fx_mul(a.e0, b.v2), fx_mul(a.e2, b.v0)), fx_mul(a.s, b.v1)),
        v2: fx_add(fx_add(fx_mul(fx_neg(a.e0), b.v1), fx_mul(a.e1, b.v0)), fx_mul(a.s, b.v2)),
        e0: fx_mul(a.e0, b.s),
        e1: fx_mul(a.e1, b.s),
        e2: fx_mul(a.e2, b.s),
    }
}

/// Whether two rotors agree within the rotor tolerances.
pub open spec fn rotor_similar_v(a: RotorV, b: RotorV) -> bool {
    fx_adiff(a.s, b.s) < ROTOR_TOL_S as int && fx_adiff(a.e0, b.e0) < ROTOR_TOL_E as int
        && fx_adiff(a.e1, b.e1) < ROTOR_TOL_E as int && fx_adiff(a.e2, b.e2) < ROTOR_TOL_E as int
}

impl Rotor {
    /// The rotor turning by the given angle about the given axis (which
    /// should be normalized).
    pub fn new(a: Fx, axis: &[Fx; 3]) -> (r: Rotor)
        ensures
            r@ == rotor_new_v(a.v(), axis[0].v(), axis[1].v(), axis[2].v()),
    {
        let ha: Fx = a.half();
        let sha: Fx = crate::trig::sin(ha);
        let cha: Fx = crate::trig::cos(ha);
        Rotor {
            scalar: cha,
            e_bivector: [sha.neg().mul(axis[0]), sha.neg().mul(axis[1]), sha.neg().mul(axis[2])],
        }
    }

    /// A rotor with a random angle about a random axis.
    pub fn random() -> (r: Rotor) {
        let a: Fx = random_fx().mul(Fx::from_bits(TWO_PI_BITS));
        Rotor::new(a, &[random_fx(), random_fx(), random_fx()])
    }

    /// The rotor taking the standard basis to the given orthonormal basis
    /// (matrix columns); an unnormalized basis gives an invalid rotor, not
    /// a panic.
    pub fn from_base(e1: &[Fx; 3], e2: &[Fx; 3], e3: &[Fx; 3]) -> (r: Rotor)
        ensures
            r@ == motor_into_rotor_v(
                motor_from_plane_corr_v(
                    plane_normalize_v(plane_new_v(0, FX_SCALE as int, 0, 0)),
                    plane_normalize_v(plane_new_v(0, e1[0].v(), e1[1].v(), e1[2].v())),
                    plane_normalize_v(plane_new_v(0, 0, FX_SCALE as int, 0)),
                    plane_normalize_v(plane_new_v(0, e2[0].v(), e2[1].v(), e2[2].v())),
                    plane_normalize_v(plane_new_v(0, 0, 0, FX_SCALE as int)),
                    plane_normalize_v(plane_new_v(0, e3[0].v(), e3[1].v(), e3[2].v())),
                ),
            ),
    {
        let zero: Fx = Fx::from_bits(0);
        let e1_ = Plane::new(zero, e1).normalize();
        let e2_ = Plane::new(zero, e2).normalize();
        let e3_ = Plane::new(zero, e3).normalize();
        let b1 = Plane::yz().normalize();
        let b2 = Plane::zx().normalize();
        let b3 = Plane::xy().normalize();
        let m = Motor::from_plane_correspondences(&b1, &e1_, &b2, &e2_, &b3, &e3_);
        m.into_rotor_unchecked()
    }

    /// The norm of the even part.
    pub fn norm(&self) -> (r: Fx)
        ensures
            r.v() == rotor_norm_v(self@),
    {
        self.e_bivector[0].mul(self.e_bivector[0]).add(self.e_bivector[1].mul(self.e_bivector[1])).add(self.e_bivector[2].mul(self.e_bivector[2])).add(self.scalar.mul(self.scalar)).sqrt()
    }

    /// The rotor rescaled to unit norm.
    pub fn normalize(&self) -> (r: Rotor)
        ensures
            r@ == rotor_normalize_v(self@),
    {
        let fac: Fx = Fx::from_bits(FX_SCALE).div(self.norm());
        Rotor {
            scalar: self.scalar.mul(fac),
            e_bivector: [self.e_bivector[0].mul(fac), self.e_bivector[1].mul(fac), self.e_bivector[2].mul(fac)],
        }
    }

    /// The rotor turning by half this rotor's angle.
    pub fn sqrt(&self) -> (r: Rotor)
        ensures
            r@ == rotor_sqrt_v(self@),
    {
        let fac: Fx = Fx::from_bits(2097152).sqrt().div(self.scalar.add(Fx::from_bits(1048576)).sqrt().dbl());
        Rotor {
            scalar: self.scalar.dbl().add(Fx::from_bits(2097152)).sqrt().half(),
            e_bivector: [self.e_bivector[0].mul(fac), self.e_bivector[1].mul(fac), self.e_bivector[2].mul(fac)],
        }
    }

    /// The rotor with every coordinate negated (the same rotation).
    pub fn neg(&self) -> (r: Rotor)
        ensures
            r@ == rotor_neg_v(self@),
    {
        Rotor {
            scalar: self.scalar.neg(),
            e_bivector: [
                self.e_bivector[0].neg(),
                self.e_bivector[1].neg(),
                self.e_bivector[2].neg(),
            ],
        }
    }

    /// The logarithm: the line through the origin generating this
    /// rotation, scaled by the half angle.
    pub fn ln(&self) -> (r: Line)
        ensures
            r@ == rotor_ln_v(self@),
    {
        let s2: Fx = self.e_bivector[0].mul(self.e_bivector[0]).add(self.e_bivector[1].mul(self.e_bivector[1])).add(self.e_bivector[2].mul(self.e_bivector[2])).sqrt();
        let u: Fx = crate::trig::atan2(s2, self.scalar);
        Line {
            v_bivector: [Fx::from_bits(0), Fx::from_bits(0), Fx::from_bits(0)],
            e_bivector: [self.e_bivector[0].mul(u).div(s2), self.e_bivector[1].mul(u).div(s2), self.e_bivector[2].mul(u).div(s2)],
        }
    }

    /// The quaternion-tangent packing of the bivector part: negated when
    /// the scalar is negative so the packing is unambiguous.
    pub fn qtangent_ln(&self) -> (r: [Fx; 3])
        ensures
            self@.s < 0 ==> (r[0].v() == fx_neg(self@.e0) && r[1].v() == fx_neg(self@.e1)
                && r[2].v() == fx_neg(self@.e2)),
            self@.s >= 0 ==> (r[0].v() == self@.e0 && r[1].v() == self@.e1
                && r[2].v() == self@.e2),
    {
        if self.scalar.bits < 0 {
            [self.e_bivector[0].neg(), self.e_bivector[1].neg(), self.e_bivector[2].neg()]
        } else {
            [self.e_bivector[0], self.e_bivector[1], self.e_bivector[2]]
        }
    }

    /// The rotor unpacked from a quaternion tangent: the scalar is
    /// recovered from the unit-norm constraint.
    pub fn qtangent_exp(q: &[Fx; 3]) -> (r: Rotor)
        ensures
            r@ == rotor_qtangent_exp_v(q[0].v(), q[1].v(), q[2].v()),
    {
        Rotor {
            e_bivector: [q[0], q[1], q[2]],
            scalar: Fx::from_bits(1048576).sub(q[0].mul(q[0]).add(q[1].mul(q[1])).add(q[2].mul(q[2]))).sqrt(),
        }
    }

    /// The sandwich product applied to a point: the rotated point.
    pub fn apply_to_point(&self, p: &Point) -> (r: Point)
        ensures
            r@ == rotor_apply_point_v(self@, p@),
    {
        let qa: Fx = self.e_bivector[0].mul(p.trivector[1]).add(self.e_bivector[1].mul(p.trivector[2])).add(self.e_bivector[2].mul(p.trivector[3]));
        let qb: Fx = self.e_bivector[0].neg().mul(p.trivector[2]).add(self.e_bivector[1].mul(p.trivector[1])).add(p.trivector[3].mul(self.scalar));
        let qc: Fx = self.e_bivector[0].mul(p.trivector[3]).sub(self.e_bivector[2].mul(p.trivector[1])).add(p.trivector[2].mul(self.scalar));
        let qd: Fx = self.e_bivector[1].neg().mul(p.trivector[3]).add(self.e_bivector[2].mul(p.trivector[2])).add(p.trivector[1].mul(self.scalar));
        Point {
            trivector: [
                self.e_bivector[0].mul(self.e_bivector[0]).mul(p.trivector[0]).add(self.e_bivector[1].mul(self.e_bivector[1]).mul(p.trivector[0])).add(self.e_bivector[2].mul(self.e_bivector[2]).mul(p.trivector[0])).add(p.trivector[0].mul(self.scalar).mul(self.scalar)),
                self.e_bivector[0].mul(qa).sub(self.e_bivector[1].mul(qb)).add(self.e_bivector[2].mul(qc)).add(self.scalar.mul(qd)),
                self.e_bivector[0].mul(qb).add(self.e_bivector[1].mul(qa)).sub(self.e_bivector[2].mul(qd)).add(self.scalar.mul(qc)),
                self.e_bivector[0].neg().mul(qc).add(self.e_bivector[1].mul(qd)).add(self.e_bivector[2].mul(qa)).add(self.scalar.mul(qb)),
            ],
        }
    }

    /// The product with a translator, promoted to a full motor.
    pub fn mul_translator(&self, t: &Translator) -> (r: Motor)
        ensures
            r@ == rotor_mul_translator_v(self@, t@),
    {
        Motor {
            scalar: self.scalar.mul(t.scalar),
            pseudo: self.e_bivector[0].mul(t.v_bivector[0]).add(self.e_bivector[1].mul(t.v_bivector[1])).add(self.e_bivector[2].mul(t.v_bivector[2])),
            v_bivector: [self.e_bivector[1].neg().mul(t.v_bivector[2]).add(self.e_bivector[2].mul(t.v_bivector[1])).add(self.scalar.mul(t.v_bivector[0])), self.e_bivector[0].mul(t.v_bivector[2]).sub(self.e_bivector[2].mul(t.v_bivector[0])).add(self.scalar.mul(t.v_bivector[1])), self.e_bivector[0].neg().mul(t.v_bivector[1]).add(self.e_bivector[1].mul(t.v_bivector[0])).add(self.scalar.mul(t.v_bivector[2]))],
            e_bivector: [self.e_bivector[0].mul(t.scalar), self.e_bivector[1].mul(t.scalar), self.e_bivector[2].mul(t.scalar)],
        }
    }
}

impl PartialEq for Rotor {
    /// Componentwise comparison within the rotor tolerances.
    fn eq(&self, other: &Rotor) -> (r: bool) {
        self.scalar.adiff(other.scalar).lt(Fx::from_bits(ROTOR_TOL_S))
            && self.e_bivector[0].adiff(other.e_bivector[0]).lt(Fx::from_bits(ROTOR_TOL_E))
            && self.e_bivector[1].adiff(other.e_bivector[1]).lt(Fx::from_bits(ROTOR_TOL_E))
            && self.e_bivector[2].adiff(other.e_bivector[2]).lt(Fx::from_bits(ROTOR_TOL_E))
    }
}

impl vstd::std_specs::cmp::PartialEqSpecImpl for Rotor {
    open spec fn obeys_eq_spec() -> bool {
        true
    }

    open spec fn eq_spec(&self, other: &Rotor) -> bool {
        rotor_similar_v(self@, other@)
    }
}

} // verus!
