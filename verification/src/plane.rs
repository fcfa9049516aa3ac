//! Planes: grade-1 elements `[d, nx, ny, nz]`; dual to points.

use vstd::prelude::*;

verus! {

use crate::fx::{Fx, fx_add, fx_sub, fx_neg, fx_mul, fx_div, fx_adiff, fx_sqrt, FX_SCALE, FX_CENTI};
use crate::model::{PlaneV, PointV, MotorV};
use crate::point::Point;
use crate::motor::{Motor, motor_sqrt_v, motor_mul_v};
use crate::rng::random_fx;

/// An oriented plane `n . x = d`, stored as `[d, nx, ny, nz]` on the
/// vector basis.
#[derive(Debug)]
pub struct Plane {
    pub vector: [Fx; 4],
}

impl View for Plane {
    type V = PlaneV;

    open spec fn view(&self) -> PlaneV {
        PlaneV {
            v0: self.vector[0].v(),
            v1: self.vector[1].v(),
            v2: self.vector[2].v(),
            v3: self.vector[3].v(),
        }
    }
}

/// Spec form of [`Plane::new`].
pub open spec fn plane_new_v(d: int, n0: int, n1: int, n2: int) -> PlaneV {
    PlaneV { v0: d, v1: n0, v2: n1, v3: n2 }
}

/// Spec form of [`Plane::dual`].
pub open spec fn plane_dual_v(a: PlaneV) -> PointV {
    PointV { t0: a.v0, t1: a.v1, t2: a.v2, t3: a.v3 }
}

/// Spec form of [`Plane::norm`].
pub open spec fn plane_norm_v(a: PlaneV) -> int {
    fx_sqrt(fx_add(fx_add(fx_mul(a.v1, a.v1), fx_mul(a.v2, a.v2)), fx_mul(a.v3, a.v3)))
}

/// Spec form of [`Plane::normalize`].
pub open spec fn plane_normalize_v(a: PlaneV) -> PlaneV {
    let n: int = fx_sqrt(fx_add(fx_add(fx_mul(a.v1, a.v1), fx_mul(a.v2, a.v2)), fx_mul(a.v3, a.v3)));
    PlaneV {
        v0: fx_div(a.v0, n),
        v1: fx_div(a.v1, n),
        v2: fx_div(a.v2, n),
        v3: fx_div(a.v3, n),
    }
}

/// Spec form of [`Plane::nnormalize`].
pub open spec fn plane_nnormalize_v(a: PlaneV) -> PlaneV {
    let n: int = fx_sqrt(fx_add(fx_add(fx_mul(a.v1, a.v1), fx_mul(a.v2, a.v2)), fx_mul(a.v3, a.v3)));
    PlaneV {
        v0: a.v0,
        v1: fx_div(a.v1, n),
        v2: fx_div(a.v2, n),
        v3: fx_div(a.v3, n),
    }
}

/// Spec form of [`Plane::neg`].
pub open spec fn plane_neg_v(a: PlaneV) -> PlaneV {
    PlaneV { v0: fx_neg(a.v0), v1: fx_neg(a.v1), v2: fx_neg(a.v2), v3: fx_neg(a.v3) }
}

/// Spec form of [`Plane::inverse`].
pub open spec fn plane_inverse_v(a: PlaneV) -> PlaneV {
    let fac: int = fx_div(1048576, fx_add(fx_add(fx_mul(a.v1, a.v1), fx_mul(a.v2, a.v2)), fx_mul(a.v3, a.v3)));
    PlaneV {
        v0: fx_mul(a.v0, fac),
        v1: fx_mul(a.v1, fac),
        v2: fx_mul(a.v2, fac),
        v3: fx_mul(a.v3, fac),
    }
}

/// Spec form of [`Plane::mul_scalar`].
pub open spec fn plane_mul_scalar_v(a: PlaneV, s: int) -> PlaneV {
    PlaneV {
        v0: fx_mul(s, a.v0),
        v1: fx_mul(s, a.v1),
        v2: fx_mul(s, a.v2),
        v3: fx_mul(s, a.v3),
    }
}

/// Spec form of [`Plane::mul`].
pub open spec fn plane_mul_v(a: PlaneV, b: PlaneV) -> MotorV {
    MotorV {
        s: fx_add(fx_add(fx_mul(a.v1, b.v1), fx_mul(a.v2, b.v2)), fx_mul(a.v3, b.v3)),
        ps: 0,
        v0: fx_sub(fx_mul(a.v0, b.v1), fx_mul(a.v1, b.v0)),
        v1: fx_sub(fx_mul(a.v0, b.v2), fx_mul(a.v2, b.v0)),
        v2: fx_sub(fx_mul(a.v0, b.v3), fx_mul(a.v3, b.v0)),
        e0: fx_sub(fx_mul(a.v2, b.v3), fx_mul(a.v3, b.v2)),
        e1: fx_add(fx_mul(fx_neg(a.v1), b.v3), fx_mul(a.v3, b.v1)),
        e2: fx_sub(fx_mul(a.v1, b.v2), fx_mul(a.v2, b.v1)),
    }
}

/// Whether every coordinate of two planes differs by at most `d`.
pub open spec fn plane_similar_v(a: PlaneV, b: PlaneV, d: int) -> bool {
    fx_adiff(a.v0, b.v0) <= d && fx_adiff(a.v1, b.v1) <= d && fx_adiff(a.v2, b.v2) <= d
        && fx_adiff(a.v3, b.v3) <= d
}

impl Plane {
    /// The plane `n . x = d`; `d` times a unit normal lies on the plane.
    pub fn new(d: Fx, n: &[Fx; 3]) -> (r: Plane)
        ensures
            r@ == plane_new_v(d.v(), n[0].v(), n[1].v(), n[2].v()),
    {
        Plane { vector: [d, n[0], n[1], n[2]] }
    }

    /// A plane with a random normal direction and a random offset.
    pub fn random() -> (r: Plane) {
        let n0 = random_fx();
        let n1 = random_fx();
        let n2 = random_fx();
        let len = n0.mul(n0).add(n1.mul(n1)).add(n2.mul(n2)).sqrt();
        Plane::new(random_fx(), &[n0.div(len), n1.div(len), n2.div(len)])
    }

    /// The coordinate plane through the y and z axes.
    pub fn yz() -> (r: Plane)
        ensures
            r@ == plane_new_v(0, FX_SCALE as int, 0, 0),
    {
        Plane::new(Fx::from_bits(0), &[Fx::from_bits(FX_SCALE), Fx::from_bits(0), Fx::from_bits(0)])
    }

    /// The coordinate plane through the z and x axes.
    pub fn zx() -> (r: Plane)
        ensures
            r@ == plane_new_v(0, 0, FX_SCALE as int, 0),
    {
        Plane::new(Fx::from_bits(0), &[Fx::from_bits(0), Fx::from_bits(FX_SCALE), Fx::from_bits(0)])
    }

    /// The coordinate plane through the x and y axes.
    pub fn xy() -> (r: Plane)
        ensures
            r@ == plane_new_v(0, 0, 0, FX_SCALE as int),
    {
        Plane::new(Fx::from_bits(0), &[Fx::from_bits(0), Fx::from_bits(0), Fx::from_bits(FX_SCALE)])
    }

    /// The dual point: the same coordinates relabeled onto the trivector
    /// basis.
    pub fn dual(&self) -> (r: Point)
        ensures
            r@ == plane_dual_v(self@),
    {
        Point { trivector: self.vector }
    }

    /// The plane rescaled by the reciprocal of its normal's length.
    pub fn normalize(&self) -> (r: Plane)
        ensures
            r@ == plane_normalize_v(self@),
    {
        let n: Fx = self.norm();
        Plane {
            vector: [
                self.vector[0].div(n),
                self.vector[1].div(n),
                self.vector[2].div(n),
                self.vector[3].div(n),
            ],
        }
    }

    /// Like [`Plane::normalize`], but leaves the offset coordinate alone.
    pub fn nnormalize(&self) -> (r: Plane)
        ensures
            r@ == plane_nnormalize_v(self@),
    {
        let n: Fx = self.norm();
        Plane {
            vector: [
                self.vector[0],
                self.vector[1].div(n),
                self.vector[2].div(n),
                self.vector[3].div(n),
            ],
        }
    }

    /// The length of the normal vector.
    pub fn norm(&self) -> (r: Fx)
        ensures
            r.v() == plane_norm_v(self@),
    {
        self.vector[1].mul(self.vector[1]).add(self.vector[2].mul(self.vector[2])).add(self.vector[3].mul(self.vector[3])).sqrt()
    }

    /// The plane with every coordinate negated: the same plane with
    /// opposite orientation.
    pub fn neg(&self) -> (r: Plane)
        ensures
            r@ == plane_neg_v(self@),
    {
        Plane {
            vector: [
                self.vector[0].neg(),
                self.vector[1].neg(),
                self.vector[2].neg(),
                self.vector[3].neg(),
            ],
        }
    }

    /// The inverse plane: saturates when the normal is zero.
    pub fn inverse(&self) -> (r: Plane)
        ensures
            r@ == plane_inverse_v(self@),
    {
        let fac: Fx = Fx::from_bits(1048576).div(self.vector[1].mul(self.vector[1]).add(self.vector[2].mul(self.vector[2])).add(self.vector[3].mul(self.vector[3])));
        Plane {
            vector: [
                self.vector[0].mul(fac),
                self.vector[1].mul(fac),
                self.vector[2].mul(fac),
                self.vector[3].mul(fac),
            ],
        }
    }

    /// The plane with every coordinate scaled by `s`.
    pub fn mul_scalar(&self, s: Fx) -> (r: Plane)
        ensures
            r@ == plane_mul_scalar_v(self@, s.v()),
    {
        Plane {
            vector: [
                s.mul(self.vector[0]),
                s.mul(self.vector[1]),
                s.mul(self.vector[2]),
                s.mul(self.vector[3]),
            ],
        }
    }

    /// The plane scaled by the reciprocal of `s`.
    pub fn div_scalar(&self, s: Fx) -> (r: Plane)
        ensures
            r@ == plane_mul_scalar_v(self@, fx_div(FX_SCALE as int, s.v())),
    {
        self.mul_scalar(Fx::from_bits(FX_SCALE).div(s))
    }

    /// The geometric product of two planes: a motor (with no pseudoscalar
    /// part) rotating about their intersection line.
    pub fn mul(&self, other: &Plane) -> (r: Motor)
        ensures
            r@ == plane_mul_v(self@, other@),
    {
        Motor {
            scalar: self.vector[1].mul(other.vector[1]).add(self.vector[2].mul(other.vector[2])).add(self.vector[3].mul(other.vector[3])),
            pseudo: Fx::from_bits(0),
            v_bivector: [self.vector[0].mul(other.vector[1]).sub(self.vector[1].mul(other.vector[0])), self.vector[0].mul(other.vector[2]).sub(self.vector[2].mul(other.vector[0])), self.vector[0].mul(other.vector[3]).sub(self.vector[3].mul(other.vector[0]))],
            e_bivector: [self.vector[2].mul(other.vector[3]).sub(self.vector[3].mul(other.vector[2])), self.vector[1].neg().mul(other.vector[3]).add(self.vector[3].mul(other.vector[1])), self.vector[1].mul(other.vector[2]).sub(self.vector[2].mul(other.vector[1]))],
        }
    }

    /// The quotient of two planes: the product with the inverse.
    pub fn div(&self, other: &Plane) -> (r: Motor)
        ensures
            r@ == plane_mul_v(self@, plane_inverse_v(other@)),
    {
        self.mul(&other.inverse())
    }

    /// Half the motion taking this plane to the destination: applying it
    /// twice reaches the destination.
    pub fn move_to(&self, dest: &Plane) -> (r: Motor)
        ensures
            r@ == motor_sqrt_v(plane_mul_v(dest@, plane_inverse_v(self@))),
    {
        dest.div(self).sqrt()
    }
}

impl PartialEq for Plane {
    /// Componentwise comparison within a tolerance of a hundredth.
    fn eq(&self, other: &Plane) -> (r: bool) {
        self.vector[0].adiff(other.vector[0]).le(Fx::from_bits(FX_CENTI))
            && self.vector[1].adiff(other.vector[1]).le(Fx::from_bits(FX_CENTI))
            && self.vector[2].adiff(other.vector[2]).le(Fx::from_bits(FX_CENTI))
            && self.vector[3].adiff(other.vector[3]).le(Fx::from_bits(FX_CENTI))
    }
}

impl vstd::std_specs::cmp::PartialEqSpecImpl for Plane {
    open spec fn obeys_eq_spec() -> bool {
        true
    }

    open spec fn eq_spec(&self, other: &Plane) -> bool {
        plane_similar_v(self@, other@, FX_CENTI as int)
    }
}

/// Duality is an involution: the dual of the dual of a plane is the plane
/// itself, exactly and for every plane.
pub proof fn lemma_plane_dual_involution(a: PlaneV)
    ensures
        crate::point::point_dual_v(plane_dual_v(a)) == a,
{
}

} // verus!
