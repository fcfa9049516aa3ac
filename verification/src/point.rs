//! Points: grade-3 elements, homogeneous coordinates on the trivector
//! basis; dual to planes.

use vstd::prelude::*;

verus! {

use crate::fx::{Fx, fx_add, fx_neg, fx_mul, fx_div, fx_abs, fx_adiff, fx_clamp, FX_SCALE, FX_CENTI};
use crate::model::{PointV, PlaneV, TranslatorV};
use crate::plane::Plane;
use crate::translator::{Translator, translator_sqrt_v};
use crate::rng::random_fx;

/// A homogeneous point `[w, x, y, z]` on the trivector basis; `w` of one
/// is a finite point, `w` of zero an ideal point (a direction).
#[derive(Debug)]
pub struct Point {
    pub trivector: [Fx; 4],
}

impl View for Point {
    type V = PointV;

    open spec fn view(&self) -> PointV {
        PointV {
            t0: self.trivector[0].v(),
            t1: self.trivector[1].v(),
            t2: self.trivector[2].v(),
            t3: self.trivector[3].v(),
        }
    }
}

/// Spec form of [`Point::new`].
pub open spec fn point_new_v(x: int, y: int, z: int) -> PointV {
    PointV { t0: FX_SCALE as int, t1: fx_neg(x), t2: fx_neg(y), t3: fx_neg(z) }
}

/// Spec form of [`Point::inf`].
pub open spec fn point_inf_v(x: int, y: int, z: int) -> PointV {
    PointV { t0: 0, t1: fx_neg(x), t2: fx_neg(y), t3: fx_neg(z) }
}

/// Spec form of [`Point::dual`].
pub open spec fn point_dual_v(a: PointV) -> PlaneV {
    PlaneV { v0: a.t0, v1: a.t1, v2: a.t2, v3: a.t3 }
}

/// Spec form of [`Point::neg`].
pub open spec fn point_neg_v(a: PointV) -> PointV {
    PointV { t0: fx_neg(a.t0), t1: fx_neg(a.t1), t2: fx_neg(a.t2), t3: fx_neg(a.t3) }
}

/// Spec form of [`Point::normalize`].
pub open spec fn point_normalize_v(a: PointV) -> PointV {
    PointV {
        t0: fx_div(a.t0, a.t0),
        t1: fx_div(a.t1, a.t0),
        t2: fx_div(a.t2, a.t0),
        t3: fx_div(a.t3, a.t0),
    }
}

/// Spec form of [`Point::inverse`].
pub open spec fn point_inverse_v(a: PointV) -> PointV {
    let fac: int = fx_div(1048576, fx_mul(a.t0, a.t0));
    PointV {
        t0: fx_div(fx_neg(1048576), a.t0),
        t1: fx_mul(fx_neg(a.t1), fac),
        t2: fx_mul(fx_neg(a.t2), fac),
        t3: fx_mul(fx_neg(a.t3), fac),
    }
}

/// Spec form of [`Point::mul`].
pub open spec fn point_mul_v(a: PointV, b: PointV) -> TranslatorV {
    TranslatorV {
        s: fx_mul(fx_neg(a.t0), b.t0),
        v0: fx_add(fx_mul(fx_neg(a.t0), b.t1), fx_mul(a.t1, b.t0)),
        v1: fx_add(fx_mul(fx_neg(a.t0), b.t2), fx_mul(a.t2, b.t0)),
        v2: fx_add(fx_mul(fx_neg(a.t0), b.t3), fx_mul(a.t3, b.t0)),
    }
}

/// Whether every coordinate of two points differs by at most `d`.
pub open spec fn point_similar_v(a: PointV, b: PointV, d: int) -> bool {
    fx_adiff(a.t0, b.t0) <= d && fx_adiff(a.t1, b.t1) <= d && fx_adiff(a.t2, b.t2) <= d
        && fx_adiff(a.t3, b.t3) <= d
}

impl Point {
    /// The finite point at `(x, y, z)`; the sign flip moves the coordinates
    /// onto the trivector basis.
    pub fn new(p: &[Fx; 3]) -> (r: Point)
        ensures
            r@ == point_new_v(p[0].v(), p[1].v(), p[2].v()),
    {
        Point {
            trivector: [Fx::from_bits(FX_SCALE), p[0].neg(), p[1].neg(), p[2].neg()],
        }
    }

    /// The ideal point (direction) toward `(x, y, z)`.
    pub fn inf(p: &[Fx; 3]) -> (r: Point)
        ensures
            r@ == point_inf_v(p[0].v(), p[1].v(), p[2].v()),
    {
        Point { trivector: [Fx::from_bits(0), p[0].neg(), p[1].neg(), p[2].neg()] }
    }

    /// The unit point on the x axis.
    pub fn x() -> (r: Point)
        ensures
            r@ == point_new_v(FX_SCALE as int, 0, 0),
    {
        Point::new(&[Fx::from_bits(FX_SCALE), Fx::from_bits(0), Fx::from_bits(0)])
    }

    /// The unit point on the y axis.
    pub fn y() -> (r: Point)
        ensures
            r@ == point_new_v(0, FX_SCALE as int, 0),
    {
        Point::new(&[Fx::from_bits(0), Fx::from_bits(FX_SCALE), Fx::from_bits(0)])
    }

    /// The unit point on the z axis.
    pub fn z() -> (r: Point)
        ensures
            r@ == point_new_v(0, 0, FX_SCALE as int),
    {
        Point::new(&[Fx::from_bits(0), Fx::from_bits(0), Fx::from_bits(FX_SCALE)])
    }

    /// The Euclidean coordinates, read back off the trivector basis.
    pub fn r3(&self) -> (r: [Fx; 3])
        ensures
            r[0].v() == fx_neg(self@.t1),
            r[1].v() == fx_neg(self@.t2),
            r[2].v() == fx_neg(self@.t3),
    {
        [self.trivector[1].neg(), self.trivector[2].neg(), self.trivector[3].neg()]
    }

    /// A point with coordinates drawn uniformly from `[0, 1)`.
    pub fn random() -> (r: Point)
        ensures
            r@.t0 == FX_SCALE as int,
    {
        Point {
            trivector: [Fx::from_bits(FX_SCALE), random_fx(), random_fx(), random_fx()],
        }
    }

    /// A random direction: a random point pushed to infinity.
    pub fn random_dir() -> (r: Point)
        ensures
            r@.t0 == 0,
    {
        let x = Point::random();
        Point {
            trivector: [Fx::from_bits(0), x.trivector[1], x.trivector[2], x.trivector[3]],
        }
    }

    /// The dual plane: the same coordinates relabeled onto the vector basis.
    pub fn dual(&self) -> (r: Plane)
        ensures
            r@ == point_dual_v(self@),
    {
        Plane { vector: self.trivector }
    }

    /// The point with every coordinate negated (the same location with
    /// opposite orientation).
    pub fn neg(&self) -> (r: Point)
        ensures
            r@ == point_neg_v(self@),
    {
        Point {
            trivector: [
                self.trivector[0].neg(),
                self.trivector[1].neg(),
                self.trivector[2].neg(),
                self.trivector[3].neg(),
            ],
        }
    }

    /// The norm: the weight coordinate.
    pub fn norm(&self) -> (r: Fx)
        ensures
            r.v() == self@.t0,
    {
        self.trivector[0]
    }

    /// The point rescaled to unit weight.
    pub fn normalize(&self) -> (r: Point)
        ensures
            r@ == point_normalize_v(self@),
    {
        Point {
            trivector: [
                self.trivector[0].div(self.trivector[0]),
                self.trivector[1].div(self.trivector[0]),
                self.trivector[2].div(self.trivector[0]),
                self.trivector[3].div(self.trivector[0]),
            ],
        }
    }

    /// Whether the point is (nearly) ideal: weight within a hundredth of
    /// zero.
    pub fn is_inf(&self) -> (r: bool)
        ensures
            r == (fx_clamp(fx_abs(self@.t0)) < FX_CENTI as int),
    {
        self.trivector[0].abs().lt(Fx::from_bits(FX_CENTI))
    }

    /// The inverse point: undefined direction for zero weight, where the
    /// quotient saturates.
    pub fn inverse(&self) -> (r: Point)
        ensures
            r@ == point_inverse_v(self@),
    {
        let fac: Fx = Fx::from_bits(1048576).div(self.trivector[0].mul(self.trivector[0]));
        Point {
            trivector: [
                Fx::from_bits(1048576).neg().div(self.trivector[0]),
                self.trivector[1].neg().mul(fac),
                self.trivector[2].neg().mul(fac),
                self.trivector[3].neg().mul(fac),
            ],
        }
    }

    /// The geometric product of two points: a translator.
    pub fn mul(&self, other: &Point) -> (r: Translator)
        ensures
            r@ == point_mul_v(self@, other@),
    {
        Translator {
            scalar: self.trivector[0].neg().mul(other.trivector[0]),
            v_bivector: [self.trivector[0].neg().mul(other.trivector[1]).add(self.trivector[1].mul(other.trivector[0])), self.trivector[0].neg().mul(other.trivector[2]).add(self.trivector[2].mul(other.trivector[0])), self.trivector[0].neg().mul(other.trivector[3]).add(self.trivector[3].mul(other.trivector[0]))],
        }
    }

    /// The quotient of two points: the product with the inverse.
    pub fn div(&self, other: &Point) -> (r: Translator)
        ensures
            r@ == point_mul_v(self@, point_inverse_v(other@)),
    {
        self.mul(&other.inverse())
    }

    /// Half of the translator carrying this point onto the destination:
    /// applying it twice reaches the destination.
    pub fn move_to(&self, dest: &Point) -> (r: Translator)
        ensures
            r@ == translator_sqrt_v(point_mul_v(dest@, point_inverse_v(self@))),
    {
        dest.div(self).sqrt()
    }

    /// Whether every coordinate differs from the other point's by at most
    /// `d`.
    pub fn is_similar_to(&self, d: Fx, other: &Point) -> (r: bool)
        ensures
            r == point_similar_v(self@, other@, d.v()),
    {
        self.trivector[0].adiff(other.trivector[0]).le(d)
            && self.trivector[1].adiff(other.trivector[1]).le(d)
            && self.trivector[2].adiff(other.trivector[2]).le(d)
            && self.trivector[3].adiff(other.trivector[3]).le(d)
    }
}

impl PartialEq for Point {
    /// Componentwise comparison within a tolerance of a hundredth.
    fn eq(&self, other: &Point) -> (r: bool) {
        self.is_similar_to(Fx::from_bits(FX_CENTI), other)
    }
}

impl vstd::std_specs::cmp::PartialEqSpecImpl for Point {
    open spec fn obeys_eq_spec() -> bool {
        true
    }

    open spec fn eq_spec(&self, other: &Point) -> bool {
        point_similar_v(self@, other@, FX_CENTI as int)
    }
}

impl From<[Fx; 3]> for Point {
    /// The finite point with the given coordinates.
    fn from(x: [Fx; 3]) -> (r: Point) {
        Point {
            trivector: [Fx::from_bits(FX_SCALE), x[0].neg(), x[1].neg(), x[2].neg()],
        }
    }
}

impl vstd::std_specs::convert::FromSpecImpl<[Fx; 3]> for Point {
    open spec fn obeys_from_spec() -> bool {
        true
    }

    open spec fn from_spec(x: [Fx; 3]) -> Point {
        Point {
            trivector: [
                Fx { bits: FX_SCALE },
                Fx { bits: fx_neg(x[0].v()) as i64 },
                Fx { bits: fx_neg(x[1].v()) as i64 },
                Fx { bits: fx_neg(x[2].v()) as i64 },
            ],
        }
    }
}

/// Duality is an involution: the dual of the dual of a point is the point
/// itself, exactly and for every point.
pub proof fn lemma_point_dual_involution(a: PointV)
    ensures
        crate::plane::plane_dual_v(point_dual_v(a)) == a,
{
}

} // verus!
