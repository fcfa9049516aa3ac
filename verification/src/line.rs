//! Lines: grade-2 elements, a Euclidean direction part and an ideal
//! moment part; the Lie algebra of the rigid motions.

use vstd::prelude::*;

verus! {

use crate::fx::{
    Fx, fx_add, fx_sub, fx_neg, fx_mul, fx_div, fx_dbl, fx_half, fx_abs, fx_clamp, fx_sqrt,
    FX_SCALE, FX_CENTI, FX_MILLI,
};
use crate::fx::{
    lemma_fx_add_bound, lemma_fx_add_exact, lemma_fx_clamp_shrinks, lemma_fx_div_bound,
    lemma_fx_div_neg, lemma_fx_mul_exact, lemma_fx_mul_in_range, lemma_fx_mul_neg,
    lemma_fx_neg_exact,
};
use crate::model::{LineV, MotorV};
use crate::motor::{
    Motor, motor_mul_v, motor_sqrt_v, motor_add_scalar_v, motor_close_v, motor_from_line_v,
};
use crate::inner::inner_lines_v;
use crate::rng::random_fx;

/// A line: direction coordinates on the Euclidean bivector basis and
/// moment coordinates on the ideal bivector basis.
#[derive(Debug, Copy, Clone)]
pub struct Line {
    pub e_bivector: [Fx; 3],
    pub v_bivector: [Fx; 3],
}

impl View for Line {
    type V = LineV;

    open spec fn view(&self) -> LineV {
        LineV {
            e0: self.e_bivector[0].v(),
            e1: self.e_bivector[1].v(),
            e2: self.e_bivector[2].v(),
            v0: self.v_bivector[0].v(),
            v1: self.v_bivector[1].v(),
            v2: self.v_bivector[2].v(),
        }
    }
}

/// Spec form of [`Line::new`].
pub open spec fn line_new_v(p0: int, p1: int, p2: int, d0: int, d1: int, d2: int) -> LineV {
    LineV {
        v0: fx_sub(fx_mul(p2, d1), fx_mul(p1, d2)),
        v1: fx_sub(fx_mul(p0, d2), fx_mul(p2, d0)),
        v2: fx_sub(fx_mul(p1, d0), fx_mul(p0, d1)),
        e0: d0,
        e1: d1,
        e2: d2,
    }
}

/// The line with every coordinate zero.
pub open spec fn line_zero_v() -> LineV {
    LineV { e0: 0, e1: 0, e2: 0, v0: 0, v1: 0, v2: 0 }
}

/// Spec form of [`Line::dual`]: the two parts swapped.
pub open spec fn line_dual_v(a: LineV) -> LineV {
    LineV { e0: a.v0, e1: a.v1, e2: a.v2, v0: a.e0, v1: a.e1, v2: a.e2 }
}

/// Spec form of [`Line::neg`] and [`Line::reverse`].
pub open spec fn line_neg_v(a: LineV) -> LineV {
    LineV {
        e0: fx_neg(a.e0),
        e1: fx_neg(a.e1),
        e2: fx_neg(a.e2),
        v0: fx_neg(a.v0),
        v1: fx_neg(a.v1),
        v2: fx_neg(a.v2),
    }
}

/// Spec form of [`Line::inverse`].
pub open spec fn line_inverse_v(a: LineV) -> LineV {
    let fac: int = fx_div(1048576, fx_add(fx_add(fx_mul(a.e0, a.e0), fx_mul(a.e1, a.e1)), fx_mul(a.e2, a.e2)));
    LineV {
        e0: fx_mul(fx_neg(a.e0), fac),
        e1: fx_mul(fx_neg(a.e1), fac),
        e2: fx_mul(fx_neg(a.e2), fac),
        v0: fx_mul(fx_neg(a.v0), fac),
        v1: fx_mul(fx_neg(a.v1), fac),
        v2: fx_mul(fx_neg(a.v2), fac),
    }
}

/// Spec form of [`Line::norm`].
pub open spec fn line_norm_v(a: LineV) -> int {
    fx_sqrt(fx_add(fx_add(fx_mul(a.e0, a.e0), fx_mul(a.e1, a.e1)), fx_mul(a.e2, a.e2)))
}

/// Spec form of [`Line::inorm`].
pub open spec fn line_inorm_v(a: LineV) -> int {
    fx_sqrt(fx_add(fx_add(fx_mul(a.v0, a.v0), fx_mul(a.v1, a.v1)), fx_mul(a.v2, a.v2)))
}

/// Spec form of [`Line::normalize`].
pub open spec fn line_normalize_v(a: LineV) -> LineV {
    let n: int = line_norm_v(a);
    LineV {
        e0: fx_div(a.e0, n),
        e1: fx_div(a.e1, n),
        e2: fx_div(a.e2, n),
        v0: a.v0,
        v1: a.v1,
        v2: a.v2,
    }
}

/// Spec form of [`Line::mul`].
pub open spec fn line_mul_v(a: LineV, b: LineV) -> MotorV {
    MotorV {
        s: fx_sub(fx_sub(fx_mul(fx_neg(a.e0), b.e0), fx_mul(a.e1, b.e1)), fx_mul(a.e2, b.e2)),
        ps: fx_add(fx_add(fx_add(fx_add(fx_add(fx_mul(a.e0, b.v0), fx_mul(a.e1, b.v1)), fx_mul(a.e2, b.v2)), fx_mul(b.e0, a.v0)), fx_mul(b.e1, a.v1)), fx_mul(b.e2, a.v2)),
        v0: fx_sub(fx_add(fx_add(fx_mul(fx_neg(a.e1), b.v2), fx_mul(a.e2, b.v1)), fx_mul(b.e1, a.v2)), fx_mul(b.e2, a.v1)),
        v1: fx_add(fx_sub(fx_sub(fx_mul(a.e0, b.v2), fx_mul(a.e2, b.v0)), fx_mul(b.e0, a.v2)), fx_mul(b.e2, a.v0)),
        v2: fx_sub(fx_add(fx_add(fx_mul(fx_neg(a.e0), b.v1), fx_mul(a.e1, b.v0)), fx_mul(b.e0, a.v1)), fx_mul(b.e1, a.v0)),
        e0: fx_add(fx_mul(fx_neg(a.e1), b.e2), fx_mul(a.e2, b.e1)),
        e1: fx_sub(fx_mul(a.e0, b.e2), fx_mul(a.e2, b.e0)),
        e2: fx_add(fx_mul(fx_neg(a.e0), b.e1), fx_mul(a.e1, b.e0)),
    }
}

/// Spec form of [`Line::mul_scalar`].
pub open spec fn line_mul_scalar_v(a: LineV, s: int) -> LineV {
    LineV {
        e0: fx_mul(a.e0, s),
        e1: fx_mul(a.e1, s),
        e2: fx_mul(a.e2, s),
        v0: fx_mul(a.v0, s),
        v1: fx_mul(a.v1, s),
        v2: fx_mul(a.v2, s),
    }
}

/// Spec form of [`Line::add`].
pub open spec fn line_add_v(a: LineV, b: LineV) -> LineV {
    LineV {
        e0: fx_add(a.e0, b.e0),
        e1: fx_add(a.e1, b.e1),
        e2: fx_add(a.e2, b.e2),
        v0: fx_add(a.v0, b.v0),
        v1: fx_add(a.v1, b.v1),
        v2: fx_add(a.v2, b.v2),
    }
}

/// Spec form of [`Line::exp`]: a pure translation for a vanishing
/// Euclidean part, else the closed-form screw motion.
pub open spec fn line_exp_v(a: LineV) -> MotorV {
    let bdb: int = fx_neg(inner_lines_v(a, a));
    let u: int = fx_sqrt(bdb);
    if u < FX_MILLI as int {
        motor_add_scalar_v(motor_from_line_v(a), FX_SCALE as int)
    } else {
        let vps: int = fx_div(crate::meet::meet_lines_v(a, a), fx_dbl(u));
        let cu: int = crate::trig::fx_cos(u);
        let su: int = crate::trig::fx_sin(u);
        let u2: int = fx_mul(u, u);
        MotorV {
            s: cu,
            ps: fx_mul(su, vps),
            v0: fx_add(fx_sub(fx_div(fx_mul(fx_mul(a.e0, cu), vps), u), fx_div(fx_mul(fx_mul(a.e0, su), vps), u2)), fx_div(fx_mul(a.v0, su), u)),
            v1: fx_add(fx_sub(fx_div(fx_mul(fx_mul(a.e1, cu), vps), u), fx_div(fx_mul(fx_mul(a.e1, su), vps), u2)), fx_div(fx_mul(a.v1, su), u)),
            v2: fx_add(fx_sub(fx_div(fx_mul(fx_mul(a.e2, cu), vps), u), fx_div(fx_mul(fx_mul(a.e2, su), vps), u2)), fx_div(fx_mul(a.v2, su), u)),
            e0: fx_div(fx_mul(a.e0, su), u),
            e1: fx_div(fx_mul(a.e1, su), u),
            e2: fx_div(fx_mul(a.e2, su), u),
        }
    }
}

/// Spec form of [`Line::decompose`]: the commuting Euclidean and
/// vanishing parts, in that order.
pub open spec fn line_decompose_v(a: LineV) -> (LineV, LineV) {
    let bdb: int = inner_lines_v(a, line_neg_v(a));
    if fx_clamp(fx_abs(bdb)) < FX_MILLI as int {
        (line_zero_v(), a)
    } else {
        let bmb: int = crate::meet::meet_lines_v(a, line_neg_v(a));
        let eucl: LineV = LineV {
            e0: a.e0,
            e1: a.e1,
            e2: a.e2,
            v0: fx_add(a.v0, fx_div(fx_mul(fx_half(a.e0), bmb), bdb)),
            v1: fx_add(a.v1, fx_div(fx_mul(fx_half(a.e1), bmb), bdb)),
            v2: fx_add(a.v2, fx_div(fx_mul(fx_half(a.e2), bmb), bdb)),
        };
        let van: LineV = LineV {
            e0: 0,
            e1: 0,
            e2: 0,
            v0: fx_div(fx_mul(fx_neg(fx_half(a.e0)), bmb), bdb),
            v1: fx_div(fx_mul(fx_neg(fx_half(a.e1)), bmb), bdb),
            v2: fx_div(fx_mul(fx_neg(fx_half(a.e2)), bmb), bdb),
        };
        (eucl, van)
    }
}

impl Line {
    /// The line through a point with a direction.
    pub fn new(point: &[Fx; 3], dir: &[Fx; 3]) -> (r: Line)
        ensures
            r@ == line_new_v(
                point[0].v(), point[1].v(), point[2].v(),
                dir[0].v(), dir[1].v(), dir[2].v(),
            ),
    {
        Line {
            v_bivector: [
                point[2].mul(dir[1]).sub(point[1].mul(dir[2])),
                point[0].mul(dir[2]).sub(point[2].mul(dir[0])),
                point[1].mul(dir[0]).sub(point[0].mul(dir[1])),
            ],
            e_bivector: [dir[0], dir[1], dir[2]],
        }
    }

    /// A line with coordinates drawn uniformly from `[0, 1)`.
    pub fn random() -> (r: Line) {
        Line {
            v_bivector: [random_fx(), random_fx(), random_fx()],
            e_bivector: [random_fx(), random_fx(), random_fx()],
        }
    }

    /// The line with every coordinate zero.
    pub fn zero() -> (r: Line)
        ensures
            r@ == line_zero_v(),
    {
        Line {
            v_bivector: [Fx::from_bits(0), Fx::from_bits(0), Fx::from_bits(0)],
            e_bivector: [Fx::from_bits(0), Fx::from_bits(0), Fx::from_bits(0)],
        }
    }

    /// The dual line: the two coordinate groups swapped.
    pub fn dual(&self) -> (r: Line)
        ensures
            r@ == line_dual_v(self@),
    {
        Line { v_bivector: self.e_bivector, e_bivector: self.v_bivector }
    }

    /// The reverse of a bivector: its negation.
    pub fn reverse(&self) -> (r: Line)
        ensures
            r@ == line_neg_v(self@),
    {
        self.neg()
    }

    /// The line with every coordinate negated.
    pub fn neg(&self) -> (r: Line)
        ensures
            r@ == line_neg_v(self@),
    {
        Line {
            e_bivector: [
                self.e_bivector[0].neg(),
                self.e_bivector[1].neg(),
                self.e_bivector[2].neg(),
            ],
            v_bivector: [
                self.v_bivector[0].neg(),
                self.v_bivector[1].neg(),
                self.v_bivector[2].neg(),
            ],
        }
    }

    /// The inverse line: saturates for a purely ideal line, whose
    /// Euclidean part is zero.
    pub fn inverse(&self) -> (r: Line)
        ensures
            r@ == line_inverse_v(self@),
    {
        let fac: Fx = Fx::from_bits(1048576).div(self.e_bivector[0].mul(self.e_bivector[0]).add(self.e_bivector[1].mul(self.e_bivector[1])).add(self.e_bivector[2].mul(self.e_bivector[2])));
        Line {
            e_bivector: [
                self.e_bivector[0].neg().mul(fac),
                self.e_bivector[1].neg().mul(fac),
                self.e_bivector[2].neg().mul(fac),
            ],
            v_bivector: [
                self.v_bivector[0].neg().mul(fac),
                self.v_bivector[1].neg().mul(fac),
                self.v_bivector[2].neg().mul(fac),
            ],
        }
    }

    /// The length of the direction part.
    pub fn norm(&self) -> (r: Fx)
        ensures
            r.v() == line_norm_v(self@),
    {
        self.e_bivector[0].mul(self.e_bivector[0]).add(self.e_bivector[1].mul(self.e_bivector[1])).add(self.e_bivector[2].mul(self.e_bivector[2])).sqrt()
    }

    /// The length of the moment part.
    pub fn inorm(&self) -> (r: Fx)
        ensures
            r.v() == line_inorm_v(self@),
    {
        self.v_bivector[0].mul(self.v_bivector[0]).add(self.v_bivector[1].mul(self.v_bivector[1])).add(self.v_bivector[2].mul(self.v_bivector[2])).sqrt()
    }

    /// The line with its direction part rescaled to unit length.
    pub fn normalize(&self) -> (r: Line)
        ensures
            r@ == line_normalize_v(self@),
    {
        let n: Fx = self.norm();
        Line {
            v_bivector: self.v_bivector,
            e_bivector: [
                self.e_bivector[0].div(n),
                self.e_bivector[1].div(n),
                self.e_bivector[2].div(n),
            ],
        }
    }

    /// Whether every coordinate is exactly zero.
    pub fn is_zero(&self) -> (r: bool)
        ensures
            r == (self@ == line_zero_v()),
    {
        let z = self.e_bivector[0].bits == 0 && self.e_bivector[1].bits == 0
            && self.e_bivector[2].bits == 0 && self.v_bivector[0].bits == 0
            && self.v_bivector[1].bits == 0 && self.v_bivector[2].bits == 0;
        proof {
            if z {
                assert(self@ == line_zero_v());
            }
        }
        z
    }

    /// The exponential: the motor performing the screw motion whose
    /// logarithm is this line.  A line with a vanishing direction part
    /// exponentiates to a pure translation.
    pub fn exp(&self) -> (r: Motor)
        ensures
            r@ == line_exp_v(self@),
    {
        let bdb: Fx = crate::inner::lines(self, self).neg();
        let u: Fx = bdb.sqrt();
        if u.bits < FX_MILLI {
            return Motor::from(self).add_scalar(Fx::from_bits(FX_SCALE));
        }
        let vps: Fx = crate::meet::lines(self, self).0.div(u.dbl());
        let cu: Fx = crate::trig::cos(u);
        let su: Fx = crate::trig::sin(u);
        let u2: Fx = u.mul(u);
        Motor {
            scalar: cu,
            pseudo: su.mul(vps),
            v_bivector: [
                self.e_bivector[0].mul(cu).mul(vps).div(u).sub(self.e_bivector[0].mul(su).mul(vps).div(u2)).add(self.v_bivector[0].mul(su).div(u)),
                self.e_bivector[1].mul(cu).mul(vps).div(u).sub(self.e_bivector[1].mul(su).mul(vps).div(u2)).add(self.v_bivector[1].mul(su).div(u)),
                self.e_bivector[2].mul(cu).mul(vps).div(u).sub(self.e_bivector[2].mul(su).mul(vps).div(u2)).add(self.v_bivector[2].mul(su).div(u)),
            ],
            e_bivector: [
                self.e_bivector[0].mul(su).div(u),
                self.e_bivector[1].mul(su).div(u),
                self.e_bivector[2].mul(su).div(u),
            ],
        }
    }

    /// Split the line into a Euclidean part and a vanishing (ideal) part
    /// whose sum is the line and whose products commute: the screw-axis
    /// decomposition.
    pub fn decompose(&self) -> (r: (Line, Line))
        ensures
            r.0@ == line_decompose_v(self@).0,
            r.1@ == line_decompose_v(self@).1,
    {
        let rev: Line = self.reverse();
        let bdb: Fx = crate::inner::lines(self, &rev);
        if bdb.abs().lt(Fx::from_bits(FX_MILLI)) {
            return (Line::zero(), *self);
        }
        let bmb: Fx = crate::meet::lines(self, &rev).0;
        let eucl: Line = Line {
            e_bivector: self.e_bivector,
            v_bivector: [
                self.v_bivector[0].add(self.e_bivector[0].half().mul(bmb).div(bdb)),
                self.v_bivector[1].add(self.e_bivector[1].half().mul(bmb).div(bdb)),
                self.v_bivector[2].add(self.e_bivector[2].half().mul(bmb).div(bdb)),
            ],
        };
        let van: Line = Line {
            e_bivector: [Fx::from_bits(0), Fx::from_bits(0), Fx::from_bits(0)],
            v_bivector: [
                self.e_bivector[0].half().neg().mul(bmb).div(bdb),
                self.e_bivector[1].half().neg().mul(bmb).div(bdb),
                self.e_bivector[2].half().neg().mul(bmb).div(bdb),
            ],
        };
        (eucl, van)
    }

    /// The geometric product of two lines: a motor.
    pub fn mul(&self, other: &Line) -> (r: Motor)
        ensures
            r@ == line_mul_v(self@, other@),
    {
        Motor {
            scalar: self.e_bivector[0].neg().mul(other.e_bivector[0]).sub(self.e_bivector[1].mul(other.e_bivector[1])).sub(self.e_bivector[2].mul(other.e_bivector[2])),
            pseudo: self.e_bivector[0].mul(other.v_bivector[0]).add(self.e_bivector[1].mul(other.v_bivector[1])).add(self.e_bivector[2].mul(other.v_bivector[2])).add(other.e_bivector[0].mul(self.v_bivector[0])).add(other.e_bivector[1].mul(self.v_bivector[1])).add(other.e_bivector[2].mul(self.v_bivector[2])),
            v_bivector: [
                self.e_bivector[1].neg().mul(other.v_bivector[2]).add(self.e_bivector[2].mul(other.v_bivector[1])).add(other.e_bivector[1].mul(self.v_bivector[2])).sub(other.e_bivector[2].mul(self.v_bivector[1])),
                self.e_bivector[0].mul(other.v_bivector[2]).sub(self.e_bivector[2].mul(other.v_bivector[0])).sub(other.e_bivector[0].mul(self.v_bivector[2])).add(other.e_bivector[2].mul(self.v_bivector[0])),
                self.e_bivector[0].neg().mul(other.v_bivector[1]).add(self.e_bivector[1].mul(other.v_bivector[0])).add(other.e_bivector[0].mul(self.v_bivector[1])).sub(other.e_bivector[1].mul(self.v_bivector[0])),
            ],
            e_bivector: [
                self.e_bivector[1].neg().mul(other.e_bivector[2]).add(self.e_bivector[2].mul(other.e_bivector[1])),
                self.e_bivector[0].mul(other.e_bivector[2]).sub(self.e_bivector[2].mul(other.e_bivector[0])),
                self.e_bivector[0].neg().mul(other.e_bivector[1]).add(self.e_bivector[1].mul(other.e_bivector[0])),
            ],
        }
    }

    /// The quotient of two lines: the product with the inverse.
    pub fn div(&self, other: &Line) -> (r: Motor)
        ensures
            r@ == line_mul_v(self@, line_inverse_v(other@)),
    {
        self.mul(&other.inverse())
    }

    /// The line with every coordinate scaled by `s`.
    pub fn mul_scalar(&self, s: Fx) -> (r: Line)
        ensures
            r@ == line_mul_scalar_v(self@, s.v()),
    {
        Line {
            e_bivector: [
                self.e_bivector[0].mul(s),
                self.e_bivector[1].mul(s),
                self.e_bivector[2].mul(s),
            ],
            v_bivector: [
                self.v_bivector[0].mul(s),
                self.v_bivector[1].mul(s),
                self.v_bivector[2].mul(s),
            ],
        }
    }

    /// The line scaled by the reciprocal of `s`.
    pub fn div_scalar(&self, s: Fx) -> (r: Line)
        ensures
            r@ == line_mul_scalar_v(self@, fx_div(FX_SCALE as int, s.v())),
    {
        self.mul_scalar(Fx::from_bits(FX_SCALE).div(s))
    }

    /// The componentwise sum of two lines.
    pub fn add(&self, other: &Line) -> (r: Line)
        ensures
            r@ == line_add_v(self@, other@),
    {
        Line {
            e_bivector: [
                self.e_bivector[0].add(other.e_bivector[0]),
                self.e_bivector[1].add(other.e_bivector[1]),
                self.e_bivector[2].add(other.e_bivector[2]),
            ],
            v_bivector: [
                self.v_bivector[0].add(other.v_bivector[0]),
                self.v_bivector[1].add(other.v_bivector[1]),
                self.v_bivector[2].add(other.v_bivector[2]),
            ],
        }
    }

    /// Half the motion from this line to the destination: the square
    /// root of their quotient.
    pub fn move_to(&self, dest: &Line) -> (r: Motor)
        ensures
            r@ == motor_sqrt_v(line_mul_v(dest@, line_inverse_v(self@))),
    {
        dest.div(self).sqrt()
    }
}

impl<'a> From<&'a Motor> for Line {
    /// The bivector part of a motor.
    fn from(m: &'a Motor) -> (r: Line) {
        Line { e_bivector: m.e_bivector, v_bivector: m.v_bivector }
    }
}

impl<'a> vstd::std_specs::convert::FromSpecImpl<&'a Motor> for Line {
    open spec fn obeys_from_spec() -> bool {
        true
    }

    open spec fn from_spec(m: &'a Motor) -> Line {
        Line { e_bivector: m.e_bivector, v_bivector: m.v_bivector }
    }
}

impl PartialEq for Line {
    /// Two lines are compared through their exponentials, the motors they
    /// generate.
    fn eq(&self, other: &Line) -> (r: bool) {
        let a: Motor = self.exp();
        let b: Motor = other.exp();
        a == b
    }
}

impl vstd::std_specs::cmp::PartialEqSpecImpl for Line {
    open spec fn obeys_eq_spec() -> bool {
        true
    }

    open spec fn eq_spec(&self, other: &Line) -> bool {
        motor_close_v(line_exp_v(self@), line_exp_v(other@), FX_CENTI as int)
    }
}

/// Duality is an involution: the dual of the dual of a line is the line
/// itself, exactly and for every line.
pub proof fn lemma_line_dual_involution(a: LineV)
    ensures
        line_dual_v(line_dual_v(a)) == a,
{
}

/// The two parts of the screw-axis decomposition sum back to the line,
/// exactly, whenever every coordinate's magnitude stays within a bound
/// that keeps the fixed-point arithmetic from saturating.
pub proof fn lemma_decompose_parts_sum(a: LineV)
    requires
        crate::model::line_bounded_v(a, 0x4000_0000),
    ensures
        line_add_v(line_decompose_v(a).0, line_decompose_v(a).1) == a,
{
    let m: int = 0x4000_0000;
    let b: LineV = line_neg_v(a);
    lemma_fx_neg_exact(a.e0);
    lemma_fx_neg_exact(a.e1);
    lemma_fx_neg_exact(a.e2);
    lemma_fx_neg_exact(a.v0);
    lemma_fx_neg_exact(a.v1);
    lemma_fx_neg_exact(a.v2);
    let bdb: int = inner_lines_v(a, b);
    lemma_fx_clamp_shrinks(fx_abs(bdb));
    if fx_clamp(fx_abs(bdb)) < FX_MILLI as int {
        lemma_fx_add_exact(0, a.e0);
        lemma_fx_add_exact(0, a.e1);
        lemma_fx_add_exact(0, a.e2);
        lemma_fx_add_exact(0, a.v0);
        lemma_fx_add_exact(0, a.v1);
        lemma_fx_add_exact(0, a.v2);
    } else {
        let bmb: int = crate::meet::meet_lines_v(a, b);
        assert((m * m) / (FX_SCALE as int) == 0x100_0000_0000);
        lemma_fx_mul_exact(a.e0, b.v0, m, m);
        lemma_fx_mul_exact(a.e1, b.v1, m, m);
        lemma_fx_mul_exact(a.e2, b.v2, m, m);
        lemma_fx_mul_exact(b.e0, a.v0, m, m);
        lemma_fx_mul_exact(b.e1, a.v1, m, m);
        lemma_fx_mul_exact(b.e2, a.v2, m, m);
        lemma_fx_add_bound(fx_mul(a.e0, b.v0), fx_mul(a.e1, b.v1), 0x100_0000_0000, 0x100_0000_0000);
        lemma_fx_add_bound(
            fx_add(fx_mul(a.e0, b.v0), fx_mul(a.e1, b.v1)),
            fx_mul(a.e2, b.v2),
            0x200_0000_0000,
            0x100_0000_0000,
        );
        lemma_fx_add_bound(
            fx_add(fx_add(fx_mul(a.e0, b.v0), fx_mul(a.e1, b.v1)), fx_mul(a.e2, b.v2)),
            fx_mul(b.e0, a.v0),
            0x300_0000_0000,
            0x100_0000_0000,
        );
        lemma_fx_add_bound(
            fx_add(
                fx_add(fx_add(fx_mul(a.e0, b.v0), fx_mul(a.e1, b.v1)), fx_mul(a.e2, b.v2)),
                fx_mul(b.e0, a.v0),
            ),
            fx_mul(b.e1, a.v1),
            0x400_0000_0000,
            0x100_0000_0000,
        );
        lemma_fx_add_bound(
            fx_add(
                fx_add(
                    fx_add(fx_add(fx_mul(a.e0, b.v0), fx_mul(a.e1, b.v1)), fx_mul(a.e2, b.v2)),
                    fx_mul(b.e0, a.v0),
                ),
                fx_mul(b.e1, a.v1),
            ),
            fx_mul(b.e2, a.v2),
            0x500_0000_0000,
            0x100_0000_0000,
        );
        assert(fx_abs(bmb) <= 0x600_0000_0000);
        lemma_decompose_axis_part(a.e0, a.v0, bmb, bdb);
        lemma_decompose_axis_part(a.e1, a.v1, bmb, bdb);
        lemma_decompose_axis_part(a.e2, a.v2, bmb, bdb);
        lemma_fx_add_exact(a.e0, 0);
        lemma_fx_add_exact(a.e1, 0);
        lemma_fx_add_exact(a.e2, 0);
    }
}

/// One coordinate of the decomposition: the ideal share moved onto the
/// axis cancels against its negation, so the two parts sum back to the
/// original moment coordinate.
proof fn lemma_decompose_axis_part(e: int, v: int, bmb: int, bdb: int)
    requires
        fx_abs(e) <= 0x4000_0000,
        fx_abs(v) <= 0x4000_0000,
        fx_abs(bmb) <= 0x600_0000_0000,
        fx_abs(bdb) >= FX_MILLI as int,
    ensures
        fx_add(
            fx_add(v, fx_div(fx_mul(fx_half(e), bmb), bdb)),
            fx_div(fx_mul(fx_neg(fx_half(e)), bmb), bdb),
        ) == v,
{
    let h: int = fx_half(e);
    assert(fx_abs(h) <= 0x2000_0000);
    lemma_fx_mul_exact(h, bmb, 0x2000_0000, 0x600_0000_0000);
    let mi: int = fx_mul(h, bmb);
    assert(fx_abs(mi) <= (0x2000_0000int * 0x600_0000_0000) / (FX_SCALE as int));
    lemma_fx_mul_in_range(h, bmb);
    lemma_fx_mul_neg(h, bmb);
    lemma_fx_div_neg(mi, bdb);
    lemma_fx_div_bound(mi, bdb, 0xC_0000_0000_0000, FX_MILLI as int);
    let x: int = fx_div(mi, bdb);
    assert(fx_abs(x) <= (0xC_0000_0000_0000int * (FX_SCALE as int)) / (FX_MILLI as int));
    lemma_fx_add_exact(v, x);
    lemma_fx_neg_exact(x);
    lemma_fx_add_exact(v + x, -x);
}

} // verus!
