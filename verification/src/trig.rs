//! Fixed-point circular functions: sine, cosine, and the two-argument
//! arctangent.
//!
//! Each executable function computes a polynomial approximation after
//! range reduction, and its contract states the computed value exactly:
//! the spec function beside it is the same reduction and polynomial over
//! the mathematical integers, so callers reason about precisely the value
//! the code produces.

use vstd::prelude::*;

verus! {

use crate::fx::{
    Fx, fx_add, fx_sub, fx_mul, fx_div, fx_abs, fx_clamp, fx_round, FX_SCALE, clamp_i128,
};

/// Half a turn, rounded to the nearest representable scalar.
pub const PI_BITS: i64 = 3294199;

/// A quarter turn, rounded to the nearest representable scalar.
pub const HALF_PI_BITS: i64 = 1647100;

/// A full turn, rounded to the nearest representable scalar.
pub const TWO_PI_BITS: i64 = 6588398;

/// Spec form of [`wrap`]: the argument brought near the central period by
/// subtracting the nearest whole number of turns.
pub open spec fn fx_wrap(x: int) -> int {
    let n: int = fx_round(fx_div(x, TWO_PI_BITS as int));
    fx_sub(x, fx_clamp(n * (TWO_PI_BITS as int)))
}

/// Spec form of [`fold`]: the wrapped argument reflected into the central
/// half period, where the sine polynomial is accurate.
pub open spec fn fx_fold(x: int) -> int {
    let r: int = fx_wrap(x);
    if r > HALF_PI_BITS as int {
        fx_sub(PI_BITS as int, r)
    } else if r < -(HALF_PI_BITS as int) {
        fx_sub(-(PI_BITS as int), r)
    } else {
        r
    }
}

/// Spec form of [`sin_poly`]: the odd ninth-degree polynomial whose
/// coefficients are the fixed-point roundings of the sine series.
pub open spec fn fx_sin_poly(r: int) -> int {
    let r2: int = fx_mul(r, r);
    fx_mul(
        r,
        fx_sub(
            1048576,
            fx_mul(
                r2,
                fx_sub(174763, fx_mul(r2, fx_sub(8738, fx_mul(r2, fx_sub(208, fx_mul(r2, 3)))))),
            ),
        ),
    )
}

/// Spec form of [`sin`]: the folded polynomial, clamped into `[-1, 1]`.
pub open spec fn fx_sin(x: int) -> int {
    let s: int = fx_sin_poly(fx_fold(x));
    if s > FX_SCALE as int {
        FX_SCALE as int
    } else if s < -(FX_SCALE as int) {
        -(FX_SCALE as int)
    } else {
        s
    }
}

/// Spec form of [`cos`]: the sine a quarter turn ahead.
pub open spec fn fx_cos(x: int) -> int {
    fx_sin(fx_add(x, HALF_PI_BITS as int))
}

/// Spec form of [`atan_unit`]: the odd eleventh-degree polynomial whose
/// coefficients are the fixed-point roundings of a minimax fit of the
/// arctangent on `[-1, 1]`.
pub open spec fn fx_atan_unit(t: int) -> int {
    let t2: int = fx_mul(t, t);
    fx_mul(
        t,
        fx_add(
            1048552,
            fx_mul(
                t2,
                fx_add(
                    -348798,
                    fx_mul(
                        t2,
                        fx_add(
                            202946,
                            fx_mul(t2, fx_add(-122089, fx_mul(t2, fx_add(55210, fx_mul(t2, -12290))))),
                        ),
                    ),
                ),
            ),
        ),
    )
}

/// Spec form of [`atan2`]: the quadrant-corrected arctangent of `y / x`,
/// zero when both arguments are zero.
pub open spec fn fx_atan2(y: int, x: int) -> int {
    if x == 0 && y == 0 {
        0
    } else if fx_abs(y) <= fx_abs(x) {
        let a: int = fx_atan_unit(fx_div(y, x));
        if x > 0 {
            a
        } else if y >= 0 {
            fx_add(a, PI_BITS as int)
        } else {
            fx_sub(a, PI_BITS as int)
        }
    } else {
        let a: int = fx_atan_unit(fx_div(x, y));
        if y > 0 {
            fx_sub(HALF_PI_BITS as int, a)
        } else {
            fx_sub(-(HALF_PI_BITS as int), a)
        }
    }
}

/// Subtract the nearest whole number of turns from the argument.
pub fn wrap(x: Fx) -> (r: Fx)
    ensures
        r.v() == fx_wrap(x.v()),
{
    let n: i64 = x.div(Fx::from_bits(TWO_PI_BITS)).round_int();
    let prod: i128 = (n as i128) * (TWO_PI_BITS as i128);
    x.sub(Fx { bits: clamp_i128(prod) })
}

/// Reflect the wrapped argument into the central half period.
pub fn fold(x: Fx) -> (r: Fx)
    ensures
        r.v() == fx_fold(x.v()),
{
    let w: Fx = wrap(x);
    if w.bits > HALF_PI_BITS {
        Fx::from_bits(PI_BITS).sub(w)
    } else if w.bits < -HALF_PI_BITS {
        Fx::from_bits(-PI_BITS).sub(w)
    } else {
        w
    }
}

/// The sine polynomial on the central half period.
fn sin_poly(r: Fx) -> (s: Fx)
    ensures
        s.v() == fx_sin_poly(r.v()),
{
    let r2: Fx = r.mul(r);
    r.mul(
        Fx::from_bits(1048576).sub(
            r2.mul(
                Fx::from_bits(174763).sub(
                    r2.mul(
                        Fx::from_bits(8738).sub(
                            r2.mul(Fx::from_bits(208).sub(r2.mul(Fx::from_bits(3)))),
                        ),
                    ),
                ),
            ),
        ),
    )
}

/// The sine of a fixed-point angle in radians, in `[-1, 1]`.
pub fn sin(x: Fx) -> (r: Fx)
    ensures
        r.v() == fx_sin(x.v()),
        fx_abs(r.v()) <= FX_SCALE as int,
{
    let s: Fx = sin_poly(fold(x));
    if s.bits > FX_SCALE {
        Fx::from_bits(FX_SCALE)
    } else if s.bits < -FX_SCALE {
        Fx::from_bits(-FX_SCALE)
    } else {
        s
    }
}

/// The cosine of a fixed-point angle in radians, in `[-1, 1]`.
pub fn cos(x: Fx) -> (r: Fx)
    ensures
        r.v() == fx_cos(x.v()),
        fx_abs(r.v()) <= FX_SCALE as int,
{
    sin(x.add(Fx::from_bits(HALF_PI_BITS)))
}

/// The arctangent polynomial on `[-1, 1]`.
fn atan_unit(t: Fx) -> (r: Fx)
    ensures
        r.v() == fx_atan_unit(t.v()),
{
    let t2: Fx = t.mul(t);
    t.mul(
        Fx::from_bits(1048552).add(
            t2.mul(
                Fx::from_bits(-348798).add(
                    t2.mul(
                        Fx::from_bits(202946).add(
                            t2.mul(
                                Fx::from_bits(-122089).add(
                                    t2.mul(Fx::from_bits(55210).add(t2.mul(Fx::from_bits(-12290)))),
                                ),
                            ),
                        ),
                    ),
                ),
            ),
        ),
    )
}

/// The angle of the point `(x, y)` from the positive x axis, in
/// `(-pi, pi]`; zero when both arguments are zero.
pub fn atan2(y: Fx, x: Fx) -> (r: Fx)
    ensures
        r.v() == fx_atan2(y.v(), x.v()),
{
    if x.bits == 0 && y.bits == 0 {
        Fx::from_bits(0)
    } else if y.abs_le(x) {
        let a: Fx = atan_unit(y.div(x));
        if x.bits > 0 {
            a
        } else if y.bits >= 0 {
            a.add(Fx::from_bits(PI_BITS))
        } else {
            a.sub(Fx::from_bits(PI_BITS))
        }
    } else {
        let a: Fx = atan_unit(x.div(y));
        if y.bits > 0 {
            Fx::from_bits(HALF_PI_BITS).sub(a)
        } else {
            Fx::from_bits(-HALF_PI_BITS).sub(a)
        }
    }
}

} // verus!
