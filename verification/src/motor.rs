//! Motors: the full even subalgebra, representing every rigid motion;
//! the group whose Lie algebra is the lines.

use vstd::prelude::*;

verus! {

use crate::fx::{
    Fx, fx_add, fx_sub, fx_neg, fx_mul, fx_div, fx_dbl, fx_abs, fx_adiff, fx_clamp, fx_sqrt,
    FX_SCALE, FX_CENTI, FX_MILLI, FX_DECI,
};
use crate::model::{MotorV, LineV, RotorV, TranslatorV, PointV, PlaneV};
use crate::point::{Point, point_mul_v, point_inverse_v};
use crate::plane::{Plane, plane_mul_v, plane_inverse_v};
use crate::line::{Line, line_mul_v, line_inverse_v, line_exp_v};
use crate::rotor::Rotor;
use crate::translator::{Translator, translator_sqrt_v, translator_apply_point_v};
use crate::join::{join_points_v, join_line_point_v};
use crate::meet::{meet_planes_v, meet_plane_line_v, meet_lines_v};
use crate::inner::inner_lines_v;
use crate::error::CastError;
use crate::rng::random_fx;

/// A general rigid motion: scalar, ideal bivector, Euclidean bivector and
/// pseudoscalar coordinates.
#[derive(Debug)]
pub struct Motor {
    pub scalar: Fx,
    pub v_bivector: [Fx; 3],
    pub e_bivector: [Fx; 3],
    pub pseudo: Fx,
}

impl View for Motor {
    type V = MotorV;

    open spec fn view(&self) -> MotorV {
        MotorV {
            s: self.scalar.v(),
            ps: self.pseudo.v(),
            v0: self.v_bivector[0].v(),
            v1: self.v_bivector[1].v(),
            v2: self.v_bivector[2].v(),
            e0: self.e_bivector[0].v(),
            e1: self.e_bivector[1].v(),
            e2: self.e_bivector[2].v(),
        }
    }
}

/// The bivector part of a line, as a motor with no scalar or
/// pseudoscalar part.
pub open spec fn motor_from_line_v(a: LineV) -> MotorV {
    MotorV { s: 0, ps: 0, v0: a.v0, v1: a.v1, v2: a.v2, e0: a.e0, e1: a.e1, e2: a.e2 }
}

/// Spec form of [`Motor::neg`].
pub open spec fn motor_neg_v(a: MotorV) -> MotorV {
    MotorV {
        s: fx_neg(a.s),
        ps: fx_neg(a.ps),
        v0: fx_neg(a.v0),
        v1: fx_neg(a.v1),
        v2: fx_neg(a.v2),
        e0: fx_neg(a.e0),
        e1: fx_neg(a.e1),
        e2: fx_neg(a.e2),
    }
}

/// Spec form of [`Motor::reverse`]: the bivector parts negated.
pub open spec fn motor_reverse_v(a: MotorV) -> MotorV {
    MotorV {
        s: a.s,
        ps: a.ps,
        v0: fx_neg(a.v0),
        v1: fx_neg(a.v1),
        v2: fx_neg(a.v2),
        e0: fx_neg(a.e0),
        e1: fx_neg(a.e1),
        e2: fx_neg(a.e2),
    }
}

/// Spec form of [`Motor::add_scalar`].
pub open spec fn motor_add_scalar_v(a: MotorV, x: int) -> MotorV {
    MotorV {
        s: fx_add(a.s, x),
        ps: a.ps,
        v0: a.v0,
        v1: a.v1,
        v2: a.v2,
        e0: a.e0,
        e1: a.e1,
        e2: a.e2,
    }
}

/// Spec form of [`Motor::norm_squared`].
pub open spec fn motor_norm_sq_v(a: MotorV) -> int {
    fx_add(fx_add(fx_add(fx_mul(a.e0, a.e0), fx_mul(a.e1, a.e1)), fx_mul(a.e2, a.e2)), fx_mul(a.s, a.s))
}

/// Spec form of [`Motor::norm`].
pub open spec fn motor_norm_v(a: MotorV) -> int {
    fx_sqrt(motor_norm_sq_v(a))
}

/// Spec form of [`Motor::normalize`].
pub open spec fn motor_normalize_v(a: MotorV) -> MotorV {
    let fac: int = fx_div(FX_SCALE as int, motor_norm_v(a));
    MotorV {
        s: fx_mul(a.s, fac),
        ps: fx_mul(a.ps, fac),
        v0: fx_mul(a.v0, fac),
        v1: fx_mul(a.v1, fac),
        v2: fx_mul(a.v2, fac),
        e0: fx_mul(a.e0, fac),
        e1: fx_mul(a.e1, fac),
        e2: fx_mul(a.e2, fac),
    }
}

/// Spec form of [`Motor::mul_scalar`].
pub open spec fn motor_mul_scalar_v(a: MotorV, s: int) -> MotorV {
    MotorV {
        s: fx_mul(a.s, s),
        ps: fx_mul(a.ps, s),
        v0: fx_mul(a.v0, s),
        v1: fx_mul(a.v1, s),
        v2: fx_mul(a.v2, s),
        e0: fx_mul(a.e0, s),
        e1: fx_mul(a.e1, s),
        e2: fx_mul(a.e2, s),
    }
}

/// Spec form of [`Motor::inverse`].
pub open spec fn motor_inverse_v(a: MotorV) -> MotorV {
    motor_mul_scalar_v(motor_reverse_v(a), fx_div(FX_SCALE as int, motor_norm_sq_v(a)))
}

/// Spec form of [`Motor::mul`].
pub open spec fn motor_mul_v(a: MotorV, b: MotorV) -> MotorV {
    MotorV {
        s: fx_add(fx_sub(fx_sub(fx_mul(fx_neg(a.e0), b.e0), fx_mul(a.e1, b.e1)), fx_mul(a.e2, b.e2)), fx_mul(a.s, b.s)),
        ps: fx_add(fx_add(fx_add(fx_add(fx_add(fx_add(fx_add(fx_mul(a.e0, b.v0), fx_mul(a.e1, b.v1)), fx_mul(a.e2, b.v2)), fx_mul(b.e0, a.v0)), fx_mul(b.e1, a.v1)), fx_mul(b.e2, a.v2)), fx_mul(a.ps, b.s)), fx_mul(b.ps, a.s)),
        v0: fx_add(fx_add(fx_sub(fx_add(fx_sub(fx_add(fx_sub(fx_mul(fx_neg(a.e0), b.ps), fx_mul(a.e1, b.v2)), fx_mul(a.e2, b.v1)), fx_mul(b.e0, a.ps)), fx_mul(b.e1, a.v2)), fx_mul(b.e2, a.v1)), fx_mul(a.s, b.v0)), fx_mul(b.s, a.v0)),
        v1: fx_add(fx_add(fx_add(fx_sub(fx_sub(fx_sub(fx_sub(fx_mul(a.e0, b.v2), fx_mul(a.e1, b.ps)), fx_mul(a.e2, b.v0)), fx_mul(b.e0, a.v2)), fx_mul(b.e1, a.ps)), fx_mul(b.e2, a.v0)), fx_mul(a.s, b.v1)), fx_mul(b.s, a.v1)),
        v2: fx_add(fx_add(fx_sub(fx_sub(fx_add(fx_sub(fx_add(fx_mul(fx_neg(a.e0), b.v1), fx_mul(a.e1, b.v0)), fx_mul(a.e2, b.ps)), fx_mul(b.e0, a.v1)), fx_mul(b.e1, a.v0)), fx_mul(b.e2, a.ps)), fx_mul(a.s, b.v2)), fx_mul(b.s, a.v2)),
        e0: fx_add(fx_add(fx_sub(fx_mul(a.e0, b.s), fx_mul(a.e1, b.e2)), fx_mul(a.e2, b.e1)), fx_mul(b.e0, a.s)),
        e1: fx_add(fx_sub(fx_add(fx_mul(a.e0, b.e2), fx_mul(a.e1, b.s)), fx_mul(a.e2, b.e0)), fx_mul(b.e1, a.s)),
        e2: fx_add(fx_add(fx_add(fx_mul(fx_neg(a.e0), b.e1), fx_mul(a.e1, b.e0)), fx_mul(a.e2, b.s)), fx_mul(b.e2, a.s)),
    }
}

/// Spec form of [`Motor::mul_translator`].
pub open spec fn motor_mul_translator_v(a: MotorV, b: TranslatorV) -> MotorV {
    MotorV {
        s: fx_mul(a.s, b.s),
        ps: fx_add(fx_add(fx_add(fx_mul(a.e0, b.v0), fx_mul(a.e1, b.v1)), fx_mul(a.e2, b.v2)), fx_mul(a.ps, b.s)),
        v0: fx_add(fx_add(fx_add(fx_mul(fx_neg(a.e1), b.v2), fx_mul(a.e2, b.v1)), fx_mul(a.s, b.v0)), fx_mul(a.v0, b.s)),
        v1: fx_add(fx_add(fx_sub(fx_mul(a.e0, b.v2), fx_mul(a.e2, b.v0)), fx_mul(a.s, b.v1)), fx_mul(a.v1, b.s)),
        v2: fx_add(fx_add(fx_add(fx_mul(fx_neg(a.e0), b.v1), fx_mul(a.e1, b.v0)), fx_mul(a.s, b.v2)), fx_mul(a.v2, b.s)),
        e0: fx_mul(a.e0, b.s),
        e1: fx_mul(a.e1, b.s),
        e2: fx_mul(a.e2, b.s),
    }
}

/// Spec form of [`Motor::sqrt`].
pub open spec fn motor_sqrt_v(a: MotorV) -> MotorV {
    let r2: int = fx_sqrt(2097152);
    let sp1: int = fx_sqrt(fx_add(a.s, 1048576));
    let den: int = fx_add(fx_mul(a.s, sp1), sp1);
    MotorV {
        s: fx_div(fx_sqrt(fx_add(fx_dbl(a.s), 2097152)), 2097152),
        ps: fx_div(fx_mul(r2, a.ps), fx_mul(4194304, sp1)),
        v0: fx_add(fx_add(fx_div(fx_mul(fx_mul(r2, a.e0), a.ps), fx_mul(4194304, den)), fx_div(fx_mul(fx_mul(r2, a.s), a.v0), fx_mul(2097152, den))), fx_div(fx_mul(r2, a.v0), fx_mul(2097152, den))),
        v1: fx_add(fx_add(fx_div(fx_mul(fx_mul(r2, a.e1), a.ps), fx_mul(4194304, den)), fx_div(fx_mul(fx_mul(r2, a.s), a.v1), fx_mul(2097152, den))), fx_div(fx_mul(r2, a.v1), fx_mul(2097152, den))),
        v2: fx_add(fx_add(fx_div(fx_mul(fx_mul(r2, a.e2), a.ps), fx_mul(4194304, den)), fx_div(fx_mul(fx_mul(r2, a.s), a.v2), fx_mul(2097152, den))), fx_div(fx_mul(r2, a.v2), fx_mul(2097152, den))),
        e0: fx_div(fx_mul(r2, a.e0), fx_mul(2097152, sp1)),
        e1: fx_div(fx_mul(r2, a.e1), fx_mul(2097152, sp1)),
        e2: fx_div(fx_mul(r2, a.e2), fx_mul(2097152, sp1)),
    }
}

/// Spec form of [`Motor::ssqrt`].
pub open spec fn motor_ssqrt_v(a: MotorV) -> MotorV {
    motor_normalize_v(motor_add_scalar_v(a, FX_SCALE as int))
}

/// Spec form of [`Motor::ln`]: the bivector part alone for a
/// translation-like motor, else the closed-form inverse screw formula,
/// with an alternate pitch quotient where the scalar part vanishes (a
/// half turn) so that nothing divides by the vanishing scalar.
pub open spec fn motor_ln_v(a: MotorV) -> LineV {
    let b: LineV = LineV { e0: a.e0, e1: a.e1, e2: a.e2, v0: a.v0, v1: a.v1, v2: a.v2 };
    let bdb: int = fx_neg(inner_lines_v(b, b));
    if fx_clamp(fx_abs(bdb)) < FX_MILLI as int {
        b
    } else {
        let s2: int = fx_sqrt(bdb);
        let p2: int = fx_div(meet_lines_v(b, b), fx_dbl(s2));
        let u: int = crate::trig::fx_atan2(s2, a.s);
        let vv: int = if fx_clamp(fx_abs(a.s)) > FX_MILLI as int {
            fx_mul(p2, fx_div(FX_SCALE as int, a.s))
        } else {
            fx_div(a.ps, s2)
        };
        let s2sq: int = fx_mul(s2, s2);
        LineV {
            e0: fx_div(fx_mul(a.e0, u), s2),
            e1: fx_div(fx_mul(a.e1, u), s2),
            e2: fx_div(fx_mul(a.e2, u), s2),
            v0: fx_add(fx_add(fx_div(fx_mul(fx_mul(fx_neg(a.e0), p2), u), s2sq), fx_div(fx_mul(a.e0, vv), s2)), fx_div(fx_mul(a.v0, u), s2)),
            v1: fx_add(fx_add(fx_div(fx_mul(fx_mul(fx_neg(a.e1), p2), u), s2sq), fx_div(fx_mul(a.e1, vv), s2)), fx_div(fx_mul(a.v1, u), s2)),
            v2: fx_add(fx_add(fx_div(fx_mul(fx_mul(fx_neg(a.e2), p2), u), s2sq), fx_div(fx_mul(a.e2, vv), s2)), fx_div(fx_mul(a.v2, u), s2)),
        }
    }
}

/// Spec form of [`Motor::apply_to_point`].
pub open spec fn motor_apply_point_v(a: MotorV, b: PointV) -> PointV {
    PointV {
        t0: fx_mul(b.t0, fx_add(fx_add(fx_add(fx_mul(a.e0, a.e0), fx_mul(a.e1, a.e1)), fx_mul(a.e2, a.e2)), fx_mul(a.s, a.s))),
        t1: fx_sub(fx_add(fx_sub(fx_add(fx_sub(fx_add(fx_sub(fx_sub(fx_sub(fx_add(fx_add(fx_mul(fx_mul(a.e0, a.e0), b.t1), fx_mul(fx_mul(fx_dbl(a.e0), a.e1), b.t2)), fx_mul(fx_mul(fx_dbl(a.e0), a.e2), b.t3)), fx_mul(fx_mul(fx_dbl(a.e0), a.ps), b.t0)), fx_mul(fx_mul(a.e1, a.e1), b.t1)), fx_mul(fx_mul(fx_dbl(a.e1), a.s), b.t3)), fx_mul(fx_mul(fx_dbl(a.e1), a.v2), b.t0)), fx_mul(fx_mul(a.e2, a.e2), b.t1)), fx_mul(fx_mul(fx_dbl(a.e2), a.s), b.t2)), fx_mul(fx_mul(fx_dbl(a.e2), a.v1), b.t0)), fx_mul(fx_mul(a.s, a.s), b.t1)), fx_mul(fx_mul(fx_dbl(a.s), a.v0), b.t0)),
        t2: fx_sub(fx_add(fx_add(fx_sub(fx_sub(fx_sub(fx_add(fx_add(fx_sub(fx_add(fx_add(fx_mul(fx_neg(fx_mul(a.e0, a.e0)), b.t2), fx_mul(fx_mul(fx_dbl(a.e0), a.e1), b.t1)), fx_mul(fx_mul(fx_dbl(a.e0), a.s), b.t3)), fx_mul(fx_mul(fx_dbl(a.e0), a.v2), b.t0)), fx_mul(fx_mul(a.e1, a.e1), b.t2)), fx_mul(fx_mul(fx_dbl(a.e1), a.e2), b.t3)), fx_mul(fx_mul(fx_dbl(a.e1), a.ps), b.t0)), fx_mul(fx_mul(a.e2, a.e2), b.t2)), fx_mul(fx_mul(fx_dbl(a.e2), a.s), b.t1)), fx_mul(fx_mul(fx_dbl(a.e2), a.v0), b.t0)), fx_mul(fx_mul(a.s, a.s), b.t2)), fx_mul(fx_mul(fx_dbl(a.s), a.v1), b.t0)),
        t3: fx_sub(fx_add(fx_sub(fx_add(fx_sub(fx_add(fx_add(fx_sub(fx_add(fx_sub(fx_add(fx_mul(fx_neg(fx_mul(a.e0, a.e0)), b.t3), fx_mul(fx_mul(fx_dbl(a.e0), a.e2), b.t1)), fx_mul(fx_mul(fx_dbl(a.e0), a.s), b.t2)), fx_mul(fx_mul(fx_dbl(a.e0), a.v1), b.t0)), fx_mul(fx_mul(a.e1, a.e1), b.t3)), fx_mul(fx_mul(fx_dbl(a.e1), a.e2), b.t2)), fx_mul(fx_mul(fx_dbl(a.e1), a.s), b.t1)), fx_mul(fx_mul(fx_dbl(a.e1), a.v0), b.t0)), fx_mul(fx_mul(a.e2, a.e2), b.t3)), fx_mul(fx_mul(fx_dbl(a.e2), a.ps), b.t0)), fx_mul(fx_mul(a.s, a.s), b.t3)), fx_mul(fx_mul(fx_dbl(a.s), a.v2), b.t0)),
    }
}

/// Spec form of [`Motor::apply_to_plane`].
pub open spec fn motor_apply_plane_v(a: MotorV, b: PlaneV) -> PlaneV {
    PlaneV {
        v0: fx_add(fx_add(fx_add(fx_add(fx_sub(fx_add(fx_add(fx_add(fx_add(fx_sub(fx_add(fx_add(fx_sub(fx_add(fx_add(fx_mul(fx_mul(a.e0, a.e0), b.v0), fx_mul(fx_mul(fx_dbl(a.e0), a.ps), b.v1)), fx_mul(fx_mul(fx_dbl(a.e0), a.v1), b.v3)), fx_mul(fx_mul(fx_dbl(a.e0), a.v2), b.v2)), fx_mul(fx_mul(a.e1, a.e1), b.v0)), fx_mul(fx_mul(fx_dbl(a.e1), a.ps), b.v2)), fx_mul(fx_mul(fx_dbl(a.e1), a.v0), b.v3)), fx_mul(fx_mul(fx_dbl(a.e1), a.v2), b.v1)), fx_mul(fx_mul(a.e2, a.e2), b.v0)), fx_mul(fx_mul(fx_dbl(a.e2), a.ps), b.v3)), fx_mul(fx_mul(fx_dbl(a.e2), a.v0), b.v2)), fx_mul(fx_mul(fx_dbl(a.e2), a.v1), b.v1)), fx_mul(fx_mul(a.s, a.s), b.v0)), fx_mul(fx_mul(fx_dbl(a.s), a.v0), b.v1)), fx_mul(fx_mul(fx_dbl(a.s), a.v1), b.v2)), fx_mul(fx_mul(fx_dbl(a.s), a.v2), b.v3)),
        v1: fx_add(fx_add(fx_sub(fx_sub(fx_sub(fx_add(fx_add(fx_mul(fx_mul(a.e0, a.e0), b.v1), fx_mul(fx_mul(fx_dbl(a.e0), a.e1), b.v2)), fx_mul(fx_mul(fx_dbl(a.e0), a.e2), b.v3)), fx_mul(fx_mul(a.e1, a.e1), b.v1)), fx_mul(fx_mul(fx_dbl(a.e1), a.s), b.v3)), fx_mul(fx_mul(a.e2, a.e2), b.v1)), fx_mul(fx_mul(fx_dbl(a.e2), a.s), b.v2)), fx_mul(fx_mul(a.s, a.s), b.v1)),
        v2: fx_add(fx_sub(fx_sub(fx_add(fx_add(fx_add(fx_add(fx_mul(fx_neg(fx_mul(a.e0, a.e0)), b.v2), fx_mul(fx_mul(fx_dbl(a.e0), a.e1), b.v1)), fx_mul(fx_mul(fx_dbl(a.e0), a.s), b.v3)), fx_mul(fx_mul(a.e1, a.e1), b.v2)), fx_mul(fx_mul(fx_dbl(a.e1), a.e2), b.v3)), fx_mul(fx_mul(a.e2, a.e2), b.v2)), fx_mul(fx_mul(fx_dbl(a.e2), a.s), b.v1)), fx_mul(fx_mul(a.s, a.s), b.v2)),
        v3: fx_add(fx_add(fx_add(fx_add(fx_sub(fx_sub(fx_add(fx_mul(fx_neg(fx_mul(a.e0, a.e0)), b.v3), fx_mul(fx_mul(fx_dbl(a.e0), a.e2), b.v1)), fx_mul(fx_mul(fx_dbl(a.e0), a.s), b.v2)), fx_mul(fx_mul(a.e1, a.e1), b.v3)), fx_mul(fx_mul(fx_dbl(a.e1), a.e2), b.v2)), fx_mul(fx_mul(fx_dbl(a.e1), a.s), b.v1)), fx_mul(fx_mul(a.e2, a.e2), b.v3)), fx_mul(fx_mul(a.s, a.s), b.v3)),
    }
}

/// Spec form of [`Motor::apply_to_line`].
pub open spec fn motor_apply_line_v(a: MotorV, b: LineV) -> LineV {
    LineV {
        e0: fx_sub(fx_add(fx_add(fx_add(fx_add(fx_sub(fx_sub(fx_mul(fx_mul(b.e0, a.e0), a.e0), fx_mul(fx_mul(b.e0, a.e1), a.e1)), fx_mul(fx_mul(b.e0, a.e2), a.e2)), fx_mul(fx_mul(b.e0, a.s), a.s)), fx_mul(fx_mul(fx_dbl(b.e1), a.e0), a.e1)), fx_mul(fx_mul(fx_dbl(b.e1), a.e2), a.s)), fx_mul(fx_mul(fx_dbl(b.e2), a.e0), a.e2)), fx_mul(fx_mul(fx_dbl(b.e2), a.e1), a.s)),
        e1: fx_add(fx_add(fx_add(fx_sub(fx_add(fx_sub(fx_sub(fx_mul(fx_mul(fx_dbl(b.e0), a.e0), a.e1), fx_mul(fx_mul(fx_dbl(b.e0), a.e2), a.s)), fx_mul(fx_mul(b.e1, a.e0), a.e0)), fx_mul(fx_mul(b.e1, a.e1), a.e1)), fx_mul(fx_mul(b.e1, a.e2), a.e2)), fx_mul(fx_mul(b.e1, a.s), a.s)), fx_mul(fx_mul(fx_dbl(b.e2), a.e0), a.s)), fx_mul(fx_mul(fx_dbl(b.e2), a.e1), a.e2)),
        e2: fx_add(fx_add(fx_sub(fx_sub(fx_add(fx_sub(fx_add(fx_mul(fx_mul(fx_dbl(b.e0), a.e0), a.e2), fx_mul(fx_mul(fx_dbl(b.e0), a.e1), a.s)), fx_mul(fx_mul(fx_dbl(b.e1), a.e0), a.s)), fx_mul(fx_mul(fx_dbl(b.e1), a.e1), a.e2)), fx_mul(fx_mul(b.e2, a.e0), a.e0)), fx_mul(fx_mul(b.e2, a.e1), a.e1)), fx_mul(fx_mul(b.e2, a.e2), a.e2)), fx_mul(fx_mul(b.e2, a.s), a.s)),
        v0: fx_sub(fx_add(fx_add(fx_add(fx_add(fx_sub(fx_sub(fx_add(fx_sub(fx_add(fx_add(fx_add(fx_add(fx_sub(fx_add(fx_add(fx_sub(fx_sub(fx_sub(fx_mul(fx_mul(fx_dbl(b.e0), a.e0), a.v0), fx_mul(fx_mul(fx_dbl(b.e0), a.e1), a.v1)), fx_mul(fx_mul(fx_dbl(b.e0), a.e2), a.v2)), fx_mul(fx_mul(fx_dbl(b.e0), a.ps), a.s)), fx_mul(fx_mul(fx_dbl(b.e1), a.e0), a.v1)), fx_mul(fx_mul(fx_dbl(b.e1), a.e1), a.v0)), fx_mul(fx_mul(fx_dbl(b.e1), a.e2), a.ps)), fx_mul(fx_mul(fx_dbl(b.e1), a.s), a.v2)), fx_mul(fx_mul(fx_dbl(b.e2), a.e0), a.v2)), fx_mul(fx_mul(fx_dbl(b.e2), a.e1), a.ps)), fx_mul(fx_mul(fx_dbl(b.e2), a.e2), a.v0)), fx_mul(fx_mul(fx_dbl(b.e2), a.s), a.v1)), fx_mul(fx_mul(b.v0, a.e0), a.e0)), fx_mul(fx_mul(b.v0, a.e1), a.e1)), fx_mul(fx_mul(b.v0, a.e2), a.e2)), fx_mul(fx_mul(b.v0, a.s), a.s)), fx_mul(fx_mul(fx_dbl(b.v1), a.e0), a.e1)), fx_mul(fx_mul(fx_dbl(b.v1), a.e2), a.s)), fx_mul(fx_mul(fx_dbl(b.v2), a.e0), a.e2)), fx_mul(fx_mul(fx_dbl(b.v2), a.e1), a.s)),
        v1: fx_add(fx_add(fx_add(fx_sub(fx_add(fx_sub(fx_sub(fx_add(fx_add(fx_add(fx_add(fx_sub(fx_sub(fx_sub(fx_add(fx_sub(fx_sub(fx_add(fx_add(fx_mul(fx_mul(fx_dbl(b.e0), a.e0), a.v1), fx_mul(fx_mul(fx_dbl(b.e0), a.e1), a.v0)), fx_mul(fx_mul(fx_dbl(b.e0), a.e2), a.ps)), fx_mul(fx_mul(fx_dbl(b.e0), a.s), a.v2)), fx_mul(fx_mul(fx_dbl(b.e1), a.e0), a.v0)), fx_mul(fx_mul(fx_dbl(b.e1), a.e1), a.v1)), fx_mul(fx_mul(fx_dbl(b.e1), a.e2), a.v2)), fx_mul(fx_mul(fx_dbl(b.e1), a.ps), a.s)), fx_mul(fx_mul(fx_dbl(b.e2), a.e0), a.ps)), fx_mul(fx_mul(fx_dbl(b.e2), a.e1), a.v2)), fx_mul(fx_mul(fx_dbl(b.e2), a.e2), a.v1)), fx_mul(fx_mul(fx_dbl(b.e2), a.s), a.v0)), fx_mul(fx_mul(fx_dbl(b.v0), a.e0), a.e1)), fx_mul(fx_mul(fx_dbl(b.v0), a.e2), a.s)), fx_mul(fx_mul(b.v1, a.e0), a.e0)), fx_mul(fx_mul(b.v1, a.e1), a.e1)), fx_mul(fx_mul(b.v1, a.e2), a.e2)), fx_mul(fx_mul(b.v1, a.s), a.s)), fx_mul(fx_mul(fx_dbl(b.v2), a.e0), a.s)), fx_mul(fx_mul(fx_dbl(b.v2), a.e1), a.e2)),
        v2: fx_add(fx_add(fx_sub(fx_sub(fx_add(fx_sub(fx_add(fx_add(fx_sub(fx_add(fx_sub(fx_sub(fx_sub(fx_add(fx_add(fx_add(fx_add(fx_add(fx_sub(fx_mul(fx_mul(fx_dbl(b.e0), a.e0), a.v2), fx_mul(fx_mul(fx_dbl(b.e0), a.e1), a.ps)), fx_mul(fx_mul(fx_dbl(b.e0), a.e2), a.v0)), fx_mul(fx_mul(fx_dbl(b.e0), a.s), a.v1)), fx_mul(fx_mul(fx_dbl(b.e1), a.e0), a.ps)), fx_mul(fx_mul(fx_dbl(b.e1), a.e1), a.v2)), fx_mul(fx_mul(fx_dbl(b.e1), a.e2), a.v1)), fx_mul(fx_mul(fx_dbl(b.e1), a.s), a.v0)), fx_mul(fx_mul(fx_dbl(b.e2), a.e0), a.v0)), fx_mul(fx_mul(fx_dbl(b.e2), a.e1), a.v1)), fx_mul(fx_mul(fx_dbl(b.e2), a.e2), a.v2)), fx_mul(fx_mul(fx_dbl(b.e2), a.ps), a.s)), fx_mul(fx_mul(fx_dbl(b.v0), a.e0), a.e2)), fx_mul(fx_mul(fx_dbl(b.v0), a.e1), a.s)), fx_mul(fx_mul(fx_dbl(b.v1), a.e0), a.s)), fx_mul(fx_mul(fx_dbl(b.v1), a.e1), a.e2)), fx_mul(fx_mul(b.v2, a.e0), a.e0)), fx_mul(fx_mul(b.v2, a.e1), a.e1)), fx_mul(fx_mul(b.v2, a.e2), a.e2)), fx_mul(fx_mul(b.v2, a.s), a.s)),
    }
}

/// Spec form of [`Motor::into_rotor_unchecked`]: the rotational part,
/// with the ideal and pseudoscalar parts dropped.
pub open spec fn motor_into_rotor_v(a: MotorV) -> RotorV {
    RotorV { s: a.s, e0: a.e0, e1: a.e1, e2: a.e2 }
}

/// Whether the motor is within a tenth of a pure rotation, so that the
/// checked narrowing to a rotor succeeds.
pub open spec fn motor_rotor_castable_v(a: MotorV) -> bool {
    fx_clamp(fx_abs(a.v0)) <= FX_DECI as int && fx_clamp(fx_abs(a.v1)) <= FX_DECI as int
        && fx_clamp(fx_abs(a.v2)) <= FX_DECI as int && fx_clamp(fx_abs(a.ps)) <= FX_DECI as int
}

/// Whether every coordinate of two motors differs by strictly less than
/// `d`.
pub open spec fn motor_close_v(a: MotorV, b: MotorV, d: int) -> bool {
    fx_adiff(a.s, b.s) < d && fx_adiff(a.ps, b.ps) < d && fx_adiff(a.v0, b.v0) < d
        && fx_adiff(a.v1, b.v1) < d && fx_adiff(a.v2, b.v2) < d && fx_adiff(a.e0, b.e0) < d
        && fx_adiff(a.e1, b.e1) < d && fx_adiff(a.e2, b.e2) < d
}

/// Spec form of [`Motor::from_point_correspondences`]: three successive
/// half motions, each aligning one more point.
pub open spec fn motor_from_point_corr_v(
    a: PointV,
    a_: PointV,
    b: PointV,
    b_: PointV,
    c: PointV,
    c_: PointV,
) -> MotorV {
    let va: TranslatorV = translator_sqrt_v(point_mul_v(a_, point_inverse_v(a)));
    let ba: PointV = translator_apply_point_v(va, b);
    let from1: LineV = join_points_v(a_, ba);
    let to1: LineV = join_points_v(a_, b_);
    let vba: MotorV = motor_mul_translator_v(
        motor_sqrt_v(line_mul_v(to1, line_inverse_v(from1))),
        va,
    );
    let cba: PointV = motor_apply_point_v(vba, c);
    let from2: PlaneV = join_line_point_v(join_points_v(a_, b_), cba);
    let to2: PlaneV = join_line_point_v(join_points_v(a_, b_), c_);
    motor_mul_v(motor_sqrt_v(plane_mul_v(to2, plane_inverse_v(from2))), vba)
}

/// Spec form of [`Motor::from_plane_correspondences`]: the dual
/// three-step construction over planes.
pub open spec fn motor_from_plane_corr_v(
    a: PlaneV,
    a_: PlaneV,
    b: PlaneV,
    b_: PlaneV,
    c: PlaneV,
    c_: PlaneV,
) -> MotorV {
    let va: MotorV = motor_sqrt_v(plane_mul_v(a_, plane_inverse_v(a)));
    let ba: PlaneV = motor_apply_plane_v(va, b);
    let from1: LineV = meet_planes_v(a_, ba);
    let to1: LineV = meet_planes_v(a_, b_);
    let vba: MotorV = motor_mul_v(motor_sqrt_v(line_mul_v(to1, line_inverse_v(from1))), va);
    let cba: PlaneV = motor_apply_plane_v(vba, c);
    let axis: LineV = meet_planes_v(a_, b_);
    let from2: PointV = meet_plane_line_v(cba, axis);
    let to2: PointV = meet_plane_line_v(c_, axis);
    motor_mul_v(
        motor_from_translator_v(translator_sqrt_v(point_mul_v(to2, point_inverse_v(from2)))),
        vba,
    )
}

/// A translator widened to a motor.
pub open spec fn motor_from_translator_v(t: TranslatorV) -> MotorV {
    MotorV { s: t.s, ps: 0, v0: t.v0, v1: t.v1, v2: t.v2, e0: 0, e1: 0, e2: 0 }
}

/// A rotor widened to a motor.
pub open spec fn motor_from_rotor_v(r: RotorV) -> MotorV {
    MotorV { s: r.s, ps: 0, v0: 0, v1: 0, v2: 0, e0: r.e0, e1: r.e1, e2: r.e2 }
}

impl Motor {
    /// The motor moving each of three source points to its destination;
    /// if the six points are not related by a rigid motion the result is
    /// ill-defined (saturated or meaningless values), not a panic.
    pub fn from_point_correspondences(
        a: &Point,
        a_: &Point,
        b: &Point,
        b_: &Point,
        c: &Point,
        c_: &Point,
    ) -> (r: Motor)
        ensures
            r@ == motor_from_point_corr_v(a@, a_@, b@, b_@, c@, c_@),
    {
        let v_a = a_.div(a).sqrt();
        let b_a = v_a.apply_to_point(b);

        let from = crate::join::points(a_, &b_a);
        let to = crate::join::points(a_, b_);

        let v_ba = to.div(&from).sqrt().mul_translator(&v_a);
        let c_ba = v_ba.apply_to_point(c);

        let from = crate::join::three_points(a_, b_, &c_ba);
        let to = crate::join::three_points(a_, b_, c_);

        to.div(&from).sqrt().mul(&v_ba)
    }

    /// The motor moving each of three source planes to its destination:
    /// the dual of the point construction.
    #[verifier::rlimit(100)]
    pub fn from_plane_correspondences(
        a: &Plane,
        a_: &Plane,
        b: &Plane,
        b_: &Plane,
        c: &Plane,
        c_: &Plane,
    ) -> (r: Motor)
        ensures
            r@ == motor_from_plane_corr_v(a@, a_@, b@, b_@, c@, c_@),
    {
        let v_a = a_.div(a).sqrt();
        let b_a = v_a.apply_to_plane(b);

        let from = crate::meet::planes(a_, &b_a);
        let to = crate::meet::planes(a_, b_);

        let v_ba = to.div(&from).sqrt().mul(&v_a);
        let c_ba = v_ba.apply_to_plane(c);

        let axis = crate::meet::planes(a_, b_);
        let from = crate::meet::plane_with_line(&c_ba, &axis);
        let to = crate::meet::plane_with_line(c_, &axis);

        Motor::from(&to.div(&from).sqrt()).mul(&v_ba)
    }

    /// The rotational part as a rotor, after checking that the ideal and
    /// pseudoscalar parts are within a tenth of zero; otherwise the error
    /// carries the offending motor.
    pub fn into_rotor_checked<'a>(&'a self) -> (r: Result<Rotor, CastError<'a, Motor>>)
        ensures
            r is Ok <==> motor_rotor_castable_v(self@),
            r is Ok ==> r->Ok_0@ == motor_into_rotor_v(self@),
            r is Err ==> r->Err_0.from_v() == self,
    {
        let deci = Fx::from_bits(FX_DECI);
        if self.v_bivector[0].abs().le(deci) && self.v_bivector[1].abs().le(deci)
            && self.v_bivector[2].abs().le(deci) && self.pseudo.abs().le(deci) {
            Ok(self.into_rotor_unchecked())
        } else {
            Err(CastError::new(self, "Rotor"))
        }
    }

    /// The rotational part as a rotor, silently dropping the ideal and
    /// pseudoscalar parts.
    pub fn into_rotor_unchecked(&self) -> (r: Rotor)
        ensures
            r@ == motor_into_rotor_v(self@),
    {
        Rotor { scalar: self.scalar, e_bivector: self.e_bivector }
    }

    /// The motor with every coordinate negated (the same motion).
    pub fn neg(&self) -> (r: Motor)
        ensures
            r@ == motor_neg_v(self@),
    {
        Motor {
            scalar: self.scalar.neg(),
            pseudo: self.pseudo.neg(),
            v_bivector: [
                self.v_bivector[0].neg(),
                self.v_bivector[1].neg(),
                self.v_bivector[2].neg(),
            ],
            e_bivector: [
                self.e_bivector[0].neg(),
                self.e_bivector[1].neg(),
                self.e_bivector[2].neg(),
            ],
        }
    }

    /// The norm of the rotational part.
    pub fn norm(&self) -> (r: Fx)
        ensures
            r.v() == motor_norm_v(self@),
    {
        self.norm_squared().sqrt()
    }

    /// The squared norm of the rotational part.
    pub fn norm_squared(&self) -> (r: Fx)
        ensures
            r.v() == motor_norm_sq_v(self@),
    {
        self.e_bivector[0].mul(self.e_bivector[0]).add(self.e_bivector[1].mul(self.e_bivector[1])).add(self.e_bivector[2].mul(self.e_bivector[2])).add(self.scalar.mul(self.scalar))
    }

    /// The motor rescaled so its rotational part has unit norm.
    pub fn normalize(&self) -> (r: Motor)
        ensures
            r@ == motor_normalize_v(self@),
    {
        let fac: Fx = Fx::from_bits(FX_SCALE).div(self.norm());
        Motor {
            scalar: self.scalar.mul(fac),
            pseudo: self.pseudo.mul(fac),
            v_bivector: [self.v_bivector[0].mul(fac), self.v_bivector[1].mul(fac), self.v_bivector[2].mul(fac)],
            e_bivector: [self.e_bivector[0].mul(fac), self.e_bivector[1].mul(fac), self.e_bivector[2].mul(fac)],
        }
    }

    /// Whether the motor is simple: no pseudoscalar part beyond a
    /// thousandth, so the cheap branches apply.
    pub fn is_simple(&self) -> (r: bool)
        ensures
            r == (fx_clamp(fx_abs(self@.ps)) < FX_MILLI as int),
    {
        self.pseudo.abs().lt(Fx::from_bits(FX_MILLI))
    }

    /// The closed-form square root: half the motion.  Saturates at a
    /// scalar of minus one (a half turn), where no unique root exists.
    pub fn sqrt(&self) -> (r: Motor)
        ensures
            r@ == motor_sqrt_v(self@),
    {
        let r2: Fx = Fx::from_bits(2097152).sqrt();
        let sp1: Fx = self.scalar.add(Fx::from_bits(1048576)).sqrt();
        let den: Fx = self.scalar.mul(sp1).add(sp1);
        Motor {
            scalar: self.scalar.dbl().add(Fx::from_bits(2097152)).sqrt().div(Fx::from_bits(2097152)),
            pseudo: r2.mul(self.pseudo).div(Fx::from_bits(4194304).mul(sp1)),
            v_bivector: [
                r2.mul(self.e_bivector[0]).mul(self.pseudo).div(Fx::from_bits(4194304).mul(den)).add(r2.mul(self.scalar).mul(self.v_bivector[0]).div(Fx::from_bits(2097152).mul(den))).add(r2.mul(self.v_bivector[0]).div(Fx::from_bits(2097152).mul(den))),
                r2.mul(self.e_bivector[1]).mul(self.pseudo).div(Fx::from_bits(4194304).mul(den)).add(r2.mul(self.scalar).mul(self.v_bivector[1]).div(Fx::from_bits(2097152).mul(den))).add(r2.mul(self.v_bivector[1]).div(Fx::from_bits(2097152).mul(den))),
                r2.mul(self.e_bivector[2]).mul(self.pseudo).div(Fx::from_bits(4194304).mul(den)).add(r2.mul(self.scalar).mul(self.v_bivector[2]).div(Fx::from_bits(2097152).mul(den))).add(r2.mul(self.v_bivector[2]).div(Fx::from_bits(2097152).mul(den))),
            ],
            e_bivector: [
                r2.mul(self.e_bivector[0]).div(Fx::from_bits(2097152).mul(sp1)),
                r2.mul(self.e_bivector[1]).div(Fx::from_bits(2097152).mul(sp1)),
                r2.mul(self.e_bivector[2]).div(Fx::from_bits(2097152).mul(sp1)),
            ],
        }
    }

    /// The square root of a simple motor: far cheaper, and valid only
    /// when the motor is simple.
    pub fn ssqrt(&self) -> (r: Motor)
        ensures
            r@ == motor_ssqrt_v(self@),
    {
        self.add_scalar(Fx::from_bits(FX_SCALE)).normalize()
    }

    /// The logarithm: the line that exponentiates back to this motor.
    /// A translation-like motor gives its bivector part directly; a half
    /// turn takes a numerically independent branch that avoids the
    /// vanishing scalar.
    pub fn ln(&self) -> (r: Line)
        ensures
            r@ == motor_ln_v(self@),
    {
        let b: Line = Line::from(self);
        let bdb: Fx = crate::inner::lines(&b, &b).neg();
        if bdb.abs().lt(Fx::from_bits(FX_MILLI)) {
            return Line::from(self);
        }
        let s2: Fx = bdb.sqrt();
        let p2: Fx = crate::meet::lines(&b, &b).0.div(s2.dbl());
        let milli = Fx::from_bits(FX_MILLI);
        let u: Fx = crate::trig::atan2(s2, self.scalar);
        let vv: Fx = if milli.lt(self.scalar.abs()) {
            p2.mul(Fx::from_bits(FX_SCALE).div(self.scalar))
        } else {
            self.pseudo.div(s2)
        };
        let s2sq: Fx = s2.mul(s2);
        Line {
            e_bivector: [
                self.e_bivector[0].mul(u).div(s2),
                self.e_bivector[1].mul(u).div(s2),
                self.e_bivector[2].mul(u).div(s2),
            ],
            v_bivector: [
                self.e_bivector[0].neg().mul(p2).mul(u).div(s2sq).add(self.e_bivector[0].mul(vv).div(s2)).add(self.v_bivector[0].mul(u).div(s2)),
                self.e_bivector[1].neg().mul(p2).mul(u).div(s2sq).add(self.e_bivector[1].mul(vv).div(s2)).add(self.v_bivector[1].mul(u).div(s2)),
                self.e_bivector[2].neg().mul(p2).mul(u).div(s2sq).add(self.e_bivector[2].mul(vv).div(s2)).add(self.v_bivector[2].mul(u).div(s2)),
            ],
        }
    }

    /// The geometric product of two motors: their composition.
    pub fn mul(&self, other: &Motor) -> (r: Motor)
        ensures
            r@ == motor_mul_v(self@, other@),
    {
        Motor {
            scalar: self.e_bivector[0].neg().mul(other.e_bivector[0]).sub(self.e_bivector[1].mul(other.e_bivector[1])).sub(self.e_bivector[2].mul(other.e_bivector[2])).add(self.scalar.mul(other.scalar)),
            pseudo: self.e_bivector[0].mul(other.v_bivector[0]).add(self.e_bivector[1].mul(other.v_bivector[1])).add(self.e_bivector[2].mul(other.v_bivector[2])).add(other.e_bivector[0].mul(self.v_bivector[0])).add(other.e_bivector[1].mul(self.v_bivector[1])).add(other.e_bivector[2].mul(self.v_bivector[2])).add(self.pseudo.mul(other.scalar)).add(other.pseudo.mul(self.scalar)),
            v_bivector: [
                self.e_bivector[0].neg().mul(other.pseudo).sub(self.e_bivector[1].mul(other.v_bivector[2])).add(self.e_bivector[2].mul(other.v_bivector[1])).sub(other.e_bivector[0].mul(self.pseudo)).add(other.e_bivector[1].mul(self.v_bivector[2])).sub(other.e_bivector[2].mul(self.v_bivector[1])).add(self.scalar.mul(other.v_bivector[0])).add(other.scalar.mul(self.v_bivector[0])),
                self.e_bivector[0].mul(other.v_bivector[2]).sub(self.e_bivector[1].mul(other.pseudo)).sub(self.e_bivector[2].mul(other.v_bivector[0])).sub(other.e_bivector[0].mul(self.v_bivector[2])).sub(other.e_bivector[1].mul(self.pseudo)).add(other.e_bivector[2].mul(self.v_bivector[0])).add(self.scalar.mul(other.v_bivector[1])).add(other.scalar.mul(self.v_bivector[1])),
                self.e_bivector[0].neg().mul(other.v_bivector[1]).add(self.e_bivector[1].mul(other.v_bivector[0])).sub(self.e_bivector[2].mul(other.pseudo)).add(other.e_bivector[0].mul(self.v_bivector[1])).sub(other.e_bivector[1].mul(self.v_bivector[0])).sub(other.e_bivector[2].mul(self.pseudo)).add(self.scalar.mul(other.v_bivector[2])).add(other.scalar.mul(self.v_bivector[2])),
            ],
            e_bivector: [
                self.e_bivector[0].mul(other.scalar).sub(self.e_bivector[1].mul(other.e_bivector[2])).add(self.e_bivector[2].mul(other.e_bivector[1])).add(other.e_bivector[0].mul(self.scalar)),
                self.e_bivector[0].mul(other.e_bivector[2]).add(self.e_bivector[1].mul(other.scalar)).sub(self.e_bivector[2].mul(other.e_bivector[0])).add(other.e_bivector[1].mul(self.scalar)),
                self.e_bivector[0].neg().mul(other.e_bivector[1]).add(self.e_bivector[1].mul(other.e_bivector[0])).add(self.e_bivector[2].mul(other.scalar)).add(other.e_bivector[2].mul(self.scalar)),
            ],
        }
    }

    /// The quotient of two motors: the product with the inverse.
    pub fn div(&self, other: &Motor) -> (r: Motor)
        ensures
            r@ == motor_mul_v(self@, motor_inverse_v(other@)),
    {
        self.mul(&other.inverse())
    }

    /// The product with a translator.
    pub fn mul_translator(&self, t: &Translator) -> (r: Motor)
        ensures
            r@ == motor_mul_translator_v(self@, t@),
    {
        Motor {
            scalar: self.scalar.mul(t.scalar),
            pseudo: self.e_bivector[0].mul(t.v_bivector[0]).add(self.e_bivector[1].mul(t.v_bivector[1])).add(self.e_bivector[2].mul(t.v_bivector[2])).add(self.pseudo.mul(t.scalar)),
            v_bivector: [
                self.e_bivector[1].neg().mul(t.v_bivector[2]).add(self.e_bivector[2].mul(t.v_bivector[1])).add(self.scalar.mul(t.v_bivector[0])).add(self.v_bivector[0].mul(t.scalar)),
                self.e_bivector[0].mul(t.v_bivector[2]).sub(self.e_bivector[2].mul(t.v_bivector[0])).add(self.scalar.mul(t.v_bivector[1])).add(self.v_bivector[1].mul(t.scalar)),
                self.e_bivector[0].neg().mul(t.v_bivector[1]).add(self.e_bivector[1].mul(t.v_bivector[0])).add(self.scalar.mul(t.v_bivector[2])).add(self.v_bivector[2].mul(t.scalar)),
            ],
            e_bivector: [self.e_bivector[0].mul(t.scalar), self.e_bivector[1].mul(t.scalar), self.e_bivector[2].mul(t.scalar)],
        }
    }

    /// Apply this motor to any transformable entity.
    pub fn apply_to<T: Applicable>(&self, g: &T) -> (r: T)
        ensures
            r@ == T::applied(self@, g@),
    {
        g.apply(self)
    }

    /// The sandwich product applied to a point: the moved point.
    #[verifier::rlimit(100)]
    pub fn apply_to_point(&self, p: &Point) -> (r: Point)
        ensures
            r@ == motor_apply_point_v(self@, p@),
    {
        Point {
            trivector: [
                p.trivector[0].mul(self.e_bivector[0].mul(self.e_bivector[0]).add(self.e_bivector[1].mul(self.e_bivector[1])).add(self.e_bivector[2].mul(self.e_bivector[2])).add(self.scalar.mul(self.scalar))),
                self.e_bivector[0].mul(self.e_bivector[0]).mul(p.trivector[1]).add(self.e_bivector[0].dbl().mul(self.e_bivector[1]).mul(p.trivector[2])).add(self.e_bivector[0].dbl().mul(self.e_bivector[2]).mul(p.trivector[3])).sub(self.e_bivector[0].dbl().mul(self.pseudo).mul(p.trivector[0])).sub(self.e_bivector[1].mul(self.e_bivector[1]).mul(p.trivector[1])).sub(self.e_bivector[1].dbl().mul(self.scalar).mul(p.trivector[3])).add(self.e_bivector[1].dbl().mul(self.v_bivector[2]).mul(p.trivector[0])).sub(self.e_bivector[2].mul(self.e_bivector[2]).mul(p.trivector[1])).add(self.e_bivector[2].dbl().mul(self.scalar).mul(p.trivector[2])).sub(self.e_bivector[2].dbl().mul(self.v_bivector[1]).mul(p.trivector[0])).add(self.scalar.mul(self.scalar).mul(p.trivector[1])).sub(self.scalar.dbl().mul(self.v_bivector[0]).mul(p.trivector[0])),
                self.e_bivector[0].mul(self.e_bivector[0]).neg().mul(p.trivector[2]).add(self.e_bivector[0].dbl().mul(self.e_bivector[1]).mul(p.trivector[1])).add(self.e_bivector[0].dbl().mul(self.scalar).mul(p.trivector[3])).sub(self.e_bivector[0].dbl().mul(self.v_bivector[2]).mul(p.trivector[0])).add(self.e_bivector[1].mul(self.e_bivector[1]).mul(p.trivector[2])).add(self.e_bivector[1].dbl().mul(self.e_bivector[2]).mul(p.trivector[3])).sub(self.e_bivector[1].dbl().mul(self.pseudo).mul(p.trivector[0])).sub(self.e_bivector[2].mul(self.e_bivector[2]).mul(p.trivector[2])).sub(self.e_bivector[2].dbl().mul(self.scalar).mul(p.trivector[1])).add(self.e_bivector[2].dbl().mul(self.v_bivector[0]).mul(p.trivector[0])).add(self.scalar.mul(self.scalar).mul(p.trivector[2])).sub(self.scalar.dbl().mul(self.v_bivector[1]).mul(p.trivector[0])),
                self.e_bivector[0].mul(self.e_bivector[0]).neg().mul(p.trivector[3]).add(self.e_bivector[0].dbl().mul(self.e_bivector[2]).mul(p.trivector[1])).sub(self.e_bivector[0].dbl().mul(self.scalar).mul(p.trivector[2])).add(self.e_bivector[0].dbl().mul(self.v_bivector[1]).mul(p.trivector[0])).sub(self.e_bivector[1].mul(self.e_bivector[1]).mul(p.trivector[3])).add(self.e_bivector[1].dbl().mul(self.e_bivector[2]).mul(p.trivector[2])).add(self.e_bivector[1].dbl().mul(self.scalar).mul(p.trivector[1])).sub(self.e_bivector[1].dbl().mul(self.v_bivector[0]).mul(p.trivector[0])).add(self.e_bivector[2].mul(self.e_bivector[2]).mul(p.trivector[3])).sub(self.e_bivector[2].dbl().mul(self.pseudo).mul(p.trivector[0])).add(self.scalar.mul(self.scalar).mul(p.trivector[3])).sub(self.scalar.dbl().mul(self.v_bivector[2]).mul(p.trivector[0])),
            ],
        }
    }

    /// The sandwich product applied to a plane: the moved plane.
    pub fn apply_to_plane(&self, p: &Plane) -> (r: Plane)
        ensures
            r@ == motor_apply_plane_v(self@, p@),
    {
        Plane {
            vector: [
                self.e_bivector[0].mul(self.e_bivector[0]).mul(p.vector[0]).add(self.e_bivector[0].dbl().mul(self.pseudo).mul(p.vector[1])).add(self.e_bivector[0].dbl().mul(self.v_bivector[1]).mul(p.vector[3])).sub(self.e_bivector[0].dbl().mul(self.v_bivector[2]).mul(p.vector[2])).add(self.e_bivector[1].mul(self.e_bivector[1]).mul(p.vector[0])).add(self.e_bivector[1].dbl().mul(self.pseudo).mul(p.vector[2])).sub(self.e_bivector[1].dbl().mul(self.v_bivector[0]).mul(p.vector[3])).add(self.e_bivector[1].dbl().mul(self.v_bivector[2]).mul(p.vector[1])).add(self.e_bivector[2].mul(self.e_bivector[2]).mul(p.vector[0])).add(self.e_bivector[2].dbl().mul(self.pseudo).mul(p.vector[3])).add(self.e_bivector[2].dbl().mul(self.v_bivector[0]).mul(p.vector[2])).sub(self.e_bivector[2].dbl().mul(self.v_bivector[1]).mul(p.vector[1])).add(self.scalar.mul(self.scalar).mul(p.vector[0])).add(self.scalar.dbl().mul(self.v_bivector[0]).mul(p.vector[1])).add(self.scalar.dbl().mul(self.v_bivector[1]).mul(p.vector[2])).add(self.scalar.dbl().mul(self.v_bivector[2]).mul(p.vector[3])),
                self.e_bivector[0].mul(self.e_bivector[0]).mul(p.vector[1]).add(self.e_bivector[0].dbl().mul(self.e_bivector[1]).mul(p.vector[2])).add(self.e_bivector[0].dbl().mul(self.e_bivector[2]).mul(p.vector[3])).sub(self.e_bivector[1].mul(self.e_bivector[1]).mul(p.vector[1])).sub(self.e_bivector[1].dbl().mul(self.scalar).mul(p.vector[3])).sub(self.e_bivector[2].mul(self.e_bivector[2]).mul(p.vector[1])).add(self.e_bivector[2].dbl().mul(self.scalar).mul(p.vector[2])).add(self.scalar.mul(self.scalar).mul(p.vector[1])),
                self.e_bivector[0].mul(self.e_bivector[0]).neg().mul(p.vector[2]).add(self.e_bivector[0].dbl().mul(self.e_bivector[1]).mul(p.vector[1])).add(self.e_bivector[0].dbl().mul(self.scalar).mul(p.vector[3])).add(self.e_bivector[1].mul(self.e_bivector[1]).mul(p.vector[2])).add(self.e_bivector[1].dbl().mul(self.e_bivector[2]).mul(p.vector[3])).sub(self.e_bivector[2].mul(self.e_bivector[2]).mul(p.vector[2])).sub(self.e_bivector[2].dbl().mul(self.scalar).mul(p.vector[1])).add(self.scalar.mul(self.scalar).mul(p.vector[2])),
                self.e_bivector[0].mul(self.e_bivector[0]).neg().mul(p.vector[3]).add(self.e_bivector[0].dbl().mul(self.e_bivector[2]).mul(p.vector[1])).sub(self.e_bivector[0].dbl().mul(self.scalar).mul(p.vector[2])).sub(self.e_bivector[1].mul(self.e_bivector[1]).mul(p.vector[3])).add(self.e_bivector[1].dbl().mul(self.e_bivector[2]).mul(p.vector[2])).add(self.e_bivector[1].dbl().mul(self.scalar).mul(p.vector[1])).add(self.e_bivector[2].mul(self.e_bivector[2]).mul(p.vector[3])).add(self.scalar.mul(self.scalar).mul(p.vector[3])),
            ],
        }
    }

    /// The sandwich product applied to a line: the moved line.
    #[verifier::rlimit(100)]
    pub fn apply_to_line(&self, l: &Line) -> (r: Line)
        ensures
            r@ == motor_apply_line_v(self@, l@),
    {
        Line {
            e_bivector: [
                l.e_bivector[0].mul(self.e_bivector[0]).mul(self.e_bivector[0]).sub(l.e_bivector[0].mul(self.e_bivector[1]).mul(self.e_bivector[1])).sub(l.e_bivector[0].mul(self.e_bivector[2]).mul(self.e_bivector[2])).add(l.e_bivector[0].mul(self.scalar).mul(self.scalar)).add(l.e_bivector[1].dbl().mul(self.e_bivector[0]).mul(self.e_bivector[1])).add(l.e_bivector[1].dbl().mul(self.e_bivector[2]).mul(self.scalar)).add(l.e_bivector[2].dbl().mul(self.e_bivector[0]).mul(self.e_bivector[2])).sub(l.e_bivector[2].dbl().mul(self.e_bivector[1]).mul(self.scalar)),
                l.e_bivector[0].dbl().mul(self.e_bivector[0]).mul(self.e_bivector[1]).sub(l.e_bivector[0].dbl().mul(self.e_bivector[2]).mul(self.scalar)).sub(l.e_bivector[1].mul(self.e_bivector[0]).mul(self.e_bivector[0])).add(l.e_bivector[1].mul(self.e_bivector[1]).mul(self.e_bivector[1])).sub(l.e_bivector[1].mul(self.e_bivector[2]).mul(self.e_bivector[2])).add(l.e_bivector[1].mul(self.scalar).mul(self.scalar)).add(l.e_bivector[2].dbl().mul(self.e_bivector[0]).mul(self.scalar)).add(l.e_bivector[2].dbl().mul(self.e_bivector[1]).mul(self.e_bivector[2])),
                l.e_bivector[0].dbl().mul(self.e_bivector[0]).mul(self.e_bivector[2]).add(l.e_bivector[0].dbl().mul(self.e_bivector[1]).mul(self.scalar)).sub(l.e_bivector[1].dbl().mul(self.e_bivector[0]).mul(self.scalar)).add(l.e_bivector[1].dbl().mul(self.e_bivector[1]).mul(self.e_bivector[2])).sub(l.e_bivector[2].mul(self.e_bivector[0]).mul(self.e_bivector[0])).sub(l.e_bivector[2].mul(self.e_bivector[1]).mul(self.e_bivector[1])).add(l.e_bivector[2].mul(self.e_bivector[2]).mul(self.e_bivector[2])).add(l.e_bivector[2].mul(self.scalar).mul(self.scalar)),
            ],
            v_bivector: [
                l.e_bivector[0].dbl().mul(self.e_bivector[0]).mul(self.v_bivector[0]).sub(l.e_bivector[0].dbl().mul(self.e_bivector[1]).mul(self.v_bivector[1])).sub(l.e_bivector[0].dbl().mul(self.e_bivector[2]).mul(self.v_bivector[2])).sub(l.e_bivector[0].dbl().mul(self.pseudo).mul(self.scalar)).add(l.e_bivector[1].dbl().mul(self.e_bivector[0]).mul(self.v_bivector[1])).add(l.e_bivector[1].dbl().mul(self.e_bivector[1]).mul(self.v_bivector[0])).sub(l.e_bivector[1].dbl().mul(self.e_bivector[2]).mul(self.pseudo)).add(l.e_bivector[1].dbl().mul(self.scalar).mul(self.v_bivector[2])).add(l.e_bivector[2].dbl().mul(self.e_bivector[0]).mul(self.v_bivector[2])).add(l.e_bivector[2].dbl().mul(self.e_bivector[1]).mul(self.pseudo)).add(l.e_bivector[2].dbl().mul(self.e_bivector[2]).mul(self.v_bivector[0])).sub(l.e_bivector[2].dbl().mul(self.scalar).mul(self.v_bivector[1])).add(l.v_bivector[0].mul(self.e_bivector[0]).mul(self.e_bivector[0])).sub(l.v_bivector[0].mul(self.e_bivector[1]).mul(self.e_bivector[1])).sub(l.v_bivector[0].mul(self.e_bivector[2]).mul(self.e_bivector[2])).add(l.v_bivector[0].mul(self.scalar).mul(self.scalar)).add(l.v_bivector[1].dbl().mul(self.e_bivector[0]).mul(self.e_bivector[1])).add(l.v_bivector[1].dbl().mul(self.e_bivector[2]).mul(self.scalar)).add(l.v_bivector[2].dbl().mul(self.e_bivector[0]).mul(self.e_bivector[2])).sub(l.v_bivector[2].dbl().mul(self.e_bivector[1]).mul(self.scalar)),
                l.e_bivector[0].dbl().mul(self.e_bivector[0]).mul(self.v_bivector[1]).add(l.e_bivector[0].dbl().mul(self.e_bivector[1]).mul(self.v_bivector[0])).add(l.e_bivector[0].dbl().mul(self.e_bivector[2]).mul(self.pseudo)).sub(l.e_bivector[0].dbl().mul(self.scalar).mul(self.v_bivector[2])).sub(l.e_bivector[1].dbl().mul(self.e_bivector[0]).mul(self.v_bivector[0])).add(l.e_bivector[1].dbl().mul(self.e_bivector[1]).mul(self.v_bivector[1])).sub(l.e_bivector[1].dbl().mul(self.e_bivector[2]).mul(self.v_bivector[2])).sub(l.e_bivector[1].dbl().mul(self.pseudo).mul(self.scalar)).sub(l.e_bivector[2].dbl().mul(self.e_bivector[0]).mul(self.pseudo)).add(l.e_bivector[2].dbl().mul(self.e_bivector[1]).mul(self.v_bivector[2])).add(l.e_bivector[2].dbl().mul(self.e_bivector[2]).mul(self.v_bivector[1])).add(l.e_bivector[2].dbl().mul(self.scalar).mul(self.v_bivector[0])).add(l.v_bivector[0].dbl().mul(self.e_bivector[0]).mul(self.e_bivector[1])).sub(l.v_bivector[0].dbl().mul(self.e_bivector[2]).mul(self.scalar)).sub(l.v_bivector[1].mul(self.e_bivector[0]).mul(self.e_bivector[0])).add(l.v_bivector[1].mul(self.e_bivector[1]).mul(self.e_bivector[1])).sub(l.v_bivector[1].mul(self.e_bivector[2]).mul(self.e_bivector[2])).add(l.v_bivector[1].mul(self.scalar).mul(self.scalar)).add(l.v_bivector[2].dbl().mul(self.e_bivector[0]).mul(self.scalar)).add(l.v_bivector[2].dbl().mul(self.e_bivector[1]).mul(self.e_bivector[2])),
                l.e_bivector[0].dbl().mul(self.e_bivector[0]).mul(self.v_bivector[2]).sub(l.e_bivector[0].dbl().mul(self.e_bivector[1]).mul(self.pseudo)).add(l.e_bivector[0].dbl().mul(self.e_bivector[2]).mul(self.v_bivector[0])).add(l.e_bivector[0].dbl().mul(self.scalar).mul(self.v_bivector[1])).add(l.e_bivector[1].dbl().mul(self.e_bivector[0]).mul(self.pseudo)).add(l.e_bivector[1].dbl().mul(self.e_bivector[1]).mul(self.v_bivector[2])).add(l.e_bivector[1].dbl().mul(self.e_bivector[2]).mul(self.v_bivector[1])).sub(l.e_bivector[1].dbl().mul(self.scalar).mul(self.v_bivector[0])).sub(l.e_bivector[2].dbl().mul(self.e_bivector[0]).mul(self.v_bivector[0])).sub(l.e_bivector[2].dbl().mul(self.e_bivector[1]).mul(self.v_bivector[1])).add(l.e_bivector[2].dbl().mul(self.e_bivector[2]).mul(self.v_bivector[2])).sub(l.e_bivector[2].dbl().mul(self.pseudo).mul(self.scalar)).add(l.v_bivector[0].dbl().mul(self.e_bivector[0]).mul(self.e_bivector[2])).add(l.v_bivector[0].dbl().mul(self.e_bivector[1]).mul(self.scalar)).sub(l.v_bivector[1].dbl().mul(self.e_bivector[0]).mul(self.scalar)).add(l.v_bivector[1].dbl().mul(self.e_bivector[1]).mul(self.e_bivector[2])).sub(l.v_bivector[2].mul(self.e_bivector[0]).mul(self.e_bivector[0])).sub(l.v_bivector[2].mul(self.e_bivector[1]).mul(self.e_bivector[1])).add(l.v_bivector[2].mul(self.e_bivector[2]).mul(self.e_bivector[2])).add(l.v_bivector[2].mul(self.scalar).mul(self.scalar)),
            ],
        }
    }

    /// The inverse motion: the reverse, rescaled by the squared norm.
    pub fn inverse(&self) -> (r: Motor)
        ensures
            r@ == motor_inverse_v(self@),
    {
        self.reverse().div_scalar(self.norm_squared())
    }

    /// The motor with every coordinate scaled by `s`.
    pub fn mul_scalar(&self, s: Fx) -> (r: Motor)
        ensures
            r@ == motor_mul_scalar_v(self@, s.v()),
    {
        Motor {
            scalar: self.scalar.mul(s),
            pseudo: self.pseudo.mul(s),
            v_bivector: [self.v_bivector[0].mul(s), self.v_bivector[1].mul(s), self.v_bivector[2].mul(s)],
            e_bivector: [self.e_bivector[0].mul(s), self.e_bivector[1].mul(s), self.e_bivector[2].mul(s)],
        }
    }

    /// The motor scaled by the reciprocal of `s`.
    pub fn div_scalar(&self, s: Fx) -> (r: Motor)
        ensures
            r@ == motor_mul_scalar_v(self@, fx_div(FX_SCALE as int, s.v())),
    {
        self.mul_scalar(Fx::from_bits(FX_SCALE).div(s))
    }

    /// The packed two-by-four layout `[[scalar, e], [pseudo, v]]` used by
    /// outside consumers.
    pub fn into_klein(&self) -> (r: [[Fx; 4]; 2])
        ensures
            r[0][0].v() == self@.s,
            r[0][1].v() == self@.e0,
            r[0][2].v() == self@.e1,
            r[0][3].v() == self@.e2,
            r[1][0].v() == self@.ps,
            r[1][1].v() == self@.v0,
            r[1][2].v() == self@.v1,
            r[1][3].v() == self@.v2,
    {
        [
            [self.scalar, self.e_bivector[0], self.e_bivector[1], self.e_bivector[2]],
            [self.pseudo, self.v_bivector[0], self.v_bivector[1], self.v_bivector[2]],
        ]
    }

    /// Whether the two motors move a randomly drawn point to within `d`
    /// of each other; a sampled, probabilistic comparison.
    pub fn is_similar_to(&self, d: Fx, other: &Motor) -> (r: bool) {
        let p = Point::random().normalize();
        self.apply_to_point(&p).is_similar_to(d, &other.apply_to_point(&p))
    }

    /// A motor with coordinates drawn uniformly from `[0, 1)`; generally
    /// not a rigid motion until normalized.
    pub fn random() -> (r: Motor) {
        Motor {
            scalar: random_fx(),
            pseudo: random_fx(),
            e_bivector: [random_fx(), random_fx(), random_fx()],
            v_bivector: [random_fx(), random_fx(), random_fx()],
        }
    }

    /// The motor composed with itself.
    pub fn squared(&self) -> (r: Motor)
        ensures
            r@ == motor_mul_v(self@, self@),
    {
        self.mul(self)
    }

    /// The motor with `s` added to its scalar part.
    pub fn add_scalar(&self, s: Fx) -> (r: Motor)
        ensures
            r@ == motor_add_scalar_v(self@, s.v()),
    {
        Motor {
            scalar: self.scalar.add(s),
            pseudo: self.pseudo,
            v_bivector: self.v_bivector,
            e_bivector: self.e_bivector,
        }
    }

    /// The reverse: both bivector parts negated.
    pub fn reverse(&self) -> (r: Motor)
        ensures
            r@ == motor_reverse_v(self@),
    {
        Motor {
            scalar: self.scalar,
            pseudo: self.pseudo,
            v_bivector: [
                self.v_bivector[0].neg(),
                self.v_bivector[1].neg(),
                self.v_bivector[2].neg(),
            ],
            e_bivector: [
                self.e_bivector[0].neg(),
                self.e_bivector[1].neg(),
                self.e_bivector[2].neg(),
            ],
        }
    }
}

impl PartialEq for Motor {
    /// Componentwise comparison within a tolerance of a hundredth.
    fn eq(&self, other: &Motor) -> (r: bool) {
        let centi = Fx::from_bits(FX_CENTI);
        self.scalar.adiff(other.scalar).lt(centi) && self.pseudo.adiff(other.pseudo).lt(centi)
            && self.v_bivector[0].adiff(other.v_bivector[0]).lt(centi)
            && self.v_bivector[1].adiff(other.v_bivector[1]).lt(centi)
            && self.v_bivector[2].adiff(other.v_bivector[2]).lt(centi)
            && self.e_bivector[0].adiff(other.e_bivector[0]).lt(centi)
            && self.e_bivector[1].adiff(other.e_bivector[1]).lt(centi)
            && self.e_bivector[2].adiff(other.e_bivector[2]).lt(centi)
    }
}

impl vstd::std_specs::cmp::PartialEqSpecImpl for Motor {
    open spec fn obeys_eq_spec() -> bool {
        true
    }

    open spec fn eq_spec(&self, other: &Motor) -> bool {
        motor_close_v(self@, other@, FX_CENTI as int)
    }
}

impl<'a> From<&'a Line> for Motor {
    /// A line widened to a motor with no scalar or pseudoscalar part.
    fn from(l: &'a Line) -> (r: Motor) {
        Motor {
            scalar: Fx::from_bits(0),
            pseudo: Fx::from_bits(0),
            v_bivector: l.v_bivector,
            e_bivector: l.e_bivector,
        }
    }
}

impl<'a> vstd::std_specs::convert::FromSpecImpl<&'a Line> for Motor {
    open spec fn obeys_from_spec() -> bool {
        true
    }

    open spec fn from_spec(l: &'a Line) -> Motor {
        Motor {
            scalar: Fx { bits: 0 },
            pseudo: Fx { bits: 0 },
            v_bivector: l.v_bivector,
            e_bivector: l.e_bivector,
        }
    }
}

impl<'a> From<&'a Translator> for Motor {
    /// A translator widened to a motor.
    fn from(t: &'a Translator) -> (r: Motor) {
        Motor {
            scalar: t.scalar,
            e_bivector: [Fx::from_bits(0), Fx::from_bits(0), Fx::from_bits(0)],
            v_bivector: t.v_bivector,
            pseudo: Fx::from_bits(0),
        }
    }
}

impl<'a> vstd::std_specs::convert::FromSpecImpl<&'a Translator> for Motor {
    open spec fn obeys_from_spec() -> bool {
        true
    }

    open spec fn from_spec(t: &'a Translator) -> Motor {
        Motor {
            scalar: t.scalar,
            e_bivector: [Fx { bits: 0 }, Fx { bits: 0 }, Fx { bits: 0 }],
            v_bivector: t.v_bivector,
            pseudo: Fx { bits: 0 },
        }
    }
}

impl<'a> From<&'a Rotor> for Motor {
    /// A rotor widened to a motor.
    fn from(r: &'a Rotor) -> (m: Motor) {
        Motor {
            scalar: r.scalar,
            e_bivector: r.e_bivector,
            v_bivector: [Fx::from_bits(0), Fx::from_bits(0), Fx::from_bits(0)],
            pseudo: Fx::from_bits(0),
        }
    }
}

impl<'a> vstd::std_specs::convert::FromSpecImpl<&'a Rotor> for Motor {
    open spec fn obeys_from_spec() -> bool {
        true
    }

    open spec fn from_spec(r: &'a Rotor) -> Motor {
        Motor {
            scalar: r.scalar,
            e_bivector: r.e_bivector,
            v_bivector: [Fx { bits: 0 }, Fx { bits: 0 }, Fx { bits: 0 }],
            pseudo: Fx { bits: 0 },
        }
    }
}

/// The closed capability of being moved by a motor: implemented by
/// exactly the three grades of geometric entity.
pub trait Applicable: Sized + View {
    /// The model of the sandwich product of a motor with this entity.
    spec fn applied(m: MotorV, x: Self::V) -> Self::V;

    /// The entity moved by the motor.
    fn apply(&self, m: &Motor) -> (r: Self)
        ensures
            r@ == Self::applied(m@, self@),
    ;
}

impl Applicable for Point {
    open spec fn applied(m: MotorV, x: PointV) -> PointV {
        motor_apply_point_v(m, x)
    }

    fn apply(&self, m: &Motor) -> (r: Point) {
        m.apply_to_point(self)
    }
}

impl Applicable for Line {
    open spec fn applied(m: MotorV, x: LineV) -> LineV {
        motor_apply_line_v(m, x)
    }

    fn apply(&self, m: &Motor) -> (r: Line) {
        m.apply_to_line(self)
    }
}

impl Applicable for Plane {
    open spec fn applied(m: MotorV, x: PlaneV) -> PlaneV {
        motor_apply_plane_v(m, x)
    }

    fn apply(&self, m: &Motor) -> (r: Plane) {
        m.apply_to_plane(self)
    }
}

/// One exact slice of the round trip between the exponential and the
/// logarithm: a line whose Euclidean part is small enough that its
/// exponential is the first-order pure translation is handed back by the
/// logarithm unchanged, exactly and without tolerance.
pub proof fn lemma_ln_exp_translation(a: LineV)
    requires
        fx_sqrt(fx_neg(inner_lines_v(a, a))) < FX_MILLI as int,
    ensures
        motor_ln_v(line_exp_v(a)) == a,
{
    let idot: int = inner_lines_v(a, a);
    let bdb: int = fx_neg(idot);
    let m0: int = fx_mul(fx_neg(a.e0), a.e0);
    let m1: int = fx_mul(a.e1, a.e1);
    let m2: int = fx_mul(a.e2, a.e2);
    crate::fx::lemma_fx_clamp_sign(-a.e0);
    crate::fx::lemma_fx_tmul_sign(fx_neg(a.e0), a.e0);
    crate::fx::lemma_fx_tmul_sign(a.e1, a.e1);
    crate::fx::lemma_fx_tmul_sign(a.e2, a.e2);
    crate::fx::lemma_fx_clamp_sign(crate::fx::fx_tmul(fx_neg(a.e0), a.e0));
    crate::fx::lemma_fx_clamp_sign(crate::fx::fx_tmul(a.e1, a.e1));
    crate::fx::lemma_fx_clamp_sign(crate::fx::fx_tmul(a.e2, a.e2));
    crate::fx::lemma_fx_clamp_sign(m0 - m1);
    crate::fx::lemma_fx_clamp_sign(fx_sub(m0, m1) - m2);
    crate::fx::lemma_fx_clamp_sign(-idot);
    assert(m0 <= 0);
    assert(idot <= 0);
    assert(bdb >= 0);
    if bdb >= FX_MILLI as int {
        reveal(fx_sqrt);
        crate::fx::lemma_sqrt_floor(bdb * (FX_SCALE as int));
        let r: int = crate::fx::sqrt_floor(bdb * (FX_SCALE as int));
        assert((r + 1) * (r + 1) <= 1049 * 1049) by (nonlinear_arith)
            requires
                0 <= r + 1 <= 1049,
        ;
        assert(1049 * (FX_SCALE as int) <= bdb * (FX_SCALE as int)) by (nonlinear_arith)
            requires
                1049 <= bdb,
                0 < FX_SCALE as int,
        ;
        assert(false);
    }
    crate::fx::lemma_fx_clamp_id(fx_abs(bdb));
}

} // verus!
