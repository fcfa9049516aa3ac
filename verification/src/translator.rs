//! Translators: the translation-only restriction of a motor.

use vstd::prelude::*;

verus! {

use crate::fx::{Fx, fx_add, fx_sub, fx_neg, fx_mul, fx_div, fx_dbl, fx_half, fx_sqrt, FX_SCALE};
use crate::model::{TranslatorV, PointV, RotorV, MotorV};
use crate::point::Point;
use crate::rotor::Rotor;
use crate::motor::Motor;

/// A pure translation: a scalar (one for a freshly built translator) and
/// half the offset as the ideal bivector.
#[derive(Clone, Copy, Debug)]
pub struct Translator {
    pub scalar: Fx,
    pub v_bivector: [Fx; 3],
}

impl View for Translator {
    type V = TranslatorV;

    open spec fn view(&self) -> TranslatorV {
        TranslatorV {
            s: self.scalar.v(),
            v0: self.v_bivector[0].v(),
            v1: self.v_bivector[1].v(),
            v2: self.v_bivector[2].v(),
        }
    }
}

/// Spec form of [`Translator::new`].
pub open spec fn translator_new_v(x0: int, x1: int, x2: int) -> TranslatorV {
    TranslatorV {
        s: FX_SCALE as int,
        v0: fx_half(x0),
        v1: fx_half(x1),
        v2: fx_half(x2),
    }
}

/// Spec form of [`Translator::sqrt`].
pub open spec fn translator_sqrt_v(a: TranslatorV) -> TranslatorV {
    let sp1: int = fx_sqrt(fx_add(a.s, 1048576));
    let fac: int = fx_div(fx_sqrt(2097152), fx_dbl(sp1));
    TranslatorV {
        s: fx_half(fx_sqrt(fx_add(fx_dbl(a.s), 2097152))),
        v0: fx_mul(a.v0, fac),
        v1: fx_mul(a.v1, fac),
        v2: fx_mul(a.v2, fac),
    }
}

/// Spec form of [`Translator::apply_to_point`].
pub open spec fn translator_apply_point_v(a: TranslatorV, b: PointV) -> PointV {
    PointV {
        t0: fx_mul(fx_mul(b.t0, a.s), a.s),
        t1: fx_mul(a.s, fx_add(fx_mul(fx_neg(fx_dbl(b.t0)), a.v0), fx_mul(b.t1, a.s))),
        t2: fx_mul(a.s, fx_add(fx_mul(fx_neg(fx_dbl(b.t0)), a.v1), fx_mul(b.t2, a.s))),
        t3: fx_mul(a.s, fx_add(fx_mul(fx_neg(fx_dbl(b.t0)), a.v2), fx_mul(b.t3, a.s))),
    }
}

/// Spec form of [`Translator::mul_rotor`].
pub open spec fn translator_mul_rotor_v(a: TranslatorV, b: RotorV) -> MotorV {
    MotorV {
        s: fx_mul(b.s, a.s),
        ps: fx_add(fx_add(fx_mul(b.e0, a.v0), fx_mul(b.e1, a.v1)), fx_mul(b.e2, a.v2)),
        v0: fx_add(fx_sub(fx_mul(b.e1, a.v2), fx_mul(b.e2, a.v1)), fx_mul(b.s, a.v0)),
        v1: fx_add(fx_add(fx_mul(fx_neg(b.e0), a.v2), fx_mul(b.e2, a.v0)), fx_mul(b.s, a.v1)),
        v2: fx_add(fx_sub(fx_mul(b.e0, a.v1), fx_mul(b.e1, a.v0)), fx_mul(b.s, a.v2)),
        e0: fx_mul(b.e0, a.s),
        e1: fx_mul(b.e1, a.s),
        e2: fx_mul(b.e2, a.s),
    }
}

impl Translator {
    /// The translator moving every point by the given offset.
    pub fn new(t: &[Fx; 3]) -> (r: Translator)
        ensures
            r@ == translator_new_v(t[0].v(), t[1].v(), t[2].v()),
    {
        Translator {
            scalar: Fx::from_bits(FX_SCALE),
            v_bivector: [t[0].half(), t[1].half(), t[2].half()],
        }
    }

    /// The translator doing half this translation (for a unit scalar).
    pub fn sqrt(&self) -> (r: Translator)
        ensures
            r@ == translator_sqrt_v(self@),
    {
        let sp1: Fx = self.scalar.add(Fx::from_bits(1048576)).sqrt();
        let fac: Fx = Fx::from_bits(2097152).sqrt().div(sp1.dbl());
        Translator {
            scalar: self.scalar.dbl().add(Fx::from_bits(2097152)).sqrt().half(),
            v_bivector: [self.v_bivector[0].mul(fac), self.v_bivector[1].mul(fac), self.v_bivector[2].mul(fac)],
        }
    }

    /// The sandwich product applied to a point: the shifted point.
    pub fn apply_to_point(&self, p: &Point) -> (r: Point)
        ensures
            r@ == translator_apply_point_v(self@, p@),
    {
        Point {
            trivector: [
                p.trivector[0].mul(self.scalar).mul(self.scalar),
                self.scalar.mul(p.trivector[0].dbl().neg().mul(self.v_bivector[0]).add(p.trivector[1].mul(self.scalar))),
                self.scalar.mul(p.trivector[0].dbl().neg().mul(self.v_bivector[1]).add(p.trivector[2].mul(self.scalar))),
                self.scalar.mul(p.trivector[0].dbl().neg().mul(self.v_bivector[2]).add(p.trivector[3].mul(self.scalar))),
            ],
        }
    }

    /// The product with a rotor, promoted to a full motor.
    pub fn mul_rotor(&self, r: &Rotor) -> (m: Motor)
        ensures
            m@ == translator_mul_rotor_v(self@, r@),
    {
        Motor {
            scalar: r.scalar.mul(self.scalar),
            pseudo: r.e_bivector[0].mul(self.v_bivector[0]).add(r.e_bivector[1].mul(self.v_bivector[1])).add(r.e_bivector[2].mul(self.v_bivector[2])),
            v_bivector: [r.e_bivector[1].mul(self.v_bivector[2]).sub(r.e_bivector[2].mul(self.v_bivector[1])).add(r.scalar.mul(self.v_bivector[0])), r.e_bivector[0].neg().mul(self.v_bivector[2]).add(r.e_bivector[2].mul(self.v_bivector[0])).add(r.scalar.mul(self.v_bivector[1])), r.e_bivector[0].mul(self.v_bivector[1]).sub(r.e_bivector[1].mul(self.v_bivector[0])).add(r.scalar.mul(self.v_bivector[2]))],
            e_bivector: [r.e_bivector[0].mul(self.scalar), r.e_bivector[1].mul(self.scalar), r.e_bivector[2].mul(self.scalar)],
        }
    }
}

} // verus!
