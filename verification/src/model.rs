//! The mathematical models of the geometric entities: one ghost struct per
//! entity, each field the fixed-point mantissa of one coordinate as an
//! unbounded integer, together with the spec-level form of every operation.

use vstd::prelude::*;

verus! {

use crate::fx::fx_abs;

/// Model of a [`crate::Point`]: the four trivector coordinates.
pub struct PointV {
    pub t0: int,
    pub t1: int,
    pub t2: int,
    pub t3: int,
}

/// Model of a [`crate::Plane`]: the four vector coordinates.
pub struct PlaneV {
    pub v0: int,
    pub v1: int,
    pub v2: int,
    pub v3: int,
}

/// Model of a [`crate::Line`]: Euclidean and ideal bivector coordinates.
pub struct LineV {
    pub e0: int,
    pub e1: int,
    pub e2: int,
    pub v0: int,
    pub v1: int,
    pub v2: int,
}

/// Model of a [`crate::Rotor`]: scalar and Euclidean bivector coordinates.
pub struct RotorV {
    pub s: int,
    pub e0: int,
    pub e1: int,
    pub e2: int,
}

/// Model of a [`crate::Translator`]: scalar and ideal bivector coordinates.
pub struct TranslatorV {
    pub s: int,
    pub v0: int,
    pub v1: int,
    pub v2: int,
}

/// Model of a [`crate::Motor`]: all eight even-subalgebra coordinates.
pub struct MotorV {
    pub s: int,
    pub ps: int,
    pub v0: int,
    pub v1: int,
    pub v2: int,
    pub e0: int,
    pub e1: int,
    pub e2: int,
}

/// Whether every coordinate of a point is bounded by `m` in magnitude.
pub open spec fn point_bounded_v(a: PointV, m: int) -> bool {
    fx_abs(a.t0) <= m && fx_abs(a.t1) <= m && fx_abs(a.t2) <= m && fx_abs(a.t3) <= m
}

/// Whether every coordinate of a line is bounded by `m` in magnitude.
pub open spec fn line_bounded_v(a: LineV, m: int) -> bool {
    fx_abs(a.e0) <= m && fx_abs(a.e1) <= m && fx_abs(a.e2) <= m && fx_abs(a.v0) <= m
        && fx_abs(a.v1) <= m && fx_abs(a.v2) <= m
}

} // verus!
