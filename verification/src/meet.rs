//! The meet (regressive product) family: intersections of planes and lines.

use vstd::prelude::*;

verus! {

use crate::fx::{Fx, fx_add, fx_sub, fx_neg, fx_mul};
use crate::model::{PlaneV, LineV, PointV};
use crate::plane::Plane;
use crate::line::Line;
use crate::point::Point;
use crate::PseudoScalar;

/// Spec form of [`planes`].
pub open spec fn meet_planes_v(a: PlaneV, b: PlaneV) -> LineV {
    LineV {
        v0: fx_sub(fx_mul(a.v0, b.v1), fx_mul(a.v1, b.v0)),
        v1: fx_sub(fx_mul(a.v0, b.v2), fx_mul(a.v2, b.v0)),
        v2: fx_sub(fx_mul(a.v0, b.v3), fx_mul(a.v3, b.v0)),
        e0: fx_sub(fx_mul(a.v2, b.v3), fx_mul(a.v3, b.v2)),
        e1: fx_sub(fx_mul(a.v3, b.v1), fx_mul(a.v1, b.v3)),
        e2: fx_sub(fx_mul(a.v1, b.v2), fx_mul(a.v2, b.v1)),
    }
}

/// The intersection line of two planes; an ideal line when they are
/// parallel.
pub fn planes(p1: &Plane, p2: &Plane) -> (r: Line)
    ensures
        r@ == meet_planes_v(p1@, p2@),
{
    Line {
        v_bivector: [
            p1.vector[0].mul(p2.vector[1]).sub(p1.vector[1].mul(p2.vector[0])),
            p1.vector[0].mul(p2.vector[2]).sub(p1.vector[2].mul(p2.vector[0])),
            p1.vector[0].mul(p2.vector[3]).sub(p1.vector[3].mul(p2.vector[0])),
        ],
        e_bivector: [
            p1.vector[2].mul(p2.vector[3]).sub(p1.vector[3].mul(p2.vector[2])),
            p1.vector[3].mul(p2.vector[1]).sub(p1.vector[1].mul(p2.vector[3])),
            p1.vector[1].mul(p2.vector[2]).sub(p1.vector[2].mul(p2.vector[1])),
        ],
    }
}

/// Spec form of [`plane_with_line`].
pub open spec fn meet_plane_line_v(a: PlaneV, b: LineV) -> PointV {
    PointV {
        t0: fx_add(fx_add(fx_mul(a.v1, b.e0), fx_mul(a.v2, b.e1)), fx_mul(a.v3, b.e2)),
        t1: fx_sub(fx_add(fx_mul(fx_neg(a.v0), b.e0), fx_mul(a.v2, b.v2)), fx_mul(a.v3, b.v1)),
        t2: fx_add(fx_sub(fx_mul(fx_neg(a.v0), b.e1), fx_mul(a.v1, b.v2)), fx_mul(a.v3, b.v0)),
        t3: fx_sub(fx_add(fx_mul(fx_neg(a.v0), b.e2), fx_mul(a.v1, b.v1)), fx_mul(a.v2, b.v0)),
    }
}

/// The intersection point of a plane and a line; an ideal point when the
/// line is parallel to the plane.
pub fn plane_with_line(p: &Plane, l: &Line) -> (r: Point)
    ensures
        r@ == meet_plane_line_v(p@, l@),
{
    Point {
        trivector: [
            p.vector[1].mul(l.e_bivector[0]).add(p.vector[2].mul(l.e_bivector[1])).add(p.vector[3].mul(l.e_bivector[2])),
            p.vector[0].neg().mul(l.e_bivector[0]).add(p.vector[2].mul(l.v_bivector[2])).sub(p.vector[3].mul(l.v_bivector[1])),
            p.vector[0].neg().mul(l.e_bivector[1]).sub(p.vector[1].mul(l.v_bivector[2])).add(p.vector[3].mul(l.v_bivector[0])),
            p.vector[0].neg().mul(l.e_bivector[2]).add(p.vector[1].mul(l.v_bivector[1])).sub(p.vector[2].mul(l.v_bivector[0])),
        ],
    }
}

/// Spec form of [`lines`].
pub open spec fn meet_lines_v(a: LineV, b: LineV) -> int {
    fx_add(fx_add(fx_add(fx_add(fx_add(fx_mul(a.e0, b.v0), fx_mul(a.e1, b.v1)), fx_mul(a.e2, b.v2)), fx_mul(b.e0, a.v0)), fx_mul(b.e1, a.v1)), fx_mul(b.e2, a.v2))
}

/// The meet of two lines: the pseudoscalar measuring their mutual pitch.
pub fn lines(b1: &Line, b2: &Line) -> (r: PseudoScalar)
    ensures
        r.0.v() == meet_lines_v(b1@, b2@),
{
    PseudoScalar(b1.e_bivector[0].mul(b2.v_bivector[0]).add(b1.e_bivector[1].mul(b2.v_bivector[1])).add(b1.e_bivector[2].mul(b2.v_bivector[2])).add(b2.e_bivector[0].mul(b1.v_bivector[0])).add(b2.e_bivector[1].mul(b1.v_bivector[1])).add(b2.e_bivector[2].mul(b1.v_bivector[2])))
}

} // verus!
