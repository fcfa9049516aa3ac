//! The join (outer product) family: spans of points and lines.

use vstd::prelude::*;

verus! {

use crate::fx::{fx_add, fx_sub, fx_neg, fx_mul};
use crate::fx::{
    lemma_fx_mul_exact, lemma_fx_mul_in_range, lemma_fx_mul_neg, lemma_fx_mul_comm, lemma_fx_flip,
    lemma_fx_neg_exact, lemma_fx_sum3_exact,
};
use crate::model::{PointV, LineV, PlaneV};
use crate::point::Point;
use crate::line::Line;
use crate::plane::Plane;

/// Spec form of [`points`].
pub open spec fn join_points_v(a: PointV, b: PointV) -> LineV {
    LineV {
        v0: fx_add(fx_mul(fx_neg(a.t2), b.t3), fx_mul(a.t3, b.t2)),
        v1: fx_sub(fx_mul(a.t1, b.t3), fx_mul(a.t3, b.t1)),
        v2: fx_add(fx_mul(fx_neg(a.t1), b.t2), fx_mul(a.t2, b.t1)),
        e0: fx_add(fx_mul(fx_neg(a.t0), b.t1), fx_mul(a.t1, b.t0)),
        e1: fx_add(fx_mul(fx_neg(a.t0), b.t2), fx_mul(a.t2, b.t0)),
        e2: fx_add(fx_mul(fx_neg(a.t0), b.t3), fx_mul(a.t3, b.t0)),
    }
}

/// The line through two points; their common direction when either is
/// ideal.
pub fn points(p1: &Point, p2: &Point) -> (r: Line)
    ensures
        r@ == join_points_v(p1@, p2@),
{
    Line {
        v_bivector: [
            p1.trivector[2].neg().mul(p2.trivector[3]).add(p1.trivector[3].mul(p2.trivector[2])),
            p1.trivector[1].mul(p2.trivector[3]).sub(p1.trivector[3].mul(p2.trivector[1])),
            p1.trivector[1].neg().mul(p2.trivector[2]).add(p1.trivector[2].mul(p2.trivector[1])),
        ],
        e_bivector: [
            p1.trivector[0].neg().mul(p2.trivector[1]).add(p1.trivector[1].mul(p2.trivector[0])),
            p1.trivector[0].neg().mul(p2.trivector[2]).add(p1.trivector[2].mul(p2.trivector[0])),
            p1.trivector[0].neg().mul(p2.trivector[3]).add(p1.trivector[3].mul(p2.trivector[0])),
        ],
    }
}

/// Spec form of [`line_to_point`].
pub open spec fn join_line_point_v(a: LineV, b: PointV) -> PlaneV {
    PlaneV {
        v0: fx_sub(fx_sub(fx_mul(fx_neg(b.t1), a.v0), fx_mul(b.t2, a.v1)), fx_mul(b.t3, a.v2)),
        v1: fx_add(fx_sub(fx_mul(a.e1, b.t3), fx_mul(a.e2, b.t2)), fx_mul(b.t0, a.v0)),
        v2: fx_add(fx_add(fx_mul(fx_neg(a.e0), b.t3), fx_mul(a.e2, b.t1)), fx_mul(b.t0, a.v1)),
        v3: fx_add(fx_sub(fx_mul(a.e0, b.t2), fx_mul(a.e1, b.t1)), fx_mul(b.t0, a.v2)),
    }
}

/// The plane containing a line and a point.
pub fn line_to_point(l: &Line, p: &Point) -> (r: Plane)
    ensures
        r@ == join_line_point_v(l@, p@),
{
    Plane {
        vector: [
            p.trivector[1].neg().mul(l.v_bivector[0]).sub(p.trivector[2].mul(l.v_bivector[1])).sub(p.trivector[3].mul(l.v_bivector[2])),
            l.e_bivector[1].mul(p.trivector[3]).sub(l.e_bivector[2].mul(p.trivector[2])).add(p.trivector[0].mul(l.v_bivector[0])),
            l.e_bivector[0].neg().mul(p.trivector[3]).add(l.e_bivector[2].mul(p.trivector[1])).add(p.trivector[0].mul(l.v_bivector[1])),
            l.e_bivector[0].mul(p.trivector[2]).sub(l.e_bivector[1].mul(p.trivector[1])).add(p.trivector[0].mul(l.v_bivector[2])),
        ],
    }
}

/// The plane through three points.
pub fn three_points(p1: &Point, p2: &Point, p3: &Point) -> (r: Plane)
    ensures
        r@ == join_line_point_v(join_points_v(p1@, p2@), p3@),
{
    line_to_point(&points(p1, p2), p3)
}

/// Join/meet duality for two points: the join of two points equals the
/// negated dual of the meet of their duals, exactly, for every pair of
/// representable points.
pub proof fn lemma_join_points_meet_duality(a: PointV, b: PointV)
    requires
        crate::model::point_bounded_v(a, crate::fx::FX_MAX as int),
        crate::model::point_bounded_v(b, crate::fx::FX_MAX as int),
    ensures
        join_points_v(a, b) == crate::line::line_neg_v(
            crate::line::line_dual_v(
                crate::meet::meet_planes_v(
                    crate::point::point_dual_v(a),
                    crate::point::point_dual_v(b),
                ),
            ),
        ),
{
    lemma_fx_mul_in_range(a.t0, b.t1);
    lemma_fx_mul_in_range(a.t1, b.t0);
    lemma_fx_mul_in_range(a.t0, b.t2);
    lemma_fx_mul_in_range(a.t2, b.t0);
    lemma_fx_mul_in_range(a.t0, b.t3);
    lemma_fx_mul_in_range(a.t3, b.t0);
    lemma_fx_mul_in_range(a.t2, b.t3);
    lemma_fx_mul_in_range(a.t3, b.t2);
    lemma_fx_mul_in_range(a.t1, b.t3);
    lemma_fx_mul_in_range(a.t3, b.t1);
    lemma_fx_mul_in_range(a.t1, b.t2);
    lemma_fx_mul_in_range(a.t2, b.t1);
    lemma_fx_mul_neg(a.t2, b.t3);
    lemma_fx_mul_neg(a.t1, b.t2);
    lemma_fx_mul_neg(a.t0, b.t1);
    lemma_fx_mul_neg(a.t0, b.t2);
    lemma_fx_mul_neg(a.t0, b.t3);
    lemma_fx_flip(fx_mul(a.t2, b.t3), fx_mul(a.t3, b.t2));
    lemma_fx_flip(fx_mul(a.t3, b.t1), fx_mul(a.t1, b.t3));
    lemma_fx_flip(fx_mul(a.t1, b.t2), fx_mul(a.t2, b.t1));
    lemma_fx_flip(fx_mul(a.t0, b.t1), fx_mul(a.t1, b.t0));
    lemma_fx_flip(fx_mul(a.t0, b.t2), fx_mul(a.t2, b.t0));
    lemma_fx_flip(fx_mul(a.t0, b.t3), fx_mul(a.t3, b.t0));
}

/// Join/meet duality for a line and a point: the plane joining them
/// equals the negated dual of the point where their duals meet, exactly,
/// for coordinates whose magnitude keeps the fixed-point arithmetic from
/// saturating.
pub proof fn lemma_join_line_point_meet_duality(l: LineV, p: PointV)
    requires
        crate::model::line_bounded_v(l, 0x100_0000_0000),
        crate::model::point_bounded_v(p, 0x100_0000_0000),
    ensures
        join_line_point_v(l, p) == crate::plane::plane_neg_v(
            crate::point::point_dual_v(
                crate::meet::meet_plane_line_v(
                    crate::point::point_dual_v(p),
                    crate::line::line_dual_v(l),
                ),
            ),
        ),
{
    let m: int = 0x100_0000_0000;
    assert((m * m) / (crate::fx::FX_SCALE as int) == 0x1000_0000_0000_0000);
    lemma_fx_mul_exact(p.t1, l.v0, m, m);
    lemma_fx_mul_exact(p.t2, l.v1, m, m);
    lemma_fx_mul_exact(p.t3, l.v2, m, m);
    lemma_fx_mul_exact(p.t0, l.v0, m, m);
    lemma_fx_mul_exact(p.t0, l.v1, m, m);
    lemma_fx_mul_exact(p.t0, l.v2, m, m);
    lemma_fx_mul_exact(p.t3, l.e1, m, m);
    lemma_fx_mul_exact(p.t2, l.e2, m, m);
    lemma_fx_mul_exact(p.t3, l.e0, m, m);
    lemma_fx_mul_exact(p.t1, l.e2, m, m);
    lemma_fx_mul_exact(p.t2, l.e0, m, m);
    lemma_fx_mul_exact(p.t1, l.e1, m, m);
    lemma_fx_mul_exact(l.e1, p.t3, m, m);
    lemma_fx_mul_exact(l.e2, p.t2, m, m);
    lemma_fx_mul_exact(l.e0, p.t3, m, m);
    lemma_fx_mul_exact(l.e2, p.t1, m, m);
    lemma_fx_mul_exact(l.e0, p.t2, m, m);
    lemma_fx_mul_exact(l.e1, p.t1, m, m);
    lemma_fx_mul_comm(l.e1, p.t3);
    lemma_fx_mul_comm(l.e2, p.t2);
    lemma_fx_mul_comm(l.e0, p.t3);
    lemma_fx_mul_comm(l.e2, p.t1);
    lemma_fx_mul_comm(l.e0, p.t2);
    lemma_fx_mul_comm(l.e1, p.t1);
    lemma_fx_mul_neg(p.t1, l.v0);
    lemma_fx_mul_neg(p.t0, l.v0);
    lemma_fx_mul_neg(p.t0, l.v1);
    lemma_fx_mul_neg(p.t0, l.v2);
    lemma_fx_mul_neg(l.e0, p.t3);
    let q60: int = 0x1000_0000_0000_0000;
    let c0: int = fx_mul(p.t1, l.v0);
    let c1: int = fx_mul(p.t2, l.v1);
    let c2: int = fx_mul(p.t3, l.v2);
    lemma_fx_neg_exact(c0);
    lemma_fx_sum3_exact(fx_neg(c0), c1, c2);
    lemma_fx_sum3_exact(c0, c1, c2);
    lemma_fx_neg_exact(c0 + c1 + c2);
    let d1a: int = fx_mul(p.t3, l.e1);
    let d1b: int = fx_mul(p.t2, l.e2);
    let d1c: int = fx_mul(p.t0, l.v0);
    lemma_fx_neg_exact(d1c);
    lemma_fx_sum3_exact(d1a, d1b, d1c);
    lemma_fx_sum3_exact(fx_neg(d1c), d1b, d1a);
    lemma_fx_neg_exact(-d1c + d1b - d1a);
    let d2a: int = fx_mul(p.t3, l.e0);
    let d2b: int = fx_mul(p.t1, l.e2);
    let d2c: int = fx_mul(p.t0, l.v1);
    lemma_fx_neg_exact(d2a);
    lemma_fx_neg_exact(d2c);
    lemma_fx_sum3_exact(fx_neg(d2a), d2b, d2c);
    lemma_fx_sum3_exact(fx_neg(d2c), d2b, d2a);
    lemma_fx_neg_exact(-d2c - d2b + d2a);
    let d3a: int = fx_mul(p.t2, l.e0);
    let d3b: int = fx_mul(p.t1, l.e1);
    let d3c: int = fx_mul(p.t0, l.v2);
    lemma_fx_neg_exact(d3c);
    lemma_fx_sum3_exact(d3a, d3b, d3c);
    lemma_fx_sum3_exact(fx_neg(d3c), d3b, d3a);
    lemma_fx_neg_exact(-d3c + d3b - d3a);
}

} // verus!
