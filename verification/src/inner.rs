//! The inner (dot) product of two lines, a scalar.

use vstd::prelude::*;

verus! {

use crate::fx::{Fx, fx_sub, fx_neg, fx_mul};
use crate::model::LineV;
use crate::line::Line;

/// Spec form of [`lines`].
pub open spec fn inner_lines_v(a: LineV, b: LineV) -> int {
    fx_sub(fx_sub(fx_mul(fx_neg(a.e0), b.e0), fx_mul(a.e1, b.e1)), fx_mul(a.e2, b.e2))
}

/// The inner product of two lines: minus the dot product of their
/// Euclidean parts.
pub fn lines(l1: &Line, l2: &Line) -> (r: Fx)
    ensures
        r.v() == inner_lines_v(l1@, l2@),
{
    l1.e_bivector[0].neg().mul(l2.e_bivector[0]).sub(l1.e_bivector[1].mul(l2.e_bivector[1])).sub(l1.e_bivector[2].mul(l2.e_bivector[2]))
}

} // verus!
