//! Planar points and the centroid used to anchor polygonal entities.

use vstd::prelude::*;

verus! {

/// A point in the map's planar coordinate system, in unsigned map-space units.
#[derive(Clone, Copy, PartialEq, Eq, Structural, Hash, Debug)]
pub struct Pt2D {
    pub x: u64,
    pub y: u64,
}

/// Sum of the x coordinates of a sequence of points.
pub open spec fn sum_of_x(pts: Seq<Pt2D>) -> int
    decreases pts.len(),
{
    if pts.len() == 0 {
        0
    } else {
        sum_of_x(pts.drop_last()) + pts.last().x
    }
}

/// Sum of the y coordinates of a sequence of points.
pub open spec fn sum_of_y(pts: Seq<Pt2D>) -> int
    decreases pts.len(),
{
    if pts.len() == 0 {
        0
    } else {
        sum_of_y(pts.drop_last()) + pts.last().y
    }
}

/// The centroid of a nonempty set of points: the componentwise average,
/// rounded down. This is the single representative coordinate used to anchor
/// camera focus on a polygonal entity.
pub open spec fn center_of(pts: Seq<Pt2D>) -> Pt2D
    recommends
        pts.len() > 0,
{
    Pt2D {
        x: (sum_of_x(pts) / pts.len() as int) as u64,
        y: (sum_of_y(pts) / pts.len() as int) as u64,
    }
}

/// Each coordinate sum lies between 0 and the count of points times the
/// largest coordinate value.
proof fn lemma_sum_bounds(pts: Seq<Pt2D>)
    ensures
        0 <= sum_of_x(pts) <= pts.len() * (u64::MAX as int),
        0 <= sum_of_y(pts) <= pts.len() * (u64::MAX as int),
    decreases pts.len(),
{
    if pts.len() == 0 {
    } else {
        lemma_sum_bounds(pts.drop_last());
        assert((pts.len() - 1) * (u64::MAX as int) + (u64::MAX as int) == pts.len() * (
        u64::MAX as int)) by (nonlinear_arith);
    }
}

/// A nonnegative value no greater than `d * bound` divides by `d` to at most
/// `bound`.
proof fn lemma_div_bound(x: int, d: int, bound: int)
    requires
        0 <= x,
        1 <= d,
        0 <= bound,
        x <= d * bound,
    ensures
        0 <= x / d <= bound,
{
    vstd::arithmetic::div_mod::lemma_fundamental_div_mod(x, d);
    vstd::arithmetic::div_mod::lemma_div_pos_is_pos(x, d);
    if x / d > bound {
        vstd::arithmetic::mul::lemma_mul_inequality(bound + 1, x / d, d);
        assert(d * (bound + 1) <= d * (x / d)) by (nonlinear_arith)
            requires
                (bound + 1) * d <= (x / d) * d,
        ;
        assert(d * bound < d * (bound + 1)) by (nonlinear_arith)
            requires
                1 <= d,
        ;
    }
}

impl Pt2D {
    /// The centroid of a nonempty list of points: the componentwise average.
    pub fn center(pts: &Vec<Pt2D>) -> (r: Pt2D)
        requires
            pts@.len() > 0,
        ensures
            r == center_of(pts@),
    {
        let mut sx: u128 = 0;
        let mut sy: u128 = 0;
        let mut i: usize = 0;
        while i < pts.len()
            invariant
                i <= pts@.len(),
                sx == sum_of_x(pts@.take(i as int)),
                sy == sum_of_y(pts@.take(i as int)),
                sx <= i * (u64::MAX as int),
                sy <= i * (u64::MAX as int),
            decreases pts@.len() - i,
        {
            proof {
                assert(pts@.take(i + 1).drop_last() =~= pts@.take(i as int));
                assert(pts@.take(i + 1).last() == pts@[i as int]);
                assert((i + 1) * (u64::MAX as int) == i * (u64::MAX as int) + (
                u64::MAX as int)) by (nonlinear_arith);
                vstd::arithmetic::mul::lemma_mul_inequality(
                    i + 1,
                    u64::MAX as int,
                    u64::MAX as int,
                );
                assert((u64::MAX as int) * (u64::MAX as int) <= u128::MAX as int)
                    by (nonlinear_arith);
            }
            sx = sx + (pts[i].x as u128);
            sy = sy + (pts[i].y as u128);
            i = i + 1;
        }
        proof {
            assert(pts@.take(pts@.len() as int) =~= pts@);
            lemma_sum_bounds(pts@);
            lemma_div_bound(sum_of_x(pts@), pts@.len() as int, u64::MAX as int);
            lemma_div_bound(sum_of_y(pts@), pts@.len() as int, u64::MAX as int);
        }
        let n = pts.len() as u128;
        Pt2D { x: (sx / n) as u64, y: (sy / n) as u64 }
    }
}

} // verus!
