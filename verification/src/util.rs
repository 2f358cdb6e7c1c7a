//! Distance helpers on integer points.

use vstd::prelude::*;

verus! {

use crate::geometry::{coord_bounded, lemma_mul_bound, Point, MAX_COORD};

/// The squared Euclidean distance between two points.
pub open spec fn dist_sq(a: Point, b: Point) -> int {
    (a.x - b.x) * (a.x - b.x) + (a.y - b.y) * (a.y - b.y)
}

/// The squared Euclidean distance, computed exactly.
pub fn distance_squared_between(a: &Point, b: &Point) -> (d: i64)
    requires
        coord_bounded(*a, MAX_COORD as int),
        coord_bounded(*b, MAX_COORD as int),
    ensures
        d == dist_sq(*a, *b),
        0 <= d <= 2_880_000_000_000,
{
    let dx = a.x - b.x;
    let dy = a.y - b.y;
    proof {
        lemma_mul_bound(dx as int, dx as int, 1_200_000, 1_200_000);
        lemma_mul_bound(dy as int, dy as int, 1_200_000, 1_200_000);
        assert(dx * dx >= 0 && dy * dy >= 0) by (nonlinear_arith);
    }
    dx * dx + dy * dy
}

/// The integer square root: the unique `r` with `r^2 <= n < (r + 1)^2`,
/// found by binary search.
pub fn isqrt_u64(n: u64) -> (r: u64)
    ensures
        r * r <= n < (r + 1) * (r + 1),
        r <= 4_294_967_295,
{
    let mut lo: u64 = 0;
    let mut hi: u64 = if n < 4_294_967_295 {
        n
    } else {
        4_294_967_295
    };
    proof {
        assert((n + 1) * (n + 1) > n) by (nonlinear_arith);
        assert((4_294_967_295u64 + 1) * (4_294_967_295u64 + 1) > n) by (nonlinear_arith)
            requires
                n <= 0xffff_ffff_ffff_ffffu64,
        ;
    }
    while lo < hi
        invariant
            lo <= hi <= 4_294_967_295,
            lo * lo <= n,
            (hi + 1) * (hi + 1) > n,
        decreases hi - lo,
    {
        let mid = lo + (hi - lo + 1) / 2;
        proof {
            lemma_mul_bound(mid as int, mid as int, 4_294_967_295, 4_294_967_295);
        }
        if (mid as u128) * (mid as u128) <= n as u128 {
            lo = mid;
        } else {
            hi = mid - 1;
        }
    }
    lo
}

/// The Euclidean distance between two points, rounded down to an integer:
/// the unique `d` with `d^2 <= dist_sq(a, b) < (d + 1)^2`.  When the true
/// distance is an integer — as for the 3-4-5 triangle — the result is that
/// distance, exactly.
pub fn distance_between(a: &Point, b: &Point) -> (d: i64)
    requires
        coord_bounded(*a, MAX_COORD as int),
        coord_bounded(*b, MAX_COORD as int),
    ensures
        0 <= d,
        d * d <= dist_sq(*a, *b) < (d + 1) * (d + 1),
{
    let sq = distance_squared_between(a, b);
    let r = isqrt_u64(sq as u64);
    r as i64
}

} // verus!
