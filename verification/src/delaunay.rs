//! Bootstrap constructor: a "super-triangle" that strictly encloses an
//! arbitrary non-empty point set, used to seed incremental triangulation.

use vstd::prelude::*;

verus! {

use vstd::arithmetic::mul::lemma_mul_strictly_positive;
use crate::geometry::{coord_bounded, det_d, Edge, Point, Triangle};

/// Largest coordinate magnitude accepted by the bootstrap constructor.
/// The emitted triangle's vertices reach five times as far, which keeps
/// them within `MAX_COORD` of the triangle kernel.
pub const MAX_INPUT_COORD: i64 = 100_000;

/// The least x coordinate of a non-empty point sequence.
pub open spec fn min_x_of(s: Seq<Point>) -> int
    recommends
        s.len() > 0,
    decreases s.len(),
{
    if s.len() <= 1 {
        s[0].x as int
    } else {
        let rest = min_x_of(s.drop_last());
        if s.last().x < rest {
            s.last().x as int
        } else {
            rest
        }
    }
}

/// The greatest x coordinate of a non-empty point sequence.
pub open spec fn max_x_of(s: Seq<Point>) -> int
    recommends
        s.len() > 0,
    decreases s.len(),
{
    if s.len() <= 1 {
        s[0].x as int
    } else {
        let rest = max_x_of(s.drop_last());
        if s.last().x > rest {
            s.last().x as int
        } else {
            rest
        }
    }
}

/// The least y coordinate of a non-empty point sequence.
pub open spec fn min_y_of(s: Seq<Point>) -> int
    recommends
        s.len() > 0,
    decreases s.len(),
{
    if s.len() <= 1 {
        s[0].y as int
    } else {
        let rest = min_y_of(s.drop_last());
        if s.last().y < rest {
            s.last().y as int
        } else {
            rest
        }
    }
}

/// The greatest y coordinate of a non-empty point sequence.
pub open spec fn max_y_of(s: Seq<Point>) -> int
    recommends
        s.len() > 0,
    decreases s.len(),
{
    if s.len() <= 1 {
        s[0].y as int
    } else {
        let rest = max_y_of(s.drop_last());
        if s.last().y > rest {
            s.last().y as int
        } else {
            rest
        }
    }
}

/// The minimum is a lower bound on every x coordinate.
proof fn lemma_min_x_le(s: Seq<Point>, i: int)
    requires
        0 <= i < s.len(),
    ensures
        min_x_of(s) <= s[i].x,
    decreases s.len(),
{
    if s.len() > 1 && i < s.len() - 1 {
        lemma_min_x_le(s.drop_last(), i);
    }
}

/// The maximum is an upper bound on every x coordinate.
proof fn lemma_max_x_ge(s: Seq<Point>, i: int)
    requires
        0 <= i < s.len(),
    ensures
        max_x_of(s) >= s[i].x,
    decreases s.len(),
{
    if s.len() > 1 && i < s.len() - 1 {
        lemma_max_x_ge(s.drop_last(), i);
    }
}

/// The minimum is a lower bound on every y coordinate.
proof fn lemma_min_y_le(s: Seq<Point>, i: int)
    requires
        0 <= i < s.len(),
    ensures
        min_y_of(s) <= s[i].y,
    decreases s.len(),
{
    if s.len() > 1 && i < s.len() - 1 {
        lemma_min_y_le(s.drop_last(), i);
    }
}

/// The maximum is an upper bound on every y coordinate.
proof fn lemma_max_y_ge(s: Seq<Point>, i: int)
    requires
        0 <= i < s.len(),
    ensures
        max_y_of(s) >= s[i].y,
    decreases s.len(),
{
    if s.len() > 1 && i < s.len() - 1 {
        lemma_max_y_ge(s.drop_last(), i);
    }
}

/// Builds one triangle that strictly contains every input point.
///
/// The axis-aligned bounding box of the input is padded by one unit on
/// every side; the triangle spans the padded box from its bottom-left
/// corner, reaching twice the padded width to the right and twice the
/// padded height upward.  Every input point ends up strictly between the
/// triangle's extents — strictly, so that points on the bounding box are
/// interior, never on an edge — and the three vertices are never
/// collinear, even for a single-point input.  The empty input is ruled
/// out: there is no coordinate to seed the bounds from.
pub fn enclosing_triangle(points: &Vec<Point>) -> (t: Triangle)
    requires
        points@.len() > 0,
        forall|j: int|
            0 <= j < points@.len() ==> coord_bounded(
                #[trigger] points@[j],
                MAX_INPUT_COORD as int,
            ),
    ensures
        t.wf(),
        t.vertices[0].x == min_x_of(points@) - 1,
        t.vertices[0].y == min_y_of(points@) - 1,
        t.vertices[1].x == 3 * max_x_of(points@) - 2 * min_x_of(points@) + 5,
        t.vertices[1].y == min_y_of(points@) - 1,
        t.vertices[2].x == min_x_of(points@) - 1,
        t.vertices[2].y == 3 * max_y_of(points@) - 2 * min_y_of(points@) + 5,
        t.edges[0].v1 == t.vertices[0] && t.edges[0].v2 == t.vertices[1],
        t.edges[1].v1 == t.vertices[1] && t.edges[1].v2 == t.vertices[2],
        t.edges[2].v1 == t.vertices[2] && t.edges[2].v2 == t.vertices[0],
        forall|j: int|
            0 <= j < points@.len() ==> {
                &&& t.vertices[0].x < (#[trigger] points@[j]).x < t.vertices[1].x
                &&& t.vertices[0].y < points@[j].y < t.vertices[2].y
            },
{
    let ghost all = points@;
    let mut min_x = points[0].x;
    let mut max_x = points[0].x;
    let mut min_y = points[0].y;
    let mut max_y = points[0].y;
    let mut i: usize = 1;
    while i < points.len()
        invariant
            1 <= i <= all.len(),
            all == points@,
            all.len() > 0,
            forall|j: int| 0 <= j < all.len() ==> coord_bounded(#[trigger] all[j], 100_000),
            min_x == min_x_of(all.take(i as int)),
            max_x == max_x_of(all.take(i as int)),
            min_y == min_y_of(all.take(i as int)),
            max_y == max_y_of(all.take(i as int)),
            -100_000 <= min_x <= 100_000,
            -100_000 <= max_x <= 100_000,
            -100_000 <= min_y <= 100_000,
            -100_000 <= max_y <= 100_000,
        decreases all.len() - i,
    {
        proof {
            assert(all.take(i as int + 1).drop_last() =~= all.take(i as int));
            assert(all.take(i as int + 1).last() == all[i as int]);
        }
        let p = points[i];
        if p.x < min_x {
            min_x = p.x;
        }
        if p.x > max_x {
            max_x = p.x;
        }
        if p.y < min_y {
            min_y = p.y;
        }
        if p.y > max_y {
            max_y = p.y;
        }
        i = i + 1;
    }
    proof {
        assert(all.take(all.len() as int) =~= all);
    }

    // Pad the bounding box by one unit outward, then span twice its
    // extents beyond the far corners.
    let pad_min_x = min_x - 1;
    let pad_max_x = max_x + 1;
    let pad_min_y = min_y - 1;
    let pad_max_y = max_y + 1;
    let width = 2 * (pad_max_x - pad_min_x);
    let height = 2 * (pad_max_y - pad_min_y);

    let bottom_left = Point::new(pad_min_x, pad_min_y);
    let bottom_right = Point::new(pad_max_x + width, pad_min_y);
    let top_left = Point::new(pad_min_x, pad_max_y + height);

    let edge_1 = Edge::new(bottom_left, bottom_right);
    let edge_2 = Edge::new(bottom_right, top_left);
    let edge_3 = Edge::new(top_left, bottom_left);

    proof {
        lemma_min_x_le(all, 0);
        lemma_max_x_ge(all, 0);
        lemma_min_y_le(all, 0);
        lemma_max_y_ge(all, 0);
        // A right triangle spanning a box of positive width and height is
        // never collinear: its determinant is the (positive) product of
        // the two side lengths.
        assert(det_d(bottom_left, bottom_right, top_left) == 2 * ((bottom_right.x - bottom_left.x)
            * (top_left.y - bottom_left.y))) by (nonlinear_arith)
            requires
                bottom_left.y == bottom_right.y,
                bottom_left.x == top_left.x,
                det_d(bottom_left, bottom_right, top_left) == 2 * (bottom_left.x * (bottom_right.y
                    - top_left.y) + bottom_right.x * (top_left.y - bottom_left.y) + top_left.x * (
                bottom_left.y - bottom_right.y)),
        ;
        lemma_mul_strictly_positive(
            (bottom_right.x - bottom_left.x) as int,
            (top_left.y - bottom_left.y) as int,
        );
    }
    let t = Triangle::new([bottom_left, bottom_right, top_left], [edge_1, edge_2, edge_3]);
    proof {
        assert forall|j: int| 0 <= j < all.len() implies {
            &&& t.vertices[0].x < (#[trigger] all[j]).x < t.vertices[1].x
            &&& t.vertices[0].y < all[j].y < t.vertices[2].y
        } by {
            lemma_min_x_le(all, j);
            lemma_max_x_ge(all, j);
            lemma_min_y_le(all, j);
            lemma_max_y_ge(all, j);
        }
    }
    t
}

} // verus!
