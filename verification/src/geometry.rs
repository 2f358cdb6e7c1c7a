//! Geometry primitives: points, edges, and triangles with their derived
//! circumcenter and circumradius, plus the strict circumcircle-containment
//! predicate.

use vstd::prelude::*;

verus! {

use vstd::arithmetic::mul::{
    lemma_mul_is_associative,
    lemma_mul_is_commutative,
    lemma_mul_is_distributive_add,
    lemma_mul_is_distributive_add_other_way,
    lemma_mul_is_distributive_sub_other_way,
};

/// Largest coordinate magnitude accepted by the triangle kernel.  The bound
/// keeps every intermediate of the circumcenter formula (a degree-three
/// polynomial in the coordinates) and of the containment predicate (a
/// degree-six polynomial) inside `i128`.
pub const MAX_COORD: i64 = 600_000;

/// A point in the plane.  Pure value type: equality is coordinate-wise.
#[derive(Clone, Copy, PartialEq, Eq, Structural, Debug)]
pub struct Point {
    pub x: i64,
    pub y: i64,
}

impl Point {
    /// Total constructor: any pair of coordinates is a point.
    pub fn new(x: i64, y: i64) -> (p: Point)
        ensures
            p.x == x,
            p.y == y,
    {
        Point { x, y }
    }
}

/// An edge: an ordered pair of points.  The order of the endpoints is kept
/// as given; geometrically the edge is directionless.
#[derive(Clone, Copy, PartialEq, Eq, Structural, Debug)]
pub struct Edge {
    pub v1: Point,
    pub v2: Point,
}

impl Edge {
    /// Total constructor: degenerate edges (`v1 == v2`) are not rejected.
    pub fn new(v1: Point, v2: Point) -> (e: Edge)
        ensures
            e.v1 == v1,
            e.v2 == v2,
    {
        Edge { v1, v2 }
    }
}

/// Both coordinates of `p` have magnitude at most `bound`.
pub open spec fn coord_bounded(p: Point, bound: int) -> bool {
    &&& -bound <= p.x <= bound
    &&& -bound <= p.y <= bound
}

/// The circumcenter of a triangle is in general not an integer point; it is
/// kept as the exact rational point `(x_num / den, y_num / den)` with the
/// denominator taken straight from the circumcenter formula.
#[derive(Clone, Copy, PartialEq, Eq, Structural, Debug)]
pub struct Circumcenter {
    pub x_num: i128,
    pub y_num: i128,
    pub den: i128,
}

/// Twice the signed doubled area of the triangle `a b c`: the denominator
/// `d` of the Cartesian circumcenter formula.  It is zero exactly when the
/// three vertices are collinear.
pub open spec fn det_d(a: Point, b: Point, c: Point) -> int {
    2 * (a.x * (b.y - c.y) + b.x * (c.y - a.y) + c.x * (a.y - b.y))
}

/// The squared norm `x^2 + y^2` of a point, a building block of the
/// circumcenter formula.
pub open spec fn norm_sq(p: Point) -> int {
    p.x * p.x + p.y * p.y
}

/// Numerator of the circumcenter's x coordinate over denominator `det_d`.
pub open spec fn cc_x_num(a: Point, b: Point, c: Point) -> int {
    norm_sq(a) * (b.y - c.y) + norm_sq(b) * (c.y - a.y) + norm_sq(c) * (a.y - b.y)
}

/// Numerator of the circumcenter's y coordinate over denominator `det_d`.
pub open spec fn cc_y_num(a: Point, b: Point, c: Point) -> int {
    norm_sq(a) * (c.x - b.x) + norm_sq(b) * (a.x - c.x) + norm_sq(c) * (b.x - a.x)
}

/// The squared distance from the rational point `cc` to the integer point
/// `p`, scaled by `cc.den * cc.den`.  Comparing two such values with the
/// same denominator compares the true squared distances, since the common
/// scale factor is positive.
pub open spec fn dist_sq_scaled(cc: Circumcenter, p: Point) -> int {
    (cc.x_num - p.x * cc.den) * (cc.x_num - p.x * cc.den)
        + (cc.y_num - p.y * cc.den) * (cc.y_num - p.y * cc.den)
}

/// A triangle: three vertices, three edges (by convention `edges[i]`
/// connects `vertices[i]` and `vertices[(i + 1) % 3]`, a caller obligation
/// that is not enforced), and the derived circumcenter and squared
/// circumradius.  The squared circumradius is kept scaled by `den * den`,
/// i.e. the true squared circumradius is
/// `circumradius_sq_num / (circumcenter.den * circumcenter.den)`.
#[derive(Clone, Copy, Debug)]
pub struct Triangle {
    pub vertices: [Point; 3],
    pub edges: [Edge; 3],
    pub circumcenter: Circumcenter,
    pub circumradius_sq_num: i128,
}

impl Triangle {
    /// Well-formedness: bounded non-collinear vertices, and the derived
    /// fields agree exactly with the circumcenter formula applied to the
    /// vertices.  Established by the constructor, preserved forever (the
    /// type is immutable).
    pub open spec fn wf(self) -> bool {
        &&& coord_bounded(self.vertices[0], MAX_COORD as int)
        &&& coord_bounded(self.vertices[1], MAX_COORD as int)
        &&& coord_bounded(self.vertices[2], MAX_COORD as int)
        &&& det_d(self.vertices[0], self.vertices[1], self.vertices[2]) != 0
        &&& self.circumcenter.den == det_d(self.vertices[0], self.vertices[1], self.vertices[2])
        &&& self.circumcenter.x_num == cc_x_num(self.vertices[0], self.vertices[1], self.vertices[2])
        &&& self.circumcenter.y_num == cc_y_num(self.vertices[0], self.vertices[1], self.vertices[2])
        &&& self.circumradius_sq_num == dist_sq_scaled(self.circumcenter, self.vertices[0])
    }

    /// The point `p` lies strictly inside the circumcircle: the distance
    /// from the circumcenter to `p` is strictly less than the circumradius.
    /// Stated over squared distances scaled by the common positive factor
    /// `den * den`, which preserves the strict order exactly.
    pub open spec fn circumcircle_contains_spec(self, p: Point) -> bool {
        dist_sq_scaled(self.circumcenter, p) < self.circumradius_sq_num
    }
}

impl Triangle {
    /// Builds a triangle from its three vertices and three edges and derives
    /// the circumcenter and the (scaled) squared circumradius with the
    /// Cartesian circumscribed-circle formula, exactly.
    ///
    /// Callers must supply non-collinear vertices (`det_d != 0`): on
    /// collinear input the formula divides by zero, so such input is a
    /// precondition violation rather than a handled case.  That `edges[i]`
    /// connects `vertices[i]` and `vertices[(i + 1) % 3]` is a caller
    /// convention, kept but not checked.
    pub fn new(vertices: [Point; 3], edges: [Edge; 3]) -> (t: Triangle)
        requires
            coord_bounded(vertices[0], MAX_COORD as int),
            coord_bounded(vertices[1], MAX_COORD as int),
            coord_bounded(vertices[2], MAX_COORD as int),
            det_d(vertices[0], vertices[1], vertices[2]) != 0,
        ensures
            t.vertices == vertices,
            t.edges == edges,
            t.wf(),
    {
        let a = vertices[0];
        let b = vertices[1];
        let c = vertices[2];
        let ax = a.x as i128;
        let ay = a.y as i128;
        let bx = b.x as i128;
        let by = b.y as i128;
        let cx = c.x as i128;
        let cy = c.y as i128;

        let dy_bc = by - cy;
        let dy_ca = cy - ay;
        let dy_ab = ay - by;
        let dx_cb = cx - bx;
        let dx_ac = ax - cx;
        let dx_ba = bx - ax;

        proof {
            lemma_mul_bound(ax as int, dy_bc as int, 600_000, 1_200_000);
            lemma_mul_bound(bx as int, dy_ca as int, 600_000, 1_200_000);
            lemma_mul_bound(cx as int, dy_ab as int, 600_000, 1_200_000);
        }
        let d = 2 * (ax * dy_bc + bx * dy_ca + cx * dy_ab);

        proof {
            lemma_mul_bound(ax as int, ax as int, 600_000, 600_000);
            lemma_mul_bound(ay as int, ay as int, 600_000, 600_000);
            lemma_mul_bound(bx as int, bx as int, 600_000, 600_000);
            lemma_mul_bound(by as int, by as int, 600_000, 600_000);
            lemma_mul_bound(cx as int, cx as int, 600_000, 600_000);
            lemma_mul_bound(cy as int, cy as int, 600_000, 600_000);
        }
        let norm_a = ax * ax + ay * ay;
        let norm_b = bx * bx + by * by;
        let norm_c = cx * cx + cy * cy;

        proof {
            lemma_mul_bound(norm_a as int, dy_bc as int, 720_000_000_000, 1_200_000);
            lemma_mul_bound(norm_b as int, dy_ca as int, 720_000_000_000, 1_200_000);
            lemma_mul_bound(norm_c as int, dy_ab as int, 720_000_000_000, 1_200_000);
            lemma_mul_bound(norm_a as int, dx_cb as int, 720_000_000_000, 1_200_000);
            lemma_mul_bound(norm_b as int, dx_ac as int, 720_000_000_000, 1_200_000);
            lemma_mul_bound(norm_c as int, dx_ba as int, 720_000_000_000, 1_200_000);
        }
        let x_num = norm_a * dy_bc + norm_b * dy_ca + norm_c * dy_ab;
        let y_num = norm_a * dx_cb + norm_b * dx_ac + norm_c * dx_ba;

        proof {
            lemma_mul_bound(ax as int, d as int, 600_000, 4_320_000_000_000);
            lemma_mul_bound(ay as int, d as int, 600_000, 4_320_000_000_000);
        }
        let rx = x_num - ax * d;
        let ry = y_num - ay * d;
        proof {
            lemma_mul_bound(
                rx as int,
                rx as int,
                5_184_000_000_000_000_000,
                5_184_000_000_000_000_000,
            );
            lemma_mul_bound(
                ry as int,
                ry as int,
                5_184_000_000_000_000_000,
                5_184_000_000_000_000_000,
            );
        }
        let r2 = rx * rx + ry * ry;

        Triangle {
            vertices,
            edges,
            circumcenter: Circumcenter { x_num, y_num, den: d },
            circumradius_sq_num: r2,
        }
    }
}

impl Triangle {
    /// Strict circumcircle containment: true exactly when the distance from
    /// the circumcenter to `point` is strictly less than the circumradius.
    /// A point exactly on the circumcircle boundary is NOT contained — the
    /// tie-break that Delaunay legalization relies on.  Decided exactly, by
    /// comparing the squared distances scaled by the common positive factor
    /// `den * den`.
    pub fn circumcircle_contains(&self, point: &Point) -> (r: bool)
        requires
            self.wf(),
            coord_bounded(*point, MAX_COORD as int),
        ensures
            r == self.circumcircle_contains_spec(*point),
    {
        proof {
            lemma_circumcenter_bounds(self.vertices[0], self.vertices[1], self.vertices[2]);
        }
        let px = point.x as i128;
        let py = point.y as i128;
        proof {
            lemma_mul_bound(px as int, self.circumcenter.den as int, 600_000, 4_320_000_000_000);
            lemma_mul_bound(py as int, self.circumcenter.den as int, 600_000, 4_320_000_000_000);
        }
        let dx = self.circumcenter.x_num - px * self.circumcenter.den;
        let dy = self.circumcenter.y_num - py * self.circumcenter.den;
        proof {
            lemma_mul_bound(
                dx as int,
                dx as int,
                5_184_000_000_000_000_000,
                5_184_000_000_000_000_000,
            );
            lemma_mul_bound(
                dy as int,
                dy as int,
                5_184_000_000_000_000_000,
                5_184_000_000_000_000_000,
            );
        }
        let dist_sq_num = dx * dx + dy * dy;
        dist_sq_num < self.circumradius_sq_num
    }
}

/// Bounds on the ingredients of the circumcenter formula that follow from
/// bounded vertex coordinates: the numerators, the denominator, and the
/// scaled squared distance to any bounded point all fit comfortably in
/// `i128`.
pub proof fn lemma_circumcenter_bounds(a: Point, b: Point, c: Point)
    requires
        coord_bounded(a, MAX_COORD as int),
        coord_bounded(b, MAX_COORD as int),
        coord_bounded(c, MAX_COORD as int),
    ensures
        -2_592_000_000_000_000_000 <= cc_x_num(a, b, c) <= 2_592_000_000_000_000_000,
        -2_592_000_000_000_000_000 <= cc_y_num(a, b, c) <= 2_592_000_000_000_000_000,
        -4_320_000_000_000 <= det_d(a, b, c) <= 4_320_000_000_000,
{
    lemma_mul_bound(a.x as int, (b.y - c.y) as int, 600_000, 1_200_000);
    lemma_mul_bound(b.x as int, (c.y - a.y) as int, 600_000, 1_200_000);
    lemma_mul_bound(c.x as int, (a.y - b.y) as int, 600_000, 1_200_000);
    lemma_mul_bound(a.x as int, a.x as int, 600_000, 600_000);
    lemma_mul_bound(a.y as int, a.y as int, 600_000, 600_000);
    lemma_mul_bound(b.x as int, b.x as int, 600_000, 600_000);
    lemma_mul_bound(b.y as int, b.y as int, 600_000, 600_000);
    lemma_mul_bound(c.x as int, c.x as int, 600_000, 600_000);
    lemma_mul_bound(c.y as int, c.y as int, 600_000, 600_000);
    lemma_mul_bound(norm_sq(a), (b.y - c.y) as int, 720_000_000_000, 1_200_000);
    lemma_mul_bound(norm_sq(b), (c.y - a.y) as int, 720_000_000_000, 1_200_000);
    lemma_mul_bound(norm_sq(c), (a.y - b.y) as int, 720_000_000_000, 1_200_000);
    lemma_mul_bound(norm_sq(a), (c.x - b.x) as int, 720_000_000_000, 1_200_000);
    lemma_mul_bound(norm_sq(b), (a.x - c.x) as int, 720_000_000_000, 1_200_000);
    lemma_mul_bound(norm_sq(c), (b.x - a.x) as int, 720_000_000_000, 1_200_000);
}

/// A product is bounded by the product of the bounds of its factors.
pub proof fn lemma_mul_bound(x: int, y: int, bx: int, by: int)
    by (nonlinear_arith)
    requires
        -bx <= x <= bx,
        -by <= y <= by,
    ensures
        -(bx * by) <= x * y <= bx * by,
{
}

/// Pure distribution: grouping a bilinear sum by the three abstracted
/// coefficients `na`, `nb`, `nc`.
proof fn lemma_group_by_norms(
    na: int,
    nb: int,
    nc: int,
    p1: int,
    p2: int,
    p3: int,
    q1: int,
    q2: int,
    q3: int,
    e1: int,
    e2: int,
)
    ensures
        (na * p1 + nb * p2 + nc * p3) * e1 + (na * q1 + nb * q2 + nc * q3) * e2 == na * (p1 * e1
            + q1 * e2) + nb * (p2 * e1 + q2 * e2) + nc * (p3 * e1 + q3 * e2),
{
    lemma_mul_is_distributive_add_other_way(e1, na * p1 + nb * p2, nc * p3);
    lemma_mul_is_distributive_add_other_way(e1, na * p1, nb * p2);
    lemma_mul_is_associative(na, p1, e1);
    lemma_mul_is_associative(nb, p2, e1);
    lemma_mul_is_associative(nc, p3, e1);
    lemma_mul_is_distributive_add_other_way(e2, na * q1 + nb * q2, nc * q3);
    lemma_mul_is_distributive_add_other_way(e2, na * q1, nb * q2);
    lemma_mul_is_associative(na, q1, e2);
    lemma_mul_is_associative(nb, q2, e2);
    lemma_mul_is_associative(nc, q3, e2);
    lemma_mul_is_distributive_add(na, p1 * e1, q1 * e2);
    lemma_mul_is_distributive_add(nb, p2 * e1, q2 * e2);
    lemma_mul_is_distributive_add(nc, p3 * e1, q3 * e2);
}

/// The square of a scaled value, regrouped: `(p d)^2 == p^2 d^2`.
proof fn lemma_sq_scale(p: int, d: int)
    ensures
        (p * d) * (p * d) == (p * p) * (d * d),
{
    lemma_mul_is_associative(p * d, p, d);
    lemma_mul_is_commutative(p * d, p);
    lemma_mul_is_associative(p, p, d);
    lemma_mul_is_associative(p * p, d, d);
}

/// Polynomial identity at the heart of the circumcenter formula: with the
/// squared vertex norms `na`, `nb`, `nc` abstracted, the numerators `n`,
/// `m` and the denominator `d` satisfy, for each pair of vertices, the
/// relation that makes the rational point `(n/d, m/d)` equidistant from
/// them.
proof fn lemma_circumcenter_relation(
    ax: int,
    ay: int,
    bx: int,
    by: int,
    cx: int,
    cy: int,
    na: int,
    nb: int,
    nc: int,
    n: int,
    m: int,
    d: int,
)
    requires
        n == na * (by - cy) + nb * (cy - ay) + nc * (ay - by),
        m == na * (cx - bx) + nb * (ax - cx) + nc * (bx - ax),
        d == 2 * (ax * (by - cy) + bx * (cy - ay) + cx * (ay - by)),
    ensures
        2 * n * (bx - ax) + 2 * m * (by - ay) == d * (nb - na),
        2 * n * (cx - ax) + 2 * m * (cy - ay) == d * (nc - na),
{
    let p1 = by - cy;
    let p2 = cy - ay;
    let p3 = ay - by;
    let q1 = cx - bx;
    let q2 = ax - cx;
    let q3 = bx - ax;

    // Grouping the sum by the abstracted norms, for the pair (a, b).
    let e1 = bx - ax;
    let e2 = by - ay;
    let sa = p1 * e1 + q1 * e2;
    let sb = p2 * e1 + q2 * e2;
    let sc = p3 * e1 + q3 * e2;
    lemma_group_by_norms(na, nb, nc, p1, p2, p3, q1, q2, q3, e1, e2);
    assert(n * e1 + m * e2 == na * sa + nb * sb + nc * sc);
    // The coefficient of each norm collapses to a multiple of d.
    assert(2 * sa == -d && 2 * sb == d && sc == 0) by (nonlinear_arith)
        requires
            sa == (by - cy) * (bx - ax) + (cx - bx) * (by - ay),
            sb == (cy - ay) * (bx - ax) + (ax - cx) * (by - ay),
            sc == (ay - by) * (bx - ax) + (bx - ax) * (by - ay),
            d == 2 * (ax * (by - cy) + bx * (cy - ay) + cx * (ay - by)),
    ;
    assert(2 * n * (bx - ax) + 2 * m * (by - ay) == d * (nb - na)) by (nonlinear_arith)
        requires
            n * (bx - ax) + m * (by - ay) == na * sa + nb * sb + nc * sc,
            2 * sa == -d,
            2 * sb == d,
            sc == 0,
    ;

    // The same grouping for the pair (a, c).
    let f1 = cx - ax;
    let f2 = cy - ay;
    let ta = p1 * f1 + q1 * f2;
    let tb = p2 * f1 + q2 * f2;
    let tc = p3 * f1 + q3 * f2;
    lemma_group_by_norms(na, nb, nc, p1, p2, p3, q1, q2, q3, f1, f2);
    assert(n * f1 + m * f2 == na * ta + nb * tb + nc * tc);
    assert(2 * ta == -d && tb == 0 && 2 * tc == d) by (nonlinear_arith)
        requires
            ta == (by - cy) * (cx - ax) + (cx - bx) * (cy - ay),
            tb == (cy - ay) * (cx - ax) + (ax - cx) * (cy - ay),
            tc == (ay - by) * (cx - ax) + (bx - ax) * (cy - ay),
            d == 2 * (ax * (by - cy) + bx * (cy - ay) + cx * (ay - by)),
    ;
    assert(2 * n * (cx - ax) + 2 * m * (cy - ay) == d * (nc - na)) by (nonlinear_arith)
        requires
            n * (cx - ax) + m * (cy - ay) == na * ta + nb * tb + nc * tc,
            2 * ta == -d,
            tb == 0,
            2 * tc == d,
    ;
}

/// If `2n(u - s) + 2m(v - t) == u^2 - s^2 + v^2 - t^2`, the point `(n, m)`
/// is equidistant (in squared distance) from `(s, t)` and `(u, v)`.
proof fn lemma_equidistant_shift(n: int, m: int, s: int, t: int, u: int, v: int)
    by (nonlinear_arith)
    requires
        2 * n * (u - s) + 2 * m * (v - t) == u * u - s * s + v * v - t * t,
    ensures
        (n - s) * (n - s) + (m - t) * (m - t) == (n - u) * (n - u) + (m - v) * (m - v),
{
}

/// Bridges the equidistance relation from coordinate form to the scaled
/// form: given the relation for the pair `(p, q)`, the scaled squared
/// distances from the rational point `(n/d, m/d)` to `p` and to `q` agree.
proof fn lemma_equidistant_pair(n: int, m: int, d: int, px: int, py: int, qx: int, qy: int)
    requires
        2 * n * (qx - px) + 2 * m * (qy - py) == d * (qx * qx + qy * qy - px * px - py * py),
    ensures
        (n - px * d) * (n - px * d) + (m - py * d) * (m - py * d) == (n - qx * d) * (n - qx * d)
            + (m - qy * d) * (m - qy * d),
{
    let s = px * d;
    let t = py * d;
    let u = qx * d;
    let v = qy * d;
    // 2n(u - s) + 2m(v - t) is the relation's left side scaled by d.
    lemma_mul_is_distributive_sub_other_way(d, qx, px);
    lemma_mul_is_associative(2 * n, qx - px, d);
    lemma_mul_is_distributive_sub_other_way(d, qy, py);
    lemma_mul_is_associative(2 * m, qy - py, d);
    assert(2 * n * (u - s) == (2 * n * (qx - px)) * d);
    assert(2 * m * (v - t) == (2 * m * (qy - py)) * d);
    // u^2 - s^2 + v^2 - t^2 is the relation's right side scaled by d.
    let dd = d * d;
    lemma_sq_scale(px, d);
    lemma_sq_scale(py, d);
    lemma_sq_scale(qx, d);
    lemma_sq_scale(qy, d);
    lemma_mul_is_distributive_sub_other_way(dd, qx * qx + qy * qy - px * px, py * py);
    lemma_mul_is_distributive_sub_other_way(dd, qx * qx + qy * qy, px * px);
    lemma_mul_is_distributive_add_other_way(dd, qx * qx, qy * qy);
    assert(u * u - s * s + v * v - t * t == (qx * qx + qy * qy - px * px - py * py) * dd);
    // Scale the relation itself by d and chain the two sides.
    let q2sum = qx * qx + qy * qy - px * px - py * py;
    lemma_mul_is_distributive_add_other_way(d, 2 * n * (qx - px), 2 * m * (qy - py));
    lemma_mul_is_commutative(d, q2sum);
    lemma_mul_is_associative(q2sum, d, d);
    assert((2 * n * (qx - px)) * d + (2 * m * (qy - py)) * d == q2sum * dd);
    lemma_equidistant_shift(n, m, s, t, u, v);
}

/// The circumcenter is equidistant from all three vertices: for a
/// well-formed triangle the scaled squared distance from the circumcenter
/// to each vertex equals the stored scaled squared circumradius — exactly,
/// not merely within a tolerance.
pub proof fn lemma_circumcenter_equidistant(t: Triangle)
    requires
        t.wf(),
    ensures
        dist_sq_scaled(t.circumcenter, t.vertices[0]) == t.circumradius_sq_num,
        dist_sq_scaled(t.circumcenter, t.vertices[1]) == t.circumradius_sq_num,
        dist_sq_scaled(t.circumcenter, t.vertices[2]) == t.circumradius_sq_num,
{
    let a = t.vertices[0];
    let b = t.vertices[1];
    let c = t.vertices[2];
    let n = t.circumcenter.x_num as int;
    let m = t.circumcenter.y_num as int;
    let d = t.circumcenter.den as int;
    lemma_circumcenter_relation(
        a.x as int,
        a.y as int,
        b.x as int,
        b.y as int,
        c.x as int,
        c.y as int,
        norm_sq(a),
        norm_sq(b),
        norm_sq(c),
        n,
        m,
        d,
    );
    lemma_equidistant_pair(n, m, d, a.x as int, a.y as int, b.x as int, b.y as int);
    lemma_equidistant_pair(n, m, d, a.x as int, a.y as int, c.x as int, c.y as int);
}

/// Containment is monotonic in the distance from the circumcenter: moving a
/// point no further from the center never flips containment from true to
/// false.
pub proof fn lemma_containment_monotonic(t: Triangle, p: Point, q: Point)
    requires
        t.wf(),
        dist_sq_scaled(t.circumcenter, p) <= dist_sq_scaled(t.circumcenter, q),
        t.circumcircle_contains_spec(q),
    ensures
        t.circumcircle_contains_spec(p),
{
}

/// A point exactly on the circumcircle — at distance exactly the
/// circumradius from the circumcenter — is NOT contained: the predicate is
/// a strict inequality.
pub proof fn lemma_boundary_not_contained(t: Triangle, p: Point)
    requires
        t.wf(),
        dist_sq_scaled(t.circumcenter, p) == t.circumradius_sq_num,
    ensures
        !t.circumcircle_contains_spec(p),
{
}

/// Construction is deterministic: two well-formed triangles over the same
/// vertices carry identical circumcenters and identical scaled squared
/// circumradii — the derived fields are a pure function of the vertices.
pub proof fn lemma_construction_deterministic(t1: Triangle, t2: Triangle)
    requires
        t1.wf(),
        t2.wf(),
        t1.vertices[0] == t2.vertices[0],
        t1.vertices[1] == t2.vertices[1],
        t1.vertices[2] == t2.vertices[2],
    ensures
        t1.circumcenter == t2.circumcenter,
        t1.circumradius_sq_num == t2.circumradius_sq_num,
{
}

} // verus!
