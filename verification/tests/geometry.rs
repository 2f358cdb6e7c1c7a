use delaunay_core::geometry::{Edge, Point, Triangle};
use delaunay_core::util::{distance_between, distance_squared_between};

fn right_triangle() -> Triangle {
    let p1 = Point::new(0, 0);
    let p2 = Point::new(4, 0);
    let p3 = Point::new(0, 5);

    let e1 = Edge::new(p1, p2);
    let e2 = Edge::new(p2, p3);
    let e3 = Edge::new(p3, p1);

    Triangle::new([p1, p2, p3], [e1, e2, e3])
}

// The scaled squared distance from the stored circumcenter to `p`: the
// squared distance times `den * den`.
fn scaled_sq_dist(t: &Triangle, p: Point) -> i128 {
    let dx = t.circumcenter.x_num - (p.x as i128) * t.circumcenter.den;
    let dy = t.circumcenter.y_num - (p.y as i128) * t.circumcenter.den;
    dx * dx + dy * dy
}

#[test]
fn test_distance_between() {
    let p1 = Point::new(0, 0);
    let p2 = Point::new(3, 4);

    assert_eq!(distance_squared_between(&p1, &p2), 25);
    assert_eq!(distance_between(&p1, &p2), 5);
}

#[test]
fn test_distance_rounds_down() {
    let p1 = Point::new(0, 0);
    let p2 = Point::new(1, 1);

    assert_eq!(distance_squared_between(&p1, &p2), 2);
    assert_eq!(distance_between(&p1, &p2), 1);
}

#[test]
fn geometry_test_circumcircle() {
    let triangle = right_triangle();

    // circumcenter == (2, 2.5), held exactly as rationals over `den`.
    let den = triangle.circumcenter.den;
    assert_ne!(den, 0);
    assert_eq!(triangle.circumcenter.x_num, 2 * den);
    assert_eq!(2 * triangle.circumcenter.y_num, 5 * den);

    // circumradius^2 == dist(circumcenter, (0, 0))^2 == 41 / 4.
    assert_eq!(
        triangle.circumradius_sq_num,
        scaled_sq_dist(&triangle, Point::new(0, 0))
    );
    assert_eq!(4 * triangle.circumradius_sq_num, 41 * den * den);
}

#[test]
fn geometry_test_circumcircle_contains() {
    let triangle = right_triangle();

    assert!(triangle.circumcircle_contains(&Point::new(1, 1)));
    assert!(!triangle.circumcircle_contains(&Point::new(-1, -1)));
}

#[test]
fn graph_test_circumcircle() {
    let triangle = right_triangle();

    let den = triangle.circumcenter.den;
    assert_eq!(triangle.circumcenter.x_num, 2 * den);
    assert_eq!(2 * triangle.circumcenter.y_num, 5 * den);
}

#[test]
fn graph_test_circumcircle_contains() {
    let triangle = right_triangle();

    assert!(triangle.circumcircle_contains(&Point::new(1, 1)));
    assert!(!triangle.circumcircle_contains(&Point::new(-1, -1)));
}

#[test]
fn test_circumcenter_equidistant_from_vertices() {
    let triangle = right_triangle();

    let d0 = scaled_sq_dist(&triangle, triangle.vertices[0]);
    let d1 = scaled_sq_dist(&triangle, triangle.vertices[1]);
    let d2 = scaled_sq_dist(&triangle, triangle.vertices[2]);
    assert_eq!(d0, d1);
    assert_eq!(d1, d2);
    assert_eq!(d0, triangle.circumradius_sq_num);
}

#[test]
fn test_boundary_point_not_contained() {
    let triangle = right_triangle();

    // (4, 5) is at distance exactly the circumradius from the circumcenter:
    // (4 - 2)^2 + (5 - 5/2)^2 == 4 + 25/4 == 41/4.  Strictly outside.
    let boundary = Point::new(4, 5);
    assert_eq!(scaled_sq_dist(&triangle, boundary), triangle.circumradius_sq_num);
    assert!(!triangle.circumcircle_contains(&boundary));
}

#[test]
fn test_containment_monotonic_in_distance() {
    let triangle = right_triangle();

    // (2, 2) is nearer the circumcenter than (1, 1); since (1, 1) is
    // contained, the nearer point must be as well.
    let near = Point::new(2, 2);
    let far = Point::new(1, 1);
    assert!(scaled_sq_dist(&triangle, near) <= scaled_sq_dist(&triangle, far));
    assert!(triangle.circumcircle_contains(&far));
    assert!(triangle.circumcircle_contains(&near));
}

#[test]
fn test_construction_deterministic() {
    let first = right_triangle();
    let second = right_triangle();

    assert_eq!(first.circumcenter, second.circumcenter);
    assert_eq!(first.circumradius_sq_num, second.circumradius_sq_num);
    assert_eq!(first.vertices, second.vertices);
    assert_eq!(first.edges, second.edges);
}

#[test]
fn test_point_and_edge_construction() {
    let p = Point::new(-7, 11);
    assert_eq!(p.x, -7);
    assert_eq!(p.y, 11);

    let q = Point::new(-7, 11);
    assert_eq!(p, q);

    let e = Edge::new(p, q);
    assert_eq!(e.v1, p);
    assert_eq!(e.v2, q);
}
