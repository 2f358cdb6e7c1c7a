use delaunay_core::delaunay::enclosing_triangle;
use delaunay_core::geometry::Point;

#[test]
fn test_enclosing_triangle() {
    let points = vec![Point::new(0, 0), Point::new(1, 1)];

    let vertices = [Point::new(-1, -1), Point::new(8, -1), Point::new(-1, 8)];

    let triangle = enclosing_triangle(&points);
    assert_eq!(triangle.vertices, vertices);
}

#[test]
fn test_enclosing_triangle_edges_connect_vertices() {
    let points = vec![Point::new(0, 0), Point::new(1, 1)];

    let triangle = enclosing_triangle(&points);
    assert_eq!(triangle.edges[0].v1, triangle.vertices[0]);
    assert_eq!(triangle.edges[0].v2, triangle.vertices[1]);
    assert_eq!(triangle.edges[1].v1, triangle.vertices[1]);
    assert_eq!(triangle.edges[1].v2, triangle.vertices[2]);
    assert_eq!(triangle.edges[2].v1, triangle.vertices[2]);
    assert_eq!(triangle.edges[2].v2, triangle.vertices[0]);
}

#[test]
fn test_enclosing_triangle_single_point() {
    // A single point still yields a non-degenerate triangle: the padding
    // alone gives the bounding box positive extent.
    let points = vec![Point::new(5, 5)];

    let triangle = enclosing_triangle(&points);
    assert_eq!(triangle.vertices[0], Point::new(4, 4));
    assert_eq!(triangle.vertices[1], Point::new(10, 4));
    assert_eq!(triangle.vertices[2], Point::new(4, 10));

    for p in &points {
        assert!(triangle.vertices[0].x < p.x && p.x < triangle.vertices[1].x);
        assert!(triangle.vertices[0].y < p.y && p.y < triangle.vertices[2].y);
    }
}

#[test]
fn test_enclosing_triangle_strictly_contains_extremes() {
    let points = vec![
        Point::new(-100_000, -100_000),
        Point::new(100_000, 100_000),
        Point::new(-100_000, 100_000),
        Point::new(0, 3),
    ];

    let triangle = enclosing_triangle(&points);
    for p in &points {
        assert!(triangle.vertices[0].x < p.x && p.x < triangle.vertices[1].x);
        assert!(triangle.vertices[0].y < p.y && p.y < triangle.vertices[2].y);
    }
}
