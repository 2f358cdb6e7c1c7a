//! Exact-arithmetic geometric kernel for planar Delaunay triangulation.
//!
//! The crate provides the primitive value types (point, edge, triangle),
//! the exact circumcenter/circumradius derivation for a triangle, the
//! strict circumcircle-containment predicate, and the construction of a
//! bounding "super-triangle" that strictly encloses an arbitrary non-empty
//! point set — the bootstrap step of incremental (Bowyer–Watson style)
//! triangulation.
//!
//! Coordinates are integers and every derived quantity is kept as an exact
//! rational, so all predicates are decided exactly: a point strictly inside
//! the circumcircle is reported inside, a point exactly on the boundary is
//! reported outside, with no rounding involved.

pub mod delaunay;
pub mod geometry;
pub mod util;
