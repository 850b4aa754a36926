//! Tolerant orderings and the case analysis of the intersections.

pub mod approx;
pub mod circle_circle;
pub mod circle_point;
pub mod circle_sphere;
pub mod plane_plane;
pub mod sphere_sphere;

pub use approx::{FloatEq, FloatOrdering, Intersect};
pub use circle_circle::{
    CircleCircleIntersection, CircleCircleRelationship, CircleCoplanarLine,
    CircleLineIntersection, Contact, CoplanarCase,
};
pub use circle_point::PointToSphere;
pub use circle_sphere::{CircleSphereIntersection, PlaneCut};
pub use plane_plane::PlanePlaneIntersection;
pub use sphere_sphere::{SphereSphereRelationship, SphereSphereResult};
