//! Bookkeeping core of a coordination-site search in a crystal.
//!
//! A search places spheres of one radius, the bond length, on the atoms of a
//! point cloud and looks for the places where one, two or more of them meet
//! with no atom closer than the bond length. This crate holds the part of that
//! search that is exact: the case analysis of the intersections, the identity
//! of the sites (sorted lists of atom indices), their merging and validation,
//! and the staging of the search.
//!
//! The crate is generic over the carriers of the geometry (`P` for a point,
//! `C` for a circle, `S` for a sphere, `L` for a line) and computes nothing
//! with coordinates. Every numeric comparison reaches it as a tolerant
//! ordering, [`FloatOrdering`] or [`FloatEq`], that the caller has taken.

pub mod algorithm;
pub mod error;
pub mod format_identify;
pub mod coordination_sites;
pub mod geometry;

pub use algorithm::circle_check::check_circles;
pub use algorithm::search::{
    brute_force_search_single, search_possible_double_points, search_possible_single_points,
    search_single_point, search_sites, search_special_sites,
};
pub use algorithm::search_report::validate_site;
pub use algorithm::sphere_check::{fresh_pairs, sphere_check, sphere_neighbour_check};
pub use algorithm::sweep::{first_with_room, sweep_direction};
pub use algorithm::{CircleCheckResult, SearchReports, SphereCheckResult, SweepDirection};
pub use coordination_sites::{
    CoordCircle, CoordResult, CoordSite, CoordSphere, DelegatePoint, Marker, MultiCoordPoint,
    SiteView, Visualize,
};
pub use error::{FormatError, RunError};
pub use format_identify::{format_of_extension, match_format, AcceptFormat};
pub use geometry::circle_circle::{cmp_radius_circle, noncoplanar_circle_circle_intersect};
pub use geometry::{
    CircleCircleIntersection, CircleCircleRelationship, CircleCoplanarLine,
    CircleLineIntersection, CircleSphereIntersection, Contact, CoplanarCase, FloatEq,
    FloatOrdering, Intersect, PlaneCut, PlanePlaneIntersection, PointToSphere,
    SphereSphereRelationship, SphereSphereResult,
};
