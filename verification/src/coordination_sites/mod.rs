//! The records of a search: sites with the atoms that anchor them.

pub mod atom_ids;
pub mod coord_circle;
pub mod coord_point;
pub mod coord_result;
pub mod coord_site;
pub mod coord_sphere;
pub mod visualize;

pub use coord_circle::CoordCircle;
pub use coord_point::{DelegatePoint, MultiCoordPoint, SiteView};
pub use coord_result::CoordResult;
pub use coord_site::CoordSite;
pub use coord_sphere::CoordSphere;
pub use visualize::{Marker, Visualize};
