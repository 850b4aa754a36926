//! The stages of the search.

pub mod circle_check;
pub mod search;
pub mod search_report;
pub mod sphere_check;
pub mod sweep;

pub use circle_check::CircleCheckResult;
pub use search_report::SearchReports;
pub use sphere_check::SphereCheckResult;
pub use sweep::SweepDirection;
