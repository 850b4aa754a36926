//! A point against a sphere.

use vstd::prelude::*;
use crate::geometry::approx::FloatOrdering;

verus! {

/// Where a point lies with respect to a sphere.
#[derive(Debug, Clone, Copy, PartialEq, Eq, Structural)]
pub enum PointToSphere {
    Inside,
    Outside,
    OnSurface,
}

impl PointToSphere {
    /// Where the point lies, by the comparison of its distance from the
    /// centre with the radius.
    pub open spec fn place(reach: FloatOrdering) -> PointToSphere {
        match reach {
            FloatOrdering::Less => PointToSphere::Inside,
            FloatOrdering::Equal => PointToSphere::OnSurface,
            FloatOrdering::Greater => PointToSphere::Outside,
        }
    }

    /// Places the point from `reach`, the comparison of its squared distance
    /// from the centre with the squared radius.
    pub fn from_ordering(reach: FloatOrdering) -> (r: PointToSphere)
        ensures
            r == Self::place(reach),
    {
        match reach {
            FloatOrdering::Less => PointToSphere::Inside,
            FloatOrdering::Equal => PointToSphere::OnSurface,
            FloatOrdering::Greater => PointToSphere::Outside,
        }
    }
}

} // verus!
