//! Two planes: the same one, parallel ones, or a line in common.

use vstd::prelude::*;
use crate::geometry::approx::FloatOrdering;

verus! {

/// What two planes share.
#[derive(Debug, Clone, Copy, PartialEq)]
pub enum PlanePlaneIntersection<L> {
    Same,
    Parallel,
    Intersect(L),
}

impl<L> PlanePlaneIntersection<L> {
    /// Two planes whose normals are parallel, from `offsets`, the comparison
    /// of their offsets: one plane where the offsets are equal, two parallel
    /// ones where they are not.
    pub fn of_parallel(offsets: FloatOrdering) -> (r: Self)
        ensures
            offsets == FloatOrdering::Equal ==> r == PlanePlaneIntersection::<L>::Same,
            offsets != FloatOrdering::Equal ==> r == PlanePlaneIntersection::<L>::Parallel,
    {
        match offsets {
            FloatOrdering::Equal => PlanePlaneIntersection::Same,
            _ => PlanePlaneIntersection::Parallel,
        }
    }
}

} // verus!
