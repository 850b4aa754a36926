//! Two spheres: how they lie to each other, and what they share.

use vstd::prelude::*;
use crate::geometry::approx::FloatOrdering;

verus! {

/// How two spheres lie to each other.
#[derive(Debug, Clone, Copy, PartialEq, Eq, Structural)]
pub enum SphereSphereRelationship {
    /// The centres are further apart than the radii reach together.
    TooFarAway,
    /// Same centre, same radius.
    Overlaps,
    /// One lies inside the other and does not touch it.
    InsideOutOfReach,
    /// One lies inside the other and touches it in one point.
    InsideCut,
    /// They touch from outside in one point.
    OutsideCut,
    /// They cross in a circle.
    Intersect,
}

/// What two spheres share.
#[derive(Debug, Clone, Copy, PartialEq)]
pub enum SphereSphereResult<P, C, S> {
    Empty,
    Point(P),
    Circle(C),
    Overlap(S),
}

impl SphereSphereRelationship {
    /// The relationship of two spheres with centres at squared distance `D`,
    /// squared sum of radii `U` and squared difference of radii `V`, from
    /// `gap_to_sum` (`D` against `U`), `gap_to_diff` (`D` against `V`) and
    /// `diff_to_zero` (`V` against zero). The three numbers are the same
    /// whichever sphere is taken first, and so is the relationship.
    pub open spec fn relation(
        gap_to_sum: FloatOrdering,
        gap_to_diff: FloatOrdering,
        diff_to_zero: FloatOrdering,
    ) -> SphereSphereRelationship {
        match gap_to_sum {
            FloatOrdering::Greater => SphereSphereRelationship::TooFarAway,
            FloatOrdering::Equal => SphereSphereRelationship::OutsideCut,
            FloatOrdering::Less => match gap_to_diff {
                FloatOrdering::Less => SphereSphereRelationship::InsideOutOfReach,
                FloatOrdering::Greater => SphereSphereRelationship::Intersect,
                FloatOrdering::Equal => if diff_to_zero == FloatOrdering::Equal {
                    SphereSphereRelationship::Overlaps
                } else {
                    SphereSphereRelationship::InsideCut
                },
            },
        }
    }

    /// Determines the relationship from the three comparisons.
    pub fn determine(
        gap_to_sum: FloatOrdering,
        gap_to_diff: FloatOrdering,
        diff_to_zero: FloatOrdering,
    ) -> (r: SphereSphereRelationship)
        ensures
            r == Self::relation(gap_to_sum, gap_to_diff, diff_to_zero),
    {
        match gap_to_sum {
            FloatOrdering::Greater => SphereSphereRelationship::TooFarAway,
            FloatOrdering::Equal => SphereSphereRelationship::OutsideCut,
            FloatOrdering::Less => match gap_to_diff {
                FloatOrdering::Less => SphereSphereRelationship::InsideOutOfReach,
                FloatOrdering::Greater => SphereSphereRelationship::Intersect,
                FloatOrdering::Equal => match diff_to_zero {
                    FloatOrdering::Equal => SphereSphereRelationship::Overlaps,
                    _ => SphereSphereRelationship::InsideCut,
                },
            },
        }
    }
}

} // verus!
