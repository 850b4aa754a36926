//! Two circles in space: in one plane, in parallel planes, or in planes that
//! cross in a line.

use vstd::prelude::*;
use crate::geometry::approx::{FloatEq, FloatOrdering};
use crate::geometry::plane_plane::PlanePlaneIntersection;

verus! {

/// How the planes of two circles lie to each other.
#[derive(Debug, Clone, Copy, PartialEq)]
pub enum CircleCircleRelationship<L> {
    Coplanar,
    ParallelPlane,
    PlaneIntersect(L),
}

/// What two circles share. `Contains` holds the inner circle, then the outer.
#[derive(Debug, Clone, Copy, PartialEq)]
pub enum CircleCircleIntersection<P, C> {
    Empty,
    Single(P),
    Double(P, P),
    Overlap(C),
    Contains(C, C),
}

/// A line that lies in the plane of the circle it is to meet.
#[derive(Debug, Clone, Copy, PartialEq)]
pub struct CircleCoplanarLine<L>(pub L);

/// What a circle shares with a line in its plane.
#[derive(Debug, Clone, Copy, PartialEq)]
pub enum CircleLineIntersection<P> {
    Empty,
    Single(P),
    Double(P, P),
}

/// How two circles of one plane lie to each other.
#[derive(Debug, Clone, Copy, PartialEq, Eq, Structural)]
pub enum CoplanarCase {
    /// Same centre, same radius: one circle.
    Overlap,
    /// Same centre, the first circle is the smaller one.
    FirstInSecond,
    /// Same centre, the second circle is the smaller one.
    SecondInFirst,
    /// The circles touch from outside.
    TouchOutside,
    /// The centres are further apart than the radii reach together.
    Apart,
    /// One circle lies inside the other and does not touch it.
    Nested,
    /// One circle touches the other from inside; the first is the larger one,
    /// or they are equal.
    TouchInsideFirst,
    /// One circle touches the other from inside; the second is the larger one.
    TouchInsideSecond,
    /// The circles cross in two points.
    Cross,
}

/// How many points two circles share, or that they share more than points.
#[derive(Debug, Clone, Copy, PartialEq, Eq, Structural)]
pub enum Contact {
    Nothing,
    OnePoint,
    TwoPoints,
    Whole,
    Inside,
}

impl<L> CircleCircleRelationship<L> {
    /// The relationship of two circles, from what their planes share.
    pub fn determine(planes: PlanePlaneIntersection<L>) -> (r: Self)
        ensures
            r == match planes {
                PlanePlaneIntersection::Same => CircleCircleRelationship::Coplanar,
                PlanePlaneIntersection::Parallel => CircleCircleRelationship::ParallelPlane,
                PlanePlaneIntersection::Intersect(line) => CircleCircleRelationship::PlaneIntersect(
                    line,
                ),
            },
    {
        match planes {
            PlanePlaneIntersection::Same => CircleCircleRelationship::Coplanar,
            PlanePlaneIntersection::Parallel => CircleCircleRelationship::ParallelPlane,
            PlanePlaneIntersection::Intersect(line) => CircleCircleRelationship::PlaneIntersect(
                line,
            ),
        }
    }
}

impl<P, C> CircleCircleIntersection<P, C> {
    /// How much the two circles share.
    pub open spec fn contact(self) -> Contact {
        match self {
            CircleCircleIntersection::Empty => Contact::Nothing,
            CircleCircleIntersection::Single(_) => Contact::OnePoint,
            CircleCircleIntersection::Double(_, _) => Contact::TwoPoints,
            CircleCircleIntersection::Overlap(_) => Contact::Whole,
            CircleCircleIntersection::Contains(_, _) => Contact::Inside,
        }
    }
}

impl CoplanarCase {
    /// The case of two circles of one plane, with centres at squared distance
    /// `D`, radii `r1` and `r2`, from `gap_to_zero` (`D` against zero),
    /// `radii` (`r1` against `r2`), `gap_to_sum` (`D` against the square of
    /// `r1 + r2`) and `gap_to_diff` (`D` against the square of `r1 - r2`).
    pub open spec fn case(
        gap_to_zero: FloatOrdering,
        radii: FloatOrdering,
        gap_to_sum: FloatOrdering,
        gap_to_diff: FloatOrdering,
    ) -> CoplanarCase {
        if gap_to_zero == FloatOrdering::Equal {
            match radii {
                FloatOrdering::Equal => CoplanarCase::Overlap,
                FloatOrdering::Less => CoplanarCase::FirstInSecond,
                FloatOrdering::Greater => CoplanarCase::SecondInFirst,
            }
        } else {
            match gap_to_sum {
                FloatOrdering::Equal => CoplanarCase::TouchOutside,
                FloatOrdering::Greater => CoplanarCase::Apart,
                FloatOrdering::Less => match gap_to_diff {
                    FloatOrdering::Less => CoplanarCase::Nested,
                    FloatOrdering::Greater => CoplanarCase::Cross,
                    FloatOrdering::Equal => if radii == FloatOrdering::Less {
                        CoplanarCase::TouchInsideSecond
                    } else {
                        CoplanarCase::TouchInsideFirst
                    },
                },
            }
        }
    }

    /// The same case with the two circles in the other order.
    pub open spec fn swapped(self) -> CoplanarCase {
        match self {
            CoplanarCase::FirstInSecond => CoplanarCase::SecondInFirst,
            CoplanarCase::SecondInFirst => CoplanarCase::FirstInSecond,
            CoplanarCase::TouchInsideFirst => CoplanarCase::TouchInsideSecond,
            CoplanarCase::TouchInsideSecond => CoplanarCase::TouchInsideFirst,
            other => other,
        }
    }

    /// How much the two circles share in this case.
    pub open spec fn contact(self) -> Contact {
        match self {
            CoplanarCase::Overlap => Contact::Whole,
            CoplanarCase::FirstInSecond | CoplanarCase::SecondInFirst => Contact::Inside,
            CoplanarCase::TouchOutside | CoplanarCase::TouchInsideFirst
            | CoplanarCase::TouchInsideSecond => Contact::OnePoint,
            CoplanarCase::Apart | CoplanarCase::Nested => Contact::Nothing,
            CoplanarCase::Cross => Contact::TwoPoints,
        }
    }

    /// Determines the case from the four comparisons.
    pub fn determine(
        gap_to_zero: FloatOrdering,
        radii: FloatOrdering,
        gap_to_sum: FloatOrdering,
        gap_to_diff: FloatOrdering,
    ) -> (r: CoplanarCase)
        ensures
            r == Self::case(gap_to_zero, radii, gap_to_sum, gap_to_diff),
    {
        match gap_to_zero {
            FloatOrdering::Equal => match radii {
                FloatOrdering::Equal => CoplanarCase::Overlap,
                FloatOrdering::Less => CoplanarCase::FirstInSecond,
                FloatOrdering::Greater => CoplanarCase::SecondInFirst,
            },
            _ => match gap_to_sum {
                FloatOrdering::Equal => CoplanarCase::TouchOutside,
                FloatOrdering::Greater => CoplanarCase::Apart,
                FloatOrdering::Less => match gap_to_diff {
                    FloatOrdering::Less => CoplanarCase::Nested,
                    FloatOrdering::Greater => CoplanarCase::Cross,
                    FloatOrdering::Equal => match radii {
                        FloatOrdering::Less => CoplanarCase::TouchInsideSecond,
                        _ => CoplanarCase::TouchInsideFirst,
                    },
                },
            },
        }
    }
}

/// The larger of two circles, then the smaller, by `radii`, the comparison of
/// the first radius with the second. Equal circles come out as they went in.
pub fn cmp_radius_circle<C: Copy>(c1: C, c2: C, radii: FloatOrdering) -> (r: (C, C))
    ensures
        radii == FloatOrdering::Less ==> r == (c2, c1),
        radii != FloatOrdering::Less ==> r == (c1, c2),
{
    match radii {
        FloatOrdering::Less => (c2, c1),
        _ => (c1, c2),
    }
}

/// What two circles in crossing planes share, from what each shares with the
/// line of the two planes. `same_ij` tells whether hit `i` of the first circle
/// and hit `j` of the second are one point; of an outcome with one hit only
/// hit 1 is asked for.
pub open spec fn noncoplanar_outcome<P, C>(
    first: CircleLineIntersection<P>,
    second: CircleLineIntersection<P>,
    same_11: FloatEq,
    same_12: FloatEq,
    same_21: FloatEq,
    same_22: FloatEq,
) -> CircleCircleIntersection<P, C> {
    match (first, second) {
        (CircleLineIntersection::Empty, _) => CircleCircleIntersection::Empty,
        (_, CircleLineIntersection::Empty) => CircleCircleIntersection::Empty,
        (CircleLineIntersection::Single(pa), CircleLineIntersection::Single(_)) => {
            if same_11 == FloatEq::Eq {
                CircleCircleIntersection::Single(pa)
            } else {
                CircleCircleIntersection::Empty
            }
        },
        (CircleLineIntersection::Single(pa), CircleLineIntersection::Double(_, _)) => {
            if same_11 == FloatEq::Eq || same_12 == FloatEq::Eq {
                CircleCircleIntersection::Single(pa)
            } else {
                CircleCircleIntersection::Empty
            }
        },
        (CircleLineIntersection::Double(_, _), CircleLineIntersection::Single(qa)) => {
            if same_11 == FloatEq::Eq || same_21 == FloatEq::Eq {
                CircleCircleIntersection::Single(qa)
            } else {
                CircleCircleIntersection::Empty
            }
        },
        (CircleLineIntersection::Double(pa, pb), CircleLineIntersection::Double(_, _)) => {
            if same_11 == FloatEq::Eq || same_22 == FloatEq::Eq {
                paired(pa, pb, same_11, same_22)
            } else {
                paired(pa, pb, same_12, same_21)
            }
        },
    }
}

/// Two hits of the first circle, each with the answer whether it is a hit of
/// the second one too: the hits that are.
pub open spec fn paired<P, C>(pa: P, pb: P, first: FloatEq, second: FloatEq) -> CircleCircleIntersection<
    P,
    C,
> {
    if first == FloatEq::Eq && second == FloatEq::Eq {
        CircleCircleIntersection::Double(pa, pb)
    } else if first == FloatEq::Eq {
        CircleCircleIntersection::Single(pa)
    } else if second == FloatEq::Eq {
        CircleCircleIntersection::Single(pb)
    } else {
        CircleCircleIntersection::Empty
    }
}

/// Pairs the hits of two circles on the line that their planes share.
pub fn noncoplanar_circle_circle_intersect<P: Copy, C>(
    first: CircleLineIntersection<P>,
    second: CircleLineIntersection<P>,
    same_11: FloatEq,
    same_12: FloatEq,
    same_21: FloatEq,
    same_22: FloatEq,
) -> (r: CircleCircleIntersection<P, C>)
    ensures
        r == noncoplanar_outcome::<P, C>(first, second, same_11, same_12, same_21, same_22),
{
    match (first, second) {
        (CircleLineIntersection::Empty, _) => CircleCircleIntersection::Empty,
        (_, CircleLineIntersection::Empty) => CircleCircleIntersection::Empty,
        (CircleLineIntersection::Single(pa), CircleLineIntersection::Single(_)) => {
            match same_11 {
                FloatEq::Eq => CircleCircleIntersection::Single(pa),
                FloatEq::NotEq => CircleCircleIntersection::Empty,
            }
        },
        (CircleLineIntersection::Single(pa), CircleLineIntersection::Double(_, _)) => {
            match (same_11, same_12) {
                (FloatEq::NotEq, FloatEq::NotEq) => CircleCircleIntersection::Empty,
                _ => CircleCircleIntersection::Single(pa),
            }
        },
        (CircleLineIntersection::Double(_, _), CircleLineIntersection::Single(qa)) => {
            match (same_11, same_21) {
                (FloatEq::NotEq, FloatEq::NotEq) => CircleCircleIntersection::Empty,
                _ => CircleCircleIntersection::Single(qa),
            }
        },
        (CircleLineIntersection::Double(pa, pb), CircleLineIntersection::Double(_, _)) => {
            match (same_11, same_22) {
                (FloatEq::NotEq, FloatEq::Eq) => CircleCircleIntersection::Single(pb),
                (FloatEq::Eq, FloatEq::NotEq) => CircleCircleIntersection::Single(pa),
                (FloatEq::Eq, FloatEq::Eq) => CircleCircleIntersection::Double(pa, pb),
                (FloatEq::NotEq, FloatEq::NotEq) => match (same_12, same_21) {
                    (FloatEq::NotEq, FloatEq::Eq) => CircleCircleIntersection::Single(pb),
                    (FloatEq::Eq, FloatEq::NotEq) => CircleCircleIntersection::Single(pa),
                    (FloatEq::Eq, FloatEq::Eq) => CircleCircleIntersection::Double(pa, pb),
                    (FloatEq::NotEq, FloatEq::NotEq) => CircleCircleIntersection::Empty,
                },
            }
        },
    }
}

/// The case of two circles of one plane does not depend on their order: with
/// the circles swapped, the comparison of the radii turns round, the other
/// three stay, and the case found is the same one seen from the other side
/// (the same one outright where the radii are equal). The circles share as
/// much either way.
pub proof fn lemma_coplanar_symmetric(
    gap_to_zero: FloatOrdering,
    radii: FloatOrdering,
    gap_to_sum: FloatOrdering,
    gap_to_diff: FloatOrdering,
)
    ensures
        radii != FloatOrdering::Equal ==> CoplanarCase::case(
            gap_to_zero,
            radii.reversed(),
            gap_to_sum,
            gap_to_diff,
        ) == CoplanarCase::case(gap_to_zero, radii, gap_to_sum, gap_to_diff).swapped(),
        radii == FloatOrdering::Equal ==> CoplanarCase::case(
            gap_to_zero,
            radii.reversed(),
            gap_to_sum,
            gap_to_diff,
        ) == CoplanarCase::case(gap_to_zero, radii, gap_to_sum, gap_to_diff),
        CoplanarCase::case(gap_to_zero, radii.reversed(), gap_to_sum, gap_to_diff).contact()
            == CoplanarCase::case(gap_to_zero, radii, gap_to_sum, gap_to_diff).contact(),
{
}

/// Two circles in crossing planes share as many points whichever of them is
/// taken first: with the circles swapped, and with them the answers on their
/// hits, the outcome has the same number of points.
pub proof fn lemma_noncoplanar_symmetric<P, C>(
    first: CircleLineIntersection<P>,
    second: CircleLineIntersection<P>,
    same_11: FloatEq,
    same_12: FloatEq,
    same_21: FloatEq,
    same_22: FloatEq,
)
    ensures
        noncoplanar_outcome::<P, C>(second, first, same_11, same_21, same_12, same_22).contact()
            == noncoplanar_outcome::<P, C>(
            first,
            second,
            same_11,
            same_12,
            same_21,
            same_22,
        ).contact(),
{
}

} // verus!
