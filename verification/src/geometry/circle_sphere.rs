//! A circle against a sphere.

use vstd::prelude::*;
use crate::geometry::approx::FloatOrdering;
use crate::geometry::circle_circle::CircleCircleIntersection;

verus! {

/// What a circle shares with a sphere.
#[derive(Debug, Clone, Copy, PartialEq)]
pub enum CircleSphereIntersection<P, C> {
    Invalid,
    Zero,
    /// The circle lies inside the sphere.
    InsideSphere,
    /// The cut of the sphere lies inside the circle.
    SphereInCircle,
    Single(P),
    Double(P, P),
    Circle(C),
}

/// How the plane of a circle meets a sphere.
#[derive(Debug, Clone, Copy, PartialEq, Eq, Structural)]
pub enum PlaneCut {
    /// The plane passes the sphere by.
    Misses,
    /// The plane touches the sphere in one point.
    Grazes,
    /// The plane cuts the sphere in a circle.
    Slices,
}

impl PlaneCut {
    /// How the plane meets the sphere, by the comparison of the distance of
    /// the sphere's centre from the plane with the sphere's radius.
    pub open spec fn cut(depth: FloatOrdering) -> PlaneCut {
        match depth {
            FloatOrdering::Greater => PlaneCut::Misses,
            FloatOrdering::Equal => PlaneCut::Grazes,
            FloatOrdering::Less => PlaneCut::Slices,
        }
    }

    /// Tells how the plane meets the sphere from `depth`, the comparison of
    /// the distance of the sphere's centre from the plane with the radius.
    pub fn from_ordering(depth: FloatOrdering) -> (r: PlaneCut)
        ensures
            r == Self::cut(depth),
    {
        match depth {
            FloatOrdering::Greater => PlaneCut::Misses,
            FloatOrdering::Equal => PlaneCut::Grazes,
            FloatOrdering::Less => PlaneCut::Slices,
        }
    }
}

impl<P, C> CircleSphereIntersection<P, C> {
    /// What the circle shares with a sphere that its plane touches in
    /// `touch`, by `reach`, the comparison of the distance of `touch` from the
    /// circle's centre with the circle's radius.
    pub open spec fn grazed(reach: FloatOrdering, touch: P) -> Self {
        match reach {
            FloatOrdering::Less => CircleSphereIntersection::SphereInCircle,
            FloatOrdering::Equal => CircleSphereIntersection::Single(touch),
            FloatOrdering::Greater => CircleSphereIntersection::Zero,
        }
    }

    /// What the circle shares with a sphere that its plane cuts, from what it
    /// shares with the circle of the cut. `circle_is_inner` tells, where one
    /// of the two lies inside the other, whether the inner one is the circle
    /// itself.
    pub open spec fn sliced(cut: CircleCircleIntersection<P, C>, circle_is_inner: bool) -> Self {
        match cut {
            CircleCircleIntersection::Empty => CircleSphereIntersection::Zero,
            CircleCircleIntersection::Single(p) => CircleSphereIntersection::Single(p),
            CircleCircleIntersection::Double(pa, pb) => CircleSphereIntersection::Double(pa, pb),
            CircleCircleIntersection::Overlap(c) => CircleSphereIntersection::Circle(c),
            CircleCircleIntersection::Contains(_, _) => if circle_is_inner {
                CircleSphereIntersection::InsideSphere
            } else {
                CircleSphereIntersection::SphereInCircle
            },
        }
    }

    /// The plane of the circle touches the sphere in `touch`: the circle
    /// passes through that point, or round it, or by it.
    pub fn grazing(reach: FloatOrdering, touch: P) -> (r: Self)
        ensures
            r == Self::grazed(reach, touch),
    {
        match reach {
            FloatOrdering::Less => CircleSphereIntersection::SphereInCircle,
            FloatOrdering::Equal => CircleSphereIntersection::Single(touch),
            FloatOrdering::Greater => CircleSphereIntersection::Zero,
        }
    }

    /// The plane of the circle cuts the sphere in a circle: what the two
    /// circles share is what the circle shares with the sphere.
    pub fn from_coplanar(cut: CircleCircleIntersection<P, C>, circle_is_inner: bool) -> (r: Self)
        ensures
            r == Self::sliced(cut, circle_is_inner),
    {
        match cut {
            CircleCircleIntersection::Empty => CircleSphereIntersection::Zero,
            CircleCircleIntersection::Single(p) => CircleSphereIntersection::Single(p),
            CircleCircleIntersection::Double(pa, pb) => CircleSphereIntersection::Double(pa, pb),
            CircleCircleIntersection::Overlap(c) => CircleSphereIntersection::Circle(c),
            CircleCircleIntersection::Contains(_, _) => {
                if circle_is_inner {
                    CircleSphereIntersection::InsideSphere
                } else {
                    CircleSphereIntersection::SphereInCircle
                }
            },
        }
    }
}

} // verus!
