//! The second stage: each circle against the spheres of its neighbours.

use vstd::prelude::*;
use crate::coordination_sites::coord_point::{sites_of, MultiCoordPoint, SiteView};
use crate::coordination_sites::coord_result::{extend_sites, CoordResult};

verus! {

/// What the second stage gives: the sites where a circle meets a third
/// sphere.
#[derive(Debug, Clone)]
pub struct CircleCheckResult<P> {
    pub points: Vec<MultiCoordPoint<P>>,
}

/// The sites of the first `upto` circles, circle after circle. A circle that
/// was ruled out, or that stands as it is, gives none.
pub open spec fn circle_sites<P, C, S>(outcomes: Seq<Option<CoordResult<P, C, S>>>, upto: nat) -> Seq<
    SiteView<P>,
>
    decreases upto,
{
    if upto == 0 {
        Seq::empty()
    } else {
        let rest = circle_sites(outcomes, (upto - 1) as nat);
        match outcomes[upto - 1] {
            Some(CoordResult::Points(v)) => rest + sites_of(v@),
            _ => rest,
        }
    }
}

impl<P: Copy> CircleCheckResult<P> {
    pub fn new(points: Vec<MultiCoordPoint<P>>) -> (r: Self)
        ensures
            r.points == points,
    {
        CircleCheckResult { points }
    }

    pub fn points(&self) -> (r: &[MultiCoordPoint<P>])
        ensures
            r@ == self.points@,
    {
        self.points.as_slice()
    }
}

/// Puts the sites of all the circles together. `outcomes[k]` is what the
/// cuts of circle `k` with the spheres of its neighbours came to.
pub fn check_circles<P: Copy, C: Copy, S: Copy>(outcomes: &Vec<Option<CoordResult<P, C, S>>>) -> (r:
    CircleCheckResult<P>)
    ensures
        sites_of(r.points@) == circle_sites(outcomes@, outcomes@.len()),
{
    let mut points: Vec<MultiCoordPoint<P>> = Vec::new();
    let mut i: usize = 0;
    assert(sites_of(points@) =~= circle_sites(outcomes@, 0));
    while i < outcomes.len()
        invariant
            i <= outcomes.len(),
            sites_of(points@) == circle_sites(outcomes@, i as nat),
        decreases outcomes.len() - i,
    {
        match &outcomes[i] {
            Some(CoordResult::Points(more)) => {
                extend_sites(&mut points, more);
            },
            _ => {},
        }
        i = i + 1;
    }
    CircleCheckResult { points }
}

} // verus!
