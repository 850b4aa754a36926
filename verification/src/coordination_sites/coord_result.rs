//! The outcome of one step of the search, as one tagged value.

use vstd::prelude::*;
use crate::coordination_sites::coord_circle::CoordCircle;
use crate::coordination_sites::coord_point::{sites_of, MultiCoordPoint, SiteView};
use crate::coordination_sites::coord_sphere::CoordSphere;

verus! {

/// What a step of the search found.
#[derive(Debug, PartialEq)]
pub enum CoordResult<P, C, S> {
    /// The locus is cut below the bond length somewhere: it gives no site.
    Invalid,
    Empty,
    Sphere(CoordSphere<S>),
    Circle(CoordCircle<C>),
    SinglePoint(MultiCoordPoint<P>),
    Points(Vec<MultiCoordPoint<P>>),
    Various(Vec<CoordResult<P, C, S>>),
}

/// The sites of the outcomes that are a single point, in order.
pub open spec fn single_sites<P, C, S>(results: Seq<CoordResult<P, C, S>>) -> Seq<SiteView<P>>
    decreases results.len(),
{
    if results.len() == 0 {
        Seq::empty()
    } else {
        let rest = single_sites(results.drop_last());
        match results.last() {
            CoordResult::SinglePoint(p) => rest.push(p@),
            _ => rest,
        }
    }
}

/// The sites of the outcomes that are a list of points, list after list.
pub open spec fn listed_sites<P, C, S>(results: Seq<CoordResult<P, C, S>>) -> Seq<SiteView<P>>
    decreases results.len(),
{
    if results.len() == 0 {
        Seq::empty()
    } else {
        let rest = listed_sites(results.drop_last());
        match results.last() {
            CoordResult::Points(v) => rest + sites_of(v@),
            _ => rest,
        }
    }
}

/// The circles among the outcomes, in order.
pub open spec fn circles_of<P, C, S>(results: Seq<CoordResult<P, C, S>>) -> Seq<CoordCircle<C>>
    decreases results.len(),
{
    if results.len() == 0 {
        Seq::empty()
    } else {
        let rest = circles_of(results.drop_last());
        match results.last() {
            CoordResult::Circle(c) => rest.push(c),
            _ => rest,
        }
    }
}

/// One of the outcomes is `Invalid`.
pub open spec fn has_invalid<P, C, S>(results: Seq<CoordResult<P, C, S>>) -> bool {
    exists|i: int| 0 <= i < results.len() && results[i] is Invalid
}

/// Every outcome is `Empty`.
pub open spec fn all_empty<P, C, S>(results: Seq<CoordResult<P, C, S>>) -> bool {
    forall|i: int| 0 <= i < results.len() ==> results[i] is Empty
}

/// Appends to `out` a second record of every point of `more`.
pub fn extend_sites<P: Copy>(out: &mut Vec<MultiCoordPoint<P>>, more: &Vec<MultiCoordPoint<P>>)
    ensures
        sites_of(final(out)@) == sites_of(old(out)@) + sites_of(more@),
{
    let ghost before = sites_of(out@);
    let mut i: usize = 0;
    while i < more.len()
        invariant
            i <= more.len(),
            sites_of(out@) == before + sites_of(more@.take(i as int)),
        decreases more.len() - i,
    {
        let ghost so_far = sites_of(out@);
        let copy = more[i].duplicate();
        out.push(copy);
        assert(sites_of(out@) =~= so_far.push(copy@));
        assert(sites_of(more@.take(i + 1)) =~= sites_of(more@.take(i as int)).push(copy@));
        assert(sites_of(out@) =~= before + sites_of(more@.take(i + 1)));
        i = i + 1;
    }
    assert(more@.take(more.len() as int) =~= more@);
}

impl<P: Copy, C: Copy, S: Copy> CoordResult<P, C, S> {
    /// The site of a single point.
    pub open spec fn site(&self) -> Option<SiteView<P>> {
        match self {
            CoordResult::SinglePoint(p) => Some(p@),
            _ => None,
        }
    }

    /// The sites of a list of points.
    pub open spec fn sites(&self) -> Option<Seq<SiteView<P>>> {
        match self {
            CoordResult::Points(v) => Some(sites_of(v@)),
            _ => None,
        }
    }

    pub fn try_into_sphere(&self) -> (r: Result<CoordSphere<S>, &Self>)
        ensures
            r == match *self {
                CoordResult::Sphere(v) => Ok::<CoordSphere<S>, &Self>(v),
                _ => Err::<CoordSphere<S>, &Self>(self),
            },
    {
        match self {
            CoordResult::Sphere(v) => Ok(*v),
            _ => Err(self),
        }
    }

    pub fn try_into_circle(self) -> (r: Result<CoordCircle<C>, Self>)
        ensures
            r == match self {
                CoordResult::Circle(v) => Ok::<CoordCircle<C>, Self>(v),
                other => Err::<CoordCircle<C>, Self>(other),
            },
    {
        match self {
            CoordResult::Circle(v) => Ok(v),
            other => Err(other),
        }
    }

    pub fn try_into_single_point(self) -> (r: Result<MultiCoordPoint<P>, Self>)
        ensures
            r == match self {
                CoordResult::SinglePoint(v) => Ok::<MultiCoordPoint<P>, Self>(v),
                other => Err::<MultiCoordPoint<P>, Self>(other),
            },
    {
        match self {
            CoordResult::SinglePoint(v) => Ok(v),
            other => Err(other),
        }
    }

    pub fn try_into_points(self) -> (r: Result<Vec<MultiCoordPoint<P>>, Self>)
        ensures
            r == match self {
                CoordResult::Points(v) => Ok::<Vec<MultiCoordPoint<P>>, Self>(v),
                other => Err::<Vec<MultiCoordPoint<P>>, Self>(other),
            },
    {
        match self {
            CoordResult::Points(v) => Ok(v),
            other => Err(other),
        }
    }

    /// From a `Various`, the single points among its outcomes.
    pub fn try_pull_single_points_from_various(&self) -> (r: Result<
        Vec<MultiCoordPoint<P>>,
        &Self,
    >)
        ensures
            match *self {
                CoordResult::Various(v) => r is Ok && sites_of(r->Ok_0@) == single_sites(v@),
                _ => r == Err::<Vec<MultiCoordPoint<P>>, &Self>(self),
            },
    {
        match self {
            CoordResult::Various(v) => {
                let mut out: Vec<MultiCoordPoint<P>> = Vec::new();
                let mut i: usize = 0;
                assert(v@.take(0) =~= Seq::empty());
                assert(sites_of(out@) =~= single_sites(v@.take(0)));
                while i < v.len()
                    invariant
                        i <= v.len(),
                        sites_of(out@) == single_sites(v@.take(i as int)),
                    decreases v.len() - i,
                {
                    let ghost before = sites_of(out@);
                    assert(v@.take(i + 1).drop_last() =~= v@.take(i as int));
                    match &v[i] {
                        CoordResult::SinglePoint(p) => {
                            let copy = p.duplicate();
                            out.push(copy);
                            assert(sites_of(out@) =~= before.push(copy@));
                        },
                        _ => {},
                    }
                    i = i + 1;
                }
                assert(v@.take(v.len() as int) =~= v@);
                Ok(out)
            },
            _ => Err(self),
        }
    }

    /// From a `Various`, the points of the lists among its outcomes.
    pub fn try_pull_points_from_various(&self) -> (r: Result<Vec<MultiCoordPoint<P>>, &Self>)
        ensures
            match *self {
                CoordResult::Various(v) => r is Ok && sites_of(r->Ok_0@) == listed_sites(v@),
                _ => r == Err::<Vec<MultiCoordPoint<P>>, &Self>(self),
            },
    {
        match self {
            CoordResult::Various(v) => {
                let mut out: Vec<MultiCoordPoint<P>> = Vec::new();
                let mut i: usize = 0;
                assert(v@.take(0) =~= Seq::empty());
                assert(sites_of(out@) =~= listed_sites(v@.take(0)));
                while i < v.len()
                    invariant
                        i <= v.len(),
                        sites_of(out@) == listed_sites(v@.take(i as int)),
                    decreases v.len() - i,
                {
                    assert(v@.take(i + 1).drop_last() =~= v@.take(i as int));
                    match &v[i] {
                        CoordResult::Points(more) => {
                            extend_sites(&mut out, more);
                        },
                        _ => {},
                    }
                    i = i + 1;
                }
                assert(v@.take(v.len() as int) =~= v@);
                Ok(out)
            },
            _ => Err(self),
        }
    }

    /// From a `Various`, the circles among its outcomes.
    pub fn try_pull_circles_from_various(&self) -> (r: Result<Vec<CoordCircle<C>>, &Self>)
        ensures
            match *self {
                CoordResult::Various(v) => r is Ok && r->Ok_0@ == circles_of(v@),
                _ => r == Err::<Vec<CoordCircle<C>>, &Self>(self),
            },
    {
        match self {
            CoordResult::Various(v) => {
                let mut out: Vec<CoordCircle<C>> = Vec::new();
                let mut i: usize = 0;
                assert(v@.take(0) =~= Seq::empty());
                while i < v.len()
                    invariant
                        i <= v.len(),
                        out@ == circles_of(v@.take(i as int)),
                    decreases v.len() - i,
                {
                    assert(v@.take(i + 1).drop_last() =~= v@.take(i as int));
                    match &v[i] {
                        CoordResult::Circle(c) => {
                            out.push(*c);
                        },
                        _ => {},
                    }
                    i = i + 1;
                }
                assert(v@.take(v.len() as int) =~= v@);
                Ok(out)
            },
            _ => Err(self),
        }
    }
}

} // verus!
