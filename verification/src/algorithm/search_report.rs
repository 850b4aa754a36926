//! What a search reports.

use vstd::prelude::*;
use crate::coordination_sites::coord_point::{rows, DelegatePoint, MultiCoordPoint};
use crate::geometry::approx::{any_closer, has_closer, FloatOrdering};

verus! {

/// The sites of a search, class by class. A class is present exactly when it
/// holds a site.
#[derive(Debug)]
pub struct SearchReports<P> {
    pub points: Option<Vec<MultiCoordPoint<P>>>,
    pub viable_single_points: Option<Vec<DelegatePoint<P, 1>>>,
    pub viable_double_points: Option<Vec<DelegatePoint<P, 2>>>,
}

/// A list as a class of a report: present where it holds something.
pub open spec fn as_class<T>(list: Option<Vec<T>>) -> Option<Vec<T>> {
    match list {
        Some(v) => if v@.len() > 0 {
            Some(v)
        } else {
            None
        },
        None => None,
    }
}

/// No class is present that holds nothing.
pub open spec fn is_class<T>(list: Option<Vec<T>>) -> bool {
    list is Some ==> list->Some_0@.len() > 0
}

/// The indices below `upto` of the sites with no atom closer than the bond
/// length, in increasing order.
pub open spec fn valid_sites(crowd: Seq<Seq<FloatOrdering>>, upto: nat) -> Seq<int>
    decreases upto,
{
    if upto == 0 {
        Seq::empty()
    } else {
        let rest = valid_sites(crowd, (upto - 1) as nat);
        if has_closer(crowd[upto - 1]) {
            rest
        } else {
            rest.push(upto - 1)
        }
    }
}

/// A list as a class of a report.
pub fn into_class<T>(list: Option<Vec<T>>) -> (r: Option<Vec<T>>)
    ensures
        r == as_class(list),
{
    match list {
        Some(v) => {
            if v.len() > 0 {
                Some(v)
            } else {
                None
            }
        },
        None => None,
    }
}

/// Keeps the site unless an atom is closer to it than the bond length.
/// `neighbour_orders` holds, for each atom around the site, how its distance
/// compares with the bond length.
pub fn validate_site<'a, T>(coord_site: &'a T, neighbour_orders: &Vec<FloatOrdering>) -> (r: Option<
    &'a T,
>)
    ensures
        has_closer(neighbour_orders@) ==> r is None,
        !has_closer(neighbour_orders@) ==> r == Some(coord_site),
{
    if any_closer(neighbour_orders) {
        None
    } else {
        Some(coord_site)
    }
}

impl<P: Copy> SearchReports<P> {
    /// A report of three lists. A list that holds nothing is left out.
    pub fn new(
        points: Option<Vec<MultiCoordPoint<P>>>,
        viable_single_points: Option<Vec<DelegatePoint<P, 1>>>,
        viable_double_points: Option<Vec<DelegatePoint<P, 2>>>,
    ) -> (r: Self)
        ensures
            r.points == as_class(points),
            r.viable_single_points == as_class(viable_single_points),
            r.viable_double_points == as_class(viable_double_points),
            r.wf(),
    {
        SearchReports {
            points: into_class(points),
            viable_single_points: into_class(viable_single_points),
            viable_double_points: into_class(viable_double_points),
        }
    }

    /// Every class that is present holds a site.
    pub open spec fn wf(&self) -> bool {
        is_class(self.points) && is_class(self.viable_single_points) && is_class(
            self.viable_double_points,
        )
    }

    pub fn points(&self) -> (r: Option<&Vec<MultiCoordPoint<P>>>)
        ensures
            r is Some == self.points is Some,
            r is Some ==> *r->Some_0 == self.points->Some_0,
    {
        self.points.as_ref()
    }

    pub fn viable_single_points(&self) -> (r: Option<&Vec<DelegatePoint<P, 1>>>)
        ensures
            r is Some == self.viable_single_points is Some,
            r is Some ==> *r->Some_0 == self.viable_single_points->Some_0,
    {
        self.viable_single_points.as_ref()
    }

    pub fn viable_double_points(&self) -> (r: Option<&Vec<DelegatePoint<P, 2>>>)
        ensures
            r is Some == self.viable_double_points is Some,
            r is Some ==> *r->Some_0 == self.viable_double_points->Some_0,
    {
        self.viable_double_points.as_ref()
    }

    /// True when the search found no site of any class.
    pub fn is_empty(&self) -> (r: bool)
        ensures
            r == (self.points is None && self.viable_single_points is None
                && self.viable_double_points is None),
    {
        self.points.is_none() && self.viable_single_points.is_none()
            && self.viable_double_points.is_none()
    }

    /// The sites with no atom closer than the bond length, in order, each as
    /// a clone. `neighbour_orders[k]` holds, for each atom around site `k`,
    /// how its distance compares with the bond length.
    pub fn validated_results<T: Clone>(
        coord_sites: &[T],
        neighbour_orders: &Vec<Vec<FloatOrdering>>,
    ) -> (r: Vec<T>)
        requires
            neighbour_orders@.len() == coord_sites@.len(),
        ensures
            r@.len() == valid_sites(rows(neighbour_orders@), coord_sites@.len()).len(),
            forall|k: int|
                0 <= k < r@.len() ==> cloned(
                    coord_sites@[valid_sites(rows(neighbour_orders@), coord_sites@.len())[k]],
                    #[trigger] r@[k],
                ),
    {
        let n = coord_sites.len();
        let ghost crowd = rows(neighbour_orders@);
        let mut out: Vec<T> = Vec::new();
        let mut i: usize = 0;
        while i < n
            invariant
                i <= n,
                n == coord_sites@.len(),
                n == neighbour_orders@.len(),
                crowd == rows(neighbour_orders@),
                out@.len() == valid_sites(crowd, i as nat).len(),
                forall|k: int|
                    0 <= k < valid_sites(crowd, i as nat).len() ==> 0 <= #[trigger] valid_sites(
                        crowd,
                        i as nat,
                    )[k] < i,
                forall|k: int|
                    0 <= k < out@.len() ==> cloned(
                        coord_sites@[valid_sites(crowd, i as nat)[k]],
                        #[trigger] out@[k],
                    ),
            decreases n - i,
        {
            assert(crowd[i as int] == neighbour_orders@[i as int]@);
            match validate_site(&coord_sites[i], &neighbour_orders[i]) {
                Some(site) => {
                    let copy = site.clone();
                    out.push(copy);
                },
                None => {},
            }
            i = i + 1;
        }
        out
    }
}

} // verus!
