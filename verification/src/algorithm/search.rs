//! The search as a whole: its last stages and the report.

use vstd::prelude::*;
use crate::algorithm::circle_check::CircleCheckResult;
use crate::algorithm::search_report::SearchReports;
use crate::algorithm::sphere_check::SphereCheckResult;
use crate::algorithm::sweep::{
    all_turned_down,
    first_with_room,
    lemma_sweep_gave,
    sweep_gave,
    SINGLE_DIRECTIONS,
};
use crate::coordination_sites::coord_point::{
    dedup_spec,
    is_square,
    rows,
    sites_of,
    DelegatePoint,
    MultiCoordPoint,
    SiteView,
};
use crate::coordination_sites::coord_result::extend_sites;
use crate::geometry::approx::{FloatEq, FloatOrdering};

verus! {

/// The values that are present among the first `upto`, in order.
pub open spec fn present<T>(found: Seq<Option<T>>, upto: nat) -> Seq<T>
    decreases upto,
{
    if upto == 0 {
        Seq::empty()
    } else {
        let rest = present(found, (upto - 1) as nat);
        match found[upto - 1] {
            Some(v) => rest.push(v),
            None => rest,
        }
    }
}

/// The sites that go into the last stage: the points of the first stage,
/// then the points of the second.
pub open spec fn candidate_sites<P, C>(
    spheres: SphereCheckResult<P, C>,
    circles: CircleCheckResult<P>,
) -> Seq<SiteView<P>> {
    sites_of(spheres.single_points@) + sites_of(circles.points@)
}

/// The values that are present, in order, or nothing where none is.
pub fn gather<T: Copy>(found: &Vec<Option<T>>) -> (r: Option<Vec<T>>)
    ensures
        r is Some <==> present(found@, found@.len()).len() > 0,
        r is Some ==> r->Some_0@ == present(found@, found@.len()),
{
    let mut out: Vec<T> = Vec::new();
    let mut i: usize = 0;
    while i < found.len()
        invariant
            i <= found.len(),
            out@ == present(found@, i as nat),
        decreases found.len() - i,
    {
        match found[i] {
            Some(v) => {
                out.push(v);
            },
            None => {},
        }
        i = i + 1;
    }
    if out.len() > 0 {
        Some(out)
    } else {
        None
    }
}

/// The first direction round an atom with room for an atom at one bond
/// length, as the place it leads to. `survey` gives, for a direction, the
/// place at one bond length and how the distances of the atoms around that
/// place compare with the bond length. A place has room when none of them is
/// closer than the bond length.
pub fn brute_force_search_single<P: Copy, F: Fn(usize) -> (P, Vec<FloatOrdering>)>(survey: F) -> (r:
    Option<P>)
    requires
        forall|k: usize| k < SINGLE_DIRECTIONS ==> call_requires(survey, (k,)),
    ensures
        r is None ==> all_turned_down(survey, SINGLE_DIRECTIONS, usize::MAX),
        r is Some ==> sweep_gave(survey, SINGLE_DIRECTIONS, usize::MAX, r->Some_0),
{
    match first_with_room(SINGLE_DIRECTIONS, usize::MAX, survey) {
        Some((k, place)) => {
            proof {
                lemma_sweep_gave(survey, SINGLE_DIRECTIONS, usize::MAX, k, place);
            }
            Some(place)
        },
        None => None,
    }
}

/// The delegate of the sites on the one atom `atom_id`, where a direction
/// round it has room.
pub fn search_single_point<P: Copy, F: Fn(usize) -> (P, Vec<FloatOrdering>)>(
    atom_id: usize,
    survey: F,
) -> (r: Option<DelegatePoint<P, 1>>)
    requires
        forall|k: usize| k < SINGLE_DIRECTIONS ==> call_requires(survey, (k,)),
    ensures
        r is None ==> all_turned_down(survey, SINGLE_DIRECTIONS, usize::MAX),
        r is Some ==> r->Some_0.atom_ids@ == seq![atom_id] && sweep_gave(
            survey,
            SINGLE_DIRECTIONS,
            usize::MAX,
            r->Some_0.point,
        ),
{
    match brute_force_search_single(survey) {
        Some(place) => {
            let ids: [usize; 1] = [atom_id];
            assert(ids@ =~= seq![atom_id]);
            Some(DelegatePoint { point: place, atom_ids: ids })
        },
        None => None,
    }
}

/// The delegates of the atoms that have one, in the order of the atoms.
pub fn search_possible_single_points<P: Copy>(found: &Vec<Option<DelegatePoint<P, 1>>>) -> (r: Option<
    Vec<DelegatePoint<P, 1>>,
>)
    ensures
        r is Some <==> present(found@, found@.len()).len() > 0,
        r is Some ==> r->Some_0@ == present(found@, found@.len()),
{
    gather(found)
}

/// The delegates of the circles that have one, in the order of the circles.
pub fn search_possible_double_points<P: Copy>(found: &Vec<Option<DelegatePoint<P, 2>>>) -> (r: Option<
    Vec<DelegatePoint<P, 2>>,
>)
    ensures
        r is Some <==> present(found@, found@.len()).len() > 0,
        r is Some ==> r->Some_0@ == present(found@, found@.len()),
{
    gather(found)
}

/// The sites on several atoms: the points of the first two stages, merged
/// where they are one point, without those with an atom closer than the bond
/// length. `same` and `neighbour_orders` are the comparisons on the points of
/// the first stage followed by those of the second.
pub fn search_special_sites<P: Copy, C: Copy>(
    spheres: &SphereCheckResult<P, C>,
    circles: &CircleCheckResult<P>,
    same: &Vec<Vec<FloatEq>>,
    neighbour_orders: &Vec<Vec<FloatOrdering>>,
) -> (r: Option<Vec<MultiCoordPoint<P>>>)
    requires
        is_square(rows(same@), candidate_sites(*spheres, *circles).len()),
        neighbour_orders@.len() == candidate_sites(*spheres, *circles).len(),
    ensures
        r is Some <==> dedup_spec(
            candidate_sites(*spheres, *circles),
            rows(same@),
            rows(neighbour_orders@),
        ).len() > 0,
        r is Some ==> sites_of(r->Some_0@) == dedup_spec(
            candidate_sites(*spheres, *circles),
            rows(same@),
            rows(neighbour_orders@),
        ),
{
    let mut points: Vec<MultiCoordPoint<P>> = Vec::new();
    assert(sites_of(points@) =~= Seq::empty());
    extend_sites(&mut points, &spheres.single_points);
    extend_sites(&mut points, &circles.points);
    assert(sites_of(points@) =~= candidate_sites(*spheres, *circles));
    let found = MultiCoordPoint::dedup_points(points.as_slice(), same, neighbour_orders);
    if found.len() > 0 {
        Some(found)
    } else {
        None
    }
}

/// The report of a search, from what its stages gave.
pub fn search_sites<P: Copy, C: Copy>(
    spheres: &SphereCheckResult<P, C>,
    circles: &CircleCheckResult<P>,
    same: &Vec<Vec<FloatEq>>,
    neighbour_orders: &Vec<Vec<FloatOrdering>>,
    singles: &Vec<Option<DelegatePoint<P, 1>>>,
    doubles: &Vec<Option<DelegatePoint<P, 2>>>,
) -> (r: SearchReports<P>)
    requires
        is_square(rows(same@), candidate_sites(*spheres, *circles).len()),
        neighbour_orders@.len() == candidate_sites(*spheres, *circles).len(),
    ensures
        r.wf(),
        r.points is Some <==> dedup_spec(
            candidate_sites(*spheres, *circles),
            rows(same@),
            rows(neighbour_orders@),
        ).len() > 0,
        r.points is Some ==> sites_of(r.points->Some_0@) == dedup_spec(
            candidate_sites(*spheres, *circles),
            rows(same@),
            rows(neighbour_orders@),
        ),
        r.viable_single_points is Some <==> present(singles@, singles@.len()).len() > 0,
        r.viable_single_points is Some ==> r.viable_single_points->Some_0@ == present(
            singles@,
            singles@.len(),
        ),
        r.viable_double_points is Some <==> present(doubles@, doubles@.len()).len() > 0,
        r.viable_double_points is Some ==> r.viable_double_points->Some_0@ == present(
            doubles@,
            doubles@.len(),
        ),
{
    let special_sites = search_special_sites(spheres, circles, same, neighbour_orders);
    let viable_single_sites = search_possible_single_points(singles);
    let viable_double_sites = search_possible_double_points(doubles);
    SearchReports::new(special_sites, viable_single_sites, viable_double_sites)
}

} // verus!
