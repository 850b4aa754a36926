//! The circle in which the spheres of two atoms cross.

use vstd::prelude::*;
use crate::algorithm::sweep::{
    all_turned_down,
    first_with_room,
    lemma_sweep_gave,
    sweep_gave,
    DOUBLE_POSITIONS,
};
use crate::coordination_sites::atom_ids::{
    ascending,
    insert_id,
    lemma_sorted_distinct,
    lists,
    sort_three,
    sorted_three,
};
use crate::coordination_sites::coord_point::{sites_of, DelegatePoint, MultiCoordPoint, SiteView};
use crate::coordination_sites::coord_result::{all_empty, has_invalid, single_sites, CoordResult};
use crate::geometry::approx::FloatOrdering;
use crate::geometry::circle_sphere::CircleSphereIntersection;

verus! {

/// The circle of the points at one bond length from both atoms of `atom_ids`.
#[derive(Debug, Clone, Copy, PartialEq)]
pub struct CoordCircle<C> {
    pub circle: C,
    pub atom_ids: [usize; 2],
}

/// The atoms of two lists of neighbours without the two atoms of `pair`.
pub open spec fn common_set(pair: Seq<usize>, first: Seq<usize>, second: Seq<usize>) -> Set<
    usize,
> {
    Set::new(
        |k: usize| (first.contains(k) || second.contains(k)) && k != pair[0] && k != pair[1],
    )
}

/// The cut gives no site and rules the circle out.
pub open spec fn cut_is_invalid<P, C>(cut: CircleSphereIntersection<P, C>) -> bool {
    cut is Circle || cut is InsideSphere || cut is SphereInCircle || cut is Invalid
}

/// The site that the cut of a circle with the sphere of a third atom gives:
/// the point of the cut, or of two points the higher one (`heights` compares
/// the height of the first with that of the second; where it does not say
/// that the first is higher, the second is taken), anchored on the three
/// atoms in order.
pub open spec fn cut_site<P, C>(
    cut: CircleSphereIntersection<P, C>,
    pair: Seq<usize>,
    sphere_id: usize,
    heights: FloatOrdering,
) -> Option<SiteView<P>> {
    match cut {
        CircleSphereIntersection::Single(p) => Some(
            SiteView { point: p, atom_ids: sorted_three(pair[0], pair[1], sphere_id) },
        ),
        CircleSphereIntersection::Double(pa, pb) => Some(
            SiteView {
                point: if heights == FloatOrdering::Greater {
                    pa
                } else {
                    pb
                },
                atom_ids: sorted_three(pair[0], pair[1], sphere_id),
            },
        ),
        _ => None,
    }
}

/// The sites of the first `upto` cuts, in order. Cut `k` is the cut with the
/// sphere of atom `neighbours[k]`.
pub open spec fn cut_sites<P, C>(
    cuts: Seq<CircleSphereIntersection<P, C>>,
    pair: Seq<usize>,
    neighbours: Seq<usize>,
    heights: Seq<FloatOrdering>,
    upto: nat,
) -> Seq<SiteView<P>>
    decreases upto,
{
    if upto == 0 {
        Seq::empty()
    } else {
        let rest = cut_sites(cuts, pair, neighbours, heights, (upto - 1) as nat);
        match cut_site(cuts[upto - 1], pair, neighbours[upto - 1], heights[upto - 1]) {
            Some(site) => rest.push(site),
            None => rest,
        }
    }
}

/// The site of a cut has a strictly increasing list of atoms, where the two
/// atoms of the circle are in increasing order and the third atom is none of
/// them.
pub proof fn lemma_cut_site_ascending<P, C>(
    cut: CircleSphereIntersection<P, C>,
    pair: Seq<usize>,
    sphere_id: usize,
    heights: FloatOrdering,
)
    requires
        pair.len() == 2,
        pair[0] < pair[1],
        sphere_id != pair[0],
        sphere_id != pair[1],
    ensures
        cut_site(cut, pair, sphere_id, heights) is Some ==> ascending(
            cut_site(cut, pair, sphere_id, heights)->Some_0.atom_ids,
        ),
{
    lemma_sorted_distinct(pair[0], pair[1], sphere_id);
}

impl<P: Copy, C: Copy> CircleSphereIntersection<P, C> {
    /// Turns the cut of a circle with the sphere of atom `sphere_id` into an
    /// outcome of the search: nothing, a site on the three atoms, or the
    /// verdict that the circle gives no site.
    pub fn to_coord_result<S: Copy>(
        self,
        circle_id: &[usize; 2],
        sphere_id: usize,
        heights: FloatOrdering,
    ) -> (r: CoordResult<P, C, S>)
        ensures
            self is Zero <==> r is Empty,
            cut_is_invalid(self) <==> r is Invalid,
            r.site() == cut_site(self, circle_id@, sphere_id, heights),
            r is Empty || r is Invalid || r is SinglePoint,
    {
        match self {
            CircleSphereIntersection::Zero => CoordResult::Empty,
            CircleSphereIntersection::Single(p) => {
                let ids = sort_three(circle_id[0], circle_id[1], sphere_id);
                CoordResult::SinglePoint(MultiCoordPoint { point: p, atom_ids: ids })
            },
            CircleSphereIntersection::Double(pa, pb) => {
                let p = match heights {
                    FloatOrdering::Greater => pa,
                    _ => pb,
                };
                let ids = sort_three(circle_id[0], circle_id[1], sphere_id);
                CoordResult::SinglePoint(MultiCoordPoint { point: p, atom_ids: ids })
            },
            CircleSphereIntersection::Circle(_) => CoordResult::Invalid,
            CircleSphereIntersection::InsideSphere => CoordResult::Invalid,
            CircleSphereIntersection::SphereInCircle => CoordResult::Invalid,
            CircleSphereIntersection::Invalid => CoordResult::Invalid,
        }
    }
}

impl<C: Copy> CoordCircle<C> {
    pub fn new(circle: C, atom_ids: [usize; 2]) -> (r: Self)
        ensures
            r == (CoordCircle { circle, atom_ids }),
    {
        CoordCircle { circle, atom_ids }
    }

    pub fn atom_ids(&self) -> (r: [usize; 2])
        ensures
            r == self.atom_ids,
    {
        self.atom_ids
    }

    pub fn circle(&self) -> (r: C)
        ensures
            r == self.circle,
    {
        self.circle
    }

    /// The first position along the circle with room for an atom, as the
    /// delegate of the circle. `survey` gives, for a position, its place and
    /// how the distances of the atoms around it compare with the bond length.
    /// A position has room when none of them is closer than the bond length
    /// and they are at most two.
    pub fn get_possible_point<P: Copy, F: Fn(usize) -> (P, Vec<FloatOrdering>)>(
        &self,
        survey: F,
    ) -> (r: Option<DelegatePoint<P, 2>>)
        requires
            forall|k: usize| k < DOUBLE_POSITIONS ==> call_requires(survey, (k,)),
        ensures
            r is None ==> all_turned_down(survey, DOUBLE_POSITIONS, 2),
            r is Some ==> r->Some_0.atom_ids == self.atom_ids && sweep_gave(
                survey,
                DOUBLE_POSITIONS,
                2,
                r->Some_0.point,
            ),
    {
        match first_with_room(DOUBLE_POSITIONS, 2, survey) {
            Some((k, place)) => {
                proof {
                    lemma_sweep_gave(survey, DOUBLE_POSITIONS, 2, k, place);
                }
                Some(DelegatePoint { point: place, atom_ids: self.atom_ids })
            },
            None => None,
        }
    }

    /// The atoms near one or the other atom of the circle, without those two,
    /// in increasing order. `first` and `second` are the neighbours of the
    /// first and of the second atom.
    pub fn get_common_neighbours(&self, first: &Vec<usize>, second: &Vec<usize>) -> (r: Vec<usize>)
        ensures
            lists(r@, common_set(self.atom_ids@, first@, second@)),
    {
        let mut out: Vec<usize> = Vec::new();
        let a = self.atom_ids[0];
        let b = self.atom_ids[1];
        let ghost pair = self.atom_ids@;
        let ghost none = Seq::<usize>::empty();
        assert(out@.to_set() =~= common_set(pair, none, none));
        assert(first@.take(0) =~= none);
        let mut i: usize = 0;
        while i < first.len()
            invariant
                i <= first.len(),
                pair == self.atom_ids@,
                a == pair[0],
                b == pair[1],
                none == Seq::<usize>::empty(),
                lists(out@, common_set(pair, first@.take(i as int), none)),
            decreases first.len() - i,
        {
            let k = first[i];
            let ghost before = out@.to_set();
            if k != a && k != b {
                insert_id(&mut out, k);
            }
            proof {
                let head = first@.take(i as int);
                let next = first@.take(i + 1);
                assert(next =~= head.push(k));
                assert forall|x: usize| next.contains(x) <==> (head.contains(x) || x == k) by {
                    if next.contains(x) {
                        let j = choose|j: int| 0 <= j < next.len() && next[j] == x;
                        if j < i {
                            assert(head[j] == x);
                        }
                    }
                    if head.contains(x) {
                        let j = choose|j: int| 0 <= j < head.len() && head[j] == x;
                        assert(next[j] == x);
                    }
                    if x == k {
                        assert(next[i as int] == x);
                    }
                }
                assert(out@.to_set() =~= common_set(pair, next, none));
            }
            i = i + 1;
        }
        assert(first@.take(first.len() as int) =~= first@);
        assert(second@.take(0) =~= none);
        let mut j: usize = 0;
        while j < second.len()
            invariant
                j <= second.len(),
                pair == self.atom_ids@,
                a == pair[0],
                b == pair[1],
                lists(out@, common_set(pair, first@, second@.take(j as int))),
            decreases second.len() - j,
        {
            let k = second[j];
            if k != a && k != b {
                insert_id(&mut out, k);
            }
            proof {
                let head = second@.take(j as int);
                let next = second@.take(j + 1);
                assert(next =~= head.push(k));
                assert forall|x: usize| next.contains(x) <==> (head.contains(x) || x == k) by {
                    if next.contains(x) {
                        let m = choose|m: int| 0 <= m < next.len() && next[m] == x;
                        if m < j {
                            assert(head[m] == x);
                        }
                    }
                    if head.contains(x) {
                        let m = choose|m: int| 0 <= m < head.len() && head[m] == x;
                        assert(next[m] == x);
                    }
                    if x == k {
                        assert(next[j as int] == x);
                    }
                }
                assert(out@.to_set() =~= common_set(pair, first@, next));
            }
            j = j + 1;
        }
        assert(second@.take(second.len() as int) =~= second@);
        out
    }

    /// Sums up what the cuts of the circle with the spheres of its neighbours
    /// gave. One verdict against the circle rules it out. Where every cut is
    /// empty the circle stands as it is. Else the sites of the cuts are the
    /// sites of the circle.
    pub fn classify_neighbour_results<P: Copy, S: Copy>(
        &self,
        neighbour_results: Vec<CoordResult<P, C, S>>,
    ) -> (r: Option<CoordResult<P, C, S>>)
        ensures
            has_invalid(neighbour_results@) <==> r is None,
            !has_invalid(neighbour_results@) && all_empty(neighbour_results@) ==> r == Some(
                CoordResult::<P, C, S>::Circle(*self),
            ),
            !has_invalid(neighbour_results@) && !all_empty(neighbour_results@) ==> r is Some
                && r->Some_0.sites() == Some(single_sites(neighbour_results@)),
    {
        let ghost results = neighbour_results@;
        let mut invalid = false;
        let mut empty = true;
        let mut points: Vec<MultiCoordPoint<P>> = Vec::new();
        let mut i: usize = 0;
        assert(results.take(0) =~= Seq::empty());
        assert(sites_of(points@) =~= single_sites(results.take(0)));
        while i < neighbour_results.len()
            invariant
                i <= neighbour_results.len(),
                results == neighbour_results@,
                invalid == has_invalid(results.take(i as int)),
                empty == all_empty(results.take(i as int)),
                sites_of(points@) == single_sites(results.take(i as int)),
            decreases neighbour_results.len() - i,
        {
            let ghost head = results.take(i as int);
            let ghost next = results.take(i + 1);
            let ghost before = sites_of(points@);
            proof {
                assert(next.drop_last() =~= head);
                assert(next.last() == results[i as int]);
                assert(forall|k: int| 0 <= k < i ==> next[k] == head[k]);
                if has_invalid(head) {
                    let k = choose|k: int| 0 <= k < head.len() && head[k] is Invalid;
                    assert(next[k] is Invalid);
                }
                if has_invalid(next) && !(results[i as int] is Invalid) {
                    let k = choose|k: int| 0 <= k < next.len() && next[k] is Invalid;
                    assert(head[k] is Invalid);
                }
                if results[i as int] is Invalid {
                    assert(next[i as int] is Invalid);
                }
                if all_empty(next) {
                    assert forall|k: int| 0 <= k < head.len() implies head[k] is Empty by {
                        assert(next[k] is Empty);
                    }
                    assert(next[i as int] is Empty);
                }
            }
            match &neighbour_results[i] {
                CoordResult::Invalid => {
                    invalid = true;
                    empty = false;
                },
                CoordResult::Empty => {},
                CoordResult::SinglePoint(p) => {
                    empty = false;
                    let copy = p.duplicate();
                    points.push(copy);
                    assert(sites_of(points@) =~= before.push(copy@));
                },
                _ => {
                    empty = false;
                },
            }
            i = i + 1;
        }
        assert(results.take(results.len() as int) =~= results);
        if invalid {
            None
        } else if empty {
            Some(CoordResult::Circle(*self))
        } else {
            Some(CoordResult::Points(points))
        }
    }

    /// Cuts the circle with the spheres of its neighbours and sums up. Cut
    /// `k` is the cut with the sphere of atom `common_neighbours[k]`, and
    /// `heights[k]` compares the heights of its two points where it has two.
    /// A cut that is a circle, or that has the circle inside the sphere or
    /// round its cut, rules the circle out. Where every cut is empty the
    /// circle stands as it is. Else the sites of the cuts are the sites of
    /// the circle.
    pub fn common_neighbours_intersect<P: Copy, S: Copy>(
        &self,
        common_neighbours: &Vec<usize>,
        cuts: &Vec<CircleSphereIntersection<P, C>>,
        heights: &Vec<FloatOrdering>,
    ) -> (r: Option<CoordResult<P, C, S>>)
        requires
            cuts@.len() == common_neighbours@.len(),
            heights@.len() == common_neighbours@.len(),
        ensures
            (exists|k: int| 0 <= k < cuts@.len() && cut_is_invalid(cuts@[k])) <==> r is None,
            r is Some && (forall|k: int| 0 <= k < cuts@.len() ==> cuts@[k] is Zero) ==> r == Some(
                CoordResult::<P, C, S>::Circle(*self),
            ),
            r is Some && !(forall|k: int| 0 <= k < cuts@.len() ==> cuts@[k] is Zero)
                ==> r->Some_0.sites() == Some(
                cut_sites(cuts@, self.atom_ids@, common_neighbours@, heights@, cuts@.len()),
            ),
    {
        let n = cuts.len();
        let mut results: Vec<CoordResult<P, C, S>> = Vec::new();
        let mut i: usize = 0;
        assert(single_sites(results@) =~= cut_sites(
            cuts@,
            self.atom_ids@,
            common_neighbours@,
            heights@,
            0,
        ));
        while i < n
            invariant
                i <= n,
                n == cuts@.len(),
                n == common_neighbours@.len(),
                n == heights@.len(),
                results@.len() == i,
                forall|k: int| 0 <= k < i ==> (cuts@[k] is Zero <==> results@[k] is Empty),
                forall|k: int|
                    0 <= k < i ==> (cut_is_invalid(cuts@[k]) <==> results@[k] is Invalid),
                single_sites(results@) == cut_sites(
                    cuts@,
                    self.atom_ids@,
                    common_neighbours@,
                    heights@,
                    i as nat,
                ),
            decreases n - i,
        {
            let ghost before = results@;
            let outcome = cuts[i].to_coord_result::<S>(
                &self.atom_ids,
                common_neighbours[i],
                heights[i],
            );
            results.push(outcome);
            proof {
                assert(results@.drop_last() =~= before);
                assert(results@.last() == outcome);
            }
            i = i + 1;
        }
        proof {
            if has_invalid(results@) {
                let k = choose|k: int| 0 <= k < results@.len() && results@[k] is Invalid;
                assert(cut_is_invalid(cuts@[k]));
            }
            if exists|k: int| 0 <= k < cuts@.len() && cut_is_invalid(cuts@[k]) {
                let k = choose|k: int| 0 <= k < cuts@.len() && cut_is_invalid(cuts@[k]);
                assert(results@[k] is Invalid);
            }
            if forall|k: int| 0 <= k < cuts@.len() ==> cuts@[k] is Zero {
                assert forall|k: int| 0 <= k < results@.len() implies results@[k] is Empty by {
                    assert(cuts@[k] is Zero);
                }
            }
            if all_empty(results@) {
                assert forall|k: int| 0 <= k < cuts@.len() implies cuts@[k] is Zero by {
                    assert(results@[k] is Empty);
                }
            }
        }
        self.classify_neighbour_results(results)
    }
}

} // verus!
