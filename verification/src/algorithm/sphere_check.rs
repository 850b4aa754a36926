//! The first stage: the spheres of the atoms, pair by pair.

use vstd::prelude::*;
use crate::coordination_sites::atom_ids::ascending;
use crate::coordination_sites::coord_circle::CoordCircle;
use crate::coordination_sites::coord_point::{rows, sites_of, MultiCoordPoint, SiteView};
use crate::coordination_sites::coord_result::{
    circles_of,
    extend_sites,
    single_sites,
    CoordResult,
};
use crate::geometry::approx::{any_closer, has_closer, FloatOrdering};
use crate::geometry::sphere_sphere::SphereSphereResult;

verus! {

/// What the first stage gives: the points where two spheres touch, and the
/// circles where two spheres cross.
#[derive(Debug)]
pub struct SphereCheckResult<P, C> {
    pub single_points: Vec<MultiCoordPoint<P>>,
    pub unchecked_circles: Vec<CoordCircle<C>>,
}

/// Two atoms as a pair with the smaller index first.
pub open spec fn ordered(a: usize, b: usize) -> (usize, usize) {
    if a <= b {
        (a, b)
    } else {
        (b, a)
    }
}

/// The pairs that atom `atom_id` forms with the first `upto` of its
/// neighbours, in order, without the atom itself, without the pairs in `seen`
/// and each pair once.
pub open spec fn fresh_from(
    atom_id: usize,
    neighbours: Seq<usize>,
    seen: Seq<(usize, usize)>,
    upto: nat,
) -> Seq<(usize, usize)>
    decreases upto,
{
    if upto == 0 {
        Seq::empty()
    } else {
        let rest = fresh_from(atom_id, neighbours, seen, (upto - 1) as nat);
        let other = neighbours[upto - 1];
        let pair = ordered(atom_id, other);
        if other == atom_id || seen.contains(pair) || rest.contains(pair) {
            rest
        } else {
            rest.push(pair)
        }
    }
}

/// The site that the spheres of a pair of atoms give where they touch in a
/// point with no atom closer to it than the bond length.
pub open spec fn touch_site<P, C, S>(
    pair: (usize, usize),
    shared: SphereSphereResult<P, C, S>,
    orders: Seq<FloatOrdering>,
) -> Option<SiteView<P>> {
    match shared {
        SphereSphereResult::Point(p) => if has_closer(orders) {
            None
        } else {
            Some(SiteView { point: p, atom_ids: seq![pair.0, pair.1] })
        },
        _ => None,
    }
}

/// The circle that the spheres of a pair of atoms give where they cross.
pub open spec fn cross_circle<P, C, S>(
    pair: (usize, usize),
    shared: SphereSphereResult<P, C, S>,
) -> Option<CoordCircle<C>> {
    match shared {
        SphereSphereResult::Circle(c) => Some(CoordCircle { circle: c, atom_ids: [pair.0, pair.1] }),
        _ => None,
    }
}

/// The sites of the first `upto` pairs, in order.
pub open spec fn touch_sites<P, C, S>(
    pairs: Seq<(usize, usize)>,
    shared: Seq<SphereSphereResult<P, C, S>>,
    crowd: Seq<Seq<FloatOrdering>>,
    upto: nat,
) -> Seq<SiteView<P>>
    decreases upto,
{
    if upto == 0 {
        Seq::empty()
    } else {
        let rest = touch_sites(pairs, shared, crowd, (upto - 1) as nat);
        match touch_site(pairs[upto - 1], shared[upto - 1], crowd[upto - 1]) {
            Some(site) => rest.push(site),
            None => rest,
        }
    }
}

/// The circles of the first `upto` pairs, in order.
pub open spec fn cross_circles<P, C, S>(
    pairs: Seq<(usize, usize)>,
    shared: Seq<SphereSphereResult<P, C, S>>,
    upto: nat,
) -> Seq<CoordCircle<C>>
    decreases upto,
{
    if upto == 0 {
        Seq::empty()
    } else {
        let rest = cross_circles(pairs, shared, (upto - 1) as nat);
        match cross_circle(pairs[upto - 1], shared[upto - 1]) {
            Some(circle) => rest.push(circle),
            None => rest,
        }
    }
}

/// The single points of the first `upto` outcomes that hold several, outcome
/// after outcome.
pub open spec fn gathered_sites<P, C, S>(results: Seq<CoordResult<P, C, S>>, upto: nat) -> Seq<
    SiteView<P>,
>
    decreases upto,
{
    if upto == 0 {
        Seq::empty()
    } else {
        let rest = gathered_sites(results, (upto - 1) as nat);
        match results[upto - 1] {
            CoordResult::Various(v) => rest + single_sites(v@),
            _ => rest,
        }
    }
}

/// The circles of the first `upto` outcomes that hold several, outcome after
/// outcome.
pub open spec fn gathered_circles<P, C, S>(results: Seq<CoordResult<P, C, S>>, upto: nat) -> Seq<
    CoordCircle<C>,
>
    decreases upto,
{
    if upto == 0 {
        Seq::empty()
    } else {
        let rest = gathered_circles(results, (upto - 1) as nat);
        match results[upto - 1] {
            CoordResult::Various(v) => rest + circles_of(v@),
            _ => rest,
        }
    }
}

impl<P: Copy, C: Copy> SphereCheckResult<P, C> {
    pub fn new(single_points: Vec<MultiCoordPoint<P>>, unchecked_circles: Vec<CoordCircle<C>>) -> (r:
        Self)
        ensures
            r.single_points == single_points,
            r.unchecked_circles == unchecked_circles,
    {
        SphereCheckResult { single_points, unchecked_circles }
    }

    pub fn single_points(&self) -> (r: &[MultiCoordPoint<P>])
        ensures
            r@ == self.single_points@,
    {
        self.single_points.as_slice()
    }

    pub fn unchecked_circles(&self) -> (r: &[CoordCircle<C>])
        ensures
            r@ == self.unchecked_circles@,
    {
        self.unchecked_circles.as_slice()
    }
}

/// Tells whether `pair` is among `pairs`.
pub fn holds_pair(pairs: &Vec<(usize, usize)>, pair: (usize, usize)) -> (r: bool)
    ensures
        r == pairs@.contains(pair),
{
    let mut i: usize = 0;
    while i < pairs.len()
        invariant
            i <= pairs.len(),
            forall|k: int| 0 <= k < i ==> pairs@[k] != pair,
        decreases pairs.len() - i,
    {
        let at = pairs[i];
        if at.0 == pair.0 && at.1 == pair.1 {
            assert(pairs@[i as int] == pair);
            return true;
        }
        i = i + 1;
    }
    false
}

/// The pairs that the atom `atom_id` forms with its neighbours and that no
/// earlier atom has formed. Each pair has the smaller index first. The new
/// pairs are noted in `visited_pair`.
pub fn fresh_pairs(atom_id: usize, neighbours: &Vec<usize>, visited_pair: &mut Vec<(usize, usize)>) -> (pairs:
    Vec<(usize, usize)>)
    ensures
        pairs@ == fresh_from(atom_id, neighbours@, old(visited_pair)@, neighbours@.len()),
        final(visited_pair)@ == old(visited_pair)@ + pairs@,
{
    let ghost seen = visited_pair@;
    let mut pairs: Vec<(usize, usize)> = Vec::new();
    let mut i: usize = 0;
    assert(visited_pair@ =~= seen + pairs@);
    while i < neighbours.len()
        invariant
            i <= neighbours.len(),
            pairs@ == fresh_from(atom_id, neighbours@, seen, i as nat),
            visited_pair@ == seen + pairs@,
        decreases neighbours.len() - i,
    {
        let other = neighbours[i];
        if other != atom_id {
            let pair = if atom_id <= other {
                (atom_id, other)
            } else {
                (other, atom_id)
            };
            let known = holds_pair(visited_pair, pair);
            proof {
                let all = seen + pairs@;
                if all.contains(pair) {
                    let k = choose|k: int| 0 <= k < all.len() && all[k] == pair;
                    if k < seen.len() {
                        assert(seen[k] == pair);
                    } else {
                        assert(pairs@[k - seen.len()] == pair);
                    }
                }
                if seen.contains(pair) {
                    let k = choose|k: int| 0 <= k < seen.len() && seen[k] == pair;
                    assert(all[k] == pair);
                }
                if pairs@.contains(pair) {
                    let k = choose|k: int| 0 <= k < pairs@.len() && pairs@[k] == pair;
                    assert(all[k + seen.len()] == pair);
                }
            }
            if !known {
                let ghost before = pairs@;
                pairs.push(pair);
                visited_pair.push(pair);
                assert(visited_pair@ =~= seen + pairs@);
            }
        }
        i = i + 1;
    }
    pairs
}

/// Every fresh pair has its smaller index first and two different atoms, is
/// none of the pairs seen before, and occurs once.
pub proof fn lemma_fresh_pairs(
    atom_id: usize,
    neighbours: Seq<usize>,
    seen: Seq<(usize, usize)>,
    upto: nat,
)
    ensures
        forall|k: int|
            0 <= k < fresh_from(atom_id, neighbours, seen, upto).len() ==> {
                let pair = #[trigger] fresh_from(atom_id, neighbours, seen, upto)[k];
                pair.0 < pair.1 && (pair.0 == atom_id || pair.1 == atom_id) && !seen.contains(pair)
            },
        fresh_from(atom_id, neighbours, seen, upto).no_duplicates(),
    decreases upto,
{
    if upto > 0 {
        lemma_fresh_pairs(atom_id, neighbours, seen, (upto - 1) as nat);
    }
}

/// The site of a fresh pair has a strictly increasing list of atoms, and the
/// circle of a fresh pair has its two atoms in increasing order.
pub proof fn lemma_pair_sites_ascending<P, C, S>(
    atom_id: usize,
    neighbours: Seq<usize>,
    seen: Seq<(usize, usize)>,
    k: int,
    shared: SphereSphereResult<P, C, S>,
    orders: Seq<FloatOrdering>,
)
    requires
        0 <= k < fresh_from(atom_id, neighbours, seen, neighbours.len()).len(),
    ensures
        ({
            let pair = fresh_from(atom_id, neighbours, seen, neighbours.len())[k];
            &&& touch_site(pair, shared, orders) is Some ==> ascending(
                touch_site(pair, shared, orders)->Some_0.atom_ids,
            )
            &&& cross_circle(pair, shared) is Some ==> cross_circle(
                pair,
                shared,
            )->Some_0.atom_ids@[0] < cross_circle(pair, shared)->Some_0.atom_ids@[1]
        }),
{
    lemma_fresh_pairs(atom_id, neighbours, seen, neighbours.len());
}

/// Sorts out what the spheres of the pairs of one atom share. `shared[k]` is
/// what the two spheres of `pairs[k]` share, and `neighbour_orders[k]` holds,
/// where that is a point, how the distances of the atoms around it compare
/// with the bond length. A point with no atom closer than the bond length
/// becomes a site on the two atoms, a circle becomes the circle of the two
/// atoms, and nothing else counts.
pub fn sphere_neighbour_check<P: Copy, C: Copy, S: Copy>(
    pairs: &Vec<(usize, usize)>,
    shared: &Vec<SphereSphereResult<P, C, S>>,
    neighbour_orders: &Vec<Vec<FloatOrdering>>,
) -> (r: CoordResult<P, C, S>)
    requires
        shared@.len() == pairs@.len(),
        neighbour_orders@.len() == pairs@.len(),
    ensures
        r is Various,
        single_sites(r->Various_0@) == touch_sites(
            pairs@,
            shared@,
            rows(neighbour_orders@),
            pairs@.len(),
        ),
        circles_of(r->Various_0@) == cross_circles(pairs@, shared@, pairs@.len()),
{
    let n = pairs.len();
    let ghost crowd = rows(neighbour_orders@);
    let mut found: Vec<CoordResult<P, C, S>> = Vec::new();
    let mut i: usize = 0;
    assert(single_sites(found@) =~= touch_sites(pairs@, shared@, crowd, 0));
    assert(circles_of(found@) =~= cross_circles(pairs@, shared@, 0));
    while i < n
        invariant
            i <= n,
            n == pairs@.len(),
            n == shared@.len(),
            n == neighbour_orders@.len(),
            crowd == rows(neighbour_orders@),
            single_sites(found@) == touch_sites(pairs@, shared@, crowd, i as nat),
            circles_of(found@) == cross_circles(pairs@, shared@, i as nat),
        decreases n - i,
    {
        let ghost before = found@;
        let pair = pairs[i];
        assert(crowd[i as int] == neighbour_orders@[i as int]@);
        match shared[i] {
            SphereSphereResult::Point(p) => {
                if !any_closer(&neighbour_orders[i]) {
                    let mut ids: Vec<usize> = Vec::new();
                    ids.push(pair.0);
                    ids.push(pair.1);
                    assert(ids@ =~= seq![pair.0, pair.1]);
                    found.push(CoordResult::SinglePoint(MultiCoordPoint { point: p, atom_ids: ids }));
                    assert(found@.drop_last() =~= before);
                }
            },
            SphereSphereResult::Circle(c) => {
                let ids: [usize; 2] = [pair.0, pair.1];
                found.push(CoordResult::Circle(CoordCircle { circle: c, atom_ids: ids }));
                assert(found@.drop_last() =~= before);
            },
            _ => {},
        }
        i = i + 1;
    }
    CoordResult::Various(found)
}

/// Puts the outcomes of all the atoms together: the points, and the circles
/// that the next stages go through.
pub fn sphere_check<P: Copy, C: Copy, S: Copy>(results: &Vec<CoordResult<P, C, S>>) -> (r:
    SphereCheckResult<P, C>)
    ensures
        sites_of(r.single_points@) == gathered_sites(results@, results@.len()),
        r.unchecked_circles@ == gathered_circles(results@, results@.len()),
{
    let mut points: Vec<MultiCoordPoint<P>> = Vec::new();
    let mut circles: Vec<CoordCircle<C>> = Vec::new();
    let mut i: usize = 0;
    assert(sites_of(points@) =~= gathered_sites(results@, 0));
    while i < results.len()
        invariant
            i <= results.len(),
            sites_of(points@) == gathered_sites(results@, i as nat),
            circles@ == gathered_circles(results@, i as nat),
        decreases results.len() - i,
    {
        match results[i].try_pull_single_points_from_various() {
            Ok(more) => {
                extend_sites(&mut points, &more);
            },
            Err(_) => {},
        }
        match results[i].try_pull_circles_from_various() {
            Ok(mut more) => {
                circles.append(&mut more);
            },
            Err(_) => {},
        }
        i = i + 1;
    }
    SphereCheckResult { single_points: points, unchecked_circles: circles }
}

} // verus!
