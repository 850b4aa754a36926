//! Sites held at a point: the multiply coordinated ones and the delegates.

use vstd::prelude::*;
use crate::coordination_sites::atom_ids::{
    ascending,
    insert_all,
    joined,
    lemma_listing_exists,
    lemma_listing_is,
    listing,
    lists,
    sorted_union,
};
use crate::geometry::approx::{any_closer, has_closer, FloatEq, FloatOrdering};

verus! {

/// A point at the bond length from each of the atoms in `atom_ids`.
#[derive(Debug, Clone, PartialEq)]
pub struct MultiCoordPoint<P> {
    pub point: P,
    pub atom_ids: Vec<usize>,
}

/// A point that stands for a whole locus of sites anchored on `N` atoms.
#[derive(Debug, Clone, Copy, PartialEq)]
pub struct DelegatePoint<P, const N: usize> {
    pub point: P,
    pub atom_ids: [usize; N],
}

/// A site as a plain value: where it is and which atoms anchor it.
pub struct SiteView<P> {
    pub point: P,
    pub atom_ids: Seq<usize>,
}

impl<P> View for MultiCoordPoint<P> {
    type V = SiteView<P>;

    open spec fn view(&self) -> SiteView<P> {
        SiteView { point: self.point, atom_ids: self.atom_ids@ }
    }
}

impl<P, const N: usize> View for DelegatePoint<P, N> {
    type V = SiteView<P>;

    open spec fn view(&self) -> SiteView<P> {
        SiteView { point: self.point, atom_ids: self.atom_ids@ }
    }
}

/// The sites of a list of points.
pub open spec fn sites_of<P>(points: Seq<MultiCoordPoint<P>>) -> Seq<SiteView<P>> {
    points.map_values(|p: MultiCoordPoint<P>| p@)
}

/// The rows of a table, each as a sequence.
pub open spec fn rows<T>(table: Seq<Vec<T>>) -> Seq<Seq<T>> {
    table.map_values(|row: Vec<T>| row@)
}

/// The table has `n` rows of `n` entries.
pub open spec fn is_square<T>(table: Seq<Seq<T>>, n: nat) -> bool {
    table.len() == n && forall|i: int| 0 <= i < n ==> (#[trigger] table[i]).len() == n
}

/// Point `i` opens a group of its own: no earlier point that opens a group is
/// the same point as `i`.
pub open spec fn is_head(same: Seq<Seq<FloatEq>>, i: int) -> bool
    decreases i,
{
    forall|h: int| 0 <= h < i && is_head(same, h) ==> #[trigger] same[h][i] != FloatEq::Eq
}

/// Point `i` belongs to the group of a head before `upto`.
pub open spec fn is_claimed(same: Seq<Seq<FloatEq>>, i: int, upto: int) -> bool {
    exists|h: int|
        0 <= h < upto && h < i && is_head(same, h) && #[trigger] same[h][i] == FloatEq::Eq
}

/// Point `i` is gathered into the group of head `h`: it comes after `h`, is
/// the same point as `h`, and no earlier head has taken it.
pub open spec fn joins(same: Seq<Seq<FloatEq>>, h: int, i: int) -> bool {
    h < i && same[h][i] == FloatEq::Eq && !is_claimed(same, i, h)
}

/// Nothing is gathered into the group of head `h`.
pub open spec fn stands_alone(same: Seq<Seq<FloatEq>>, h: int, n: int) -> bool {
    forall|i: int| h < i < n ==> !#[trigger] joins(same, h, i)
}

/// The atoms of head `h` and of the points among the first `upto` that are
/// gathered into its group.
pub open spec fn gathered_ids<P>(
    sites: Seq<SiteView<P>>,
    same: Seq<Seq<FloatEq>>,
    h: int,
    upto: int,
) -> Set<usize> {
    Set::new(
        |x: usize|
            sites[h].atom_ids.contains(x) || exists|i: int|
                h < i < upto && #[trigger] joins(same, h, i) && sites[i].atom_ids.contains(x),
    )
}

/// The site that the group of head `h` becomes: the point of `h` with, where
/// something was gathered, the increasing list of all the group's atoms, and
/// else the list of `h` as it is.
pub open spec fn merged_site<P>(
    sites: Seq<SiteView<P>>,
    same: Seq<Seq<FloatEq>>,
    h: int,
) -> SiteView<P> {
    SiteView {
        point: sites[h].point,
        atom_ids: if stands_alone(same, h, sites.len() as int) {
            sites[h].atom_ids
        } else {
            listing(gathered_ids(sites, same, h, sites.len() as int))
        },
    }
}

/// Head `h` opens a group and no atom is closer to it than the bond length.
pub open spec fn survives(
    same: Seq<Seq<FloatEq>>,
    crowd: Seq<Seq<FloatOrdering>>,
    h: int,
) -> bool {
    is_head(same, h) && !has_closer(crowd[h])
}

/// The heads below `upto` that survive, in increasing order.
pub open spec fn survivors(
    same: Seq<Seq<FloatEq>>,
    crowd: Seq<Seq<FloatOrdering>>,
    upto: nat,
) -> Seq<int>
    decreases upto,
{
    if upto == 0 {
        Seq::empty()
    } else {
        let rest = survivors(same, crowd, (upto - 1) as nat);
        if survives(same, crowd, upto - 1) {
            rest.push(upto - 1)
        } else {
            rest
        }
    }
}

/// What deduplication makes of a list of sites. `same[i][j]` tells whether
/// points `i` and `j` are one point; `crowd[i]` holds, for the atoms around
/// point `i`, how their distance compares with the bond length.
///
/// The points are taken in order. One that no earlier group holds opens a
/// group and gathers every later point, not yet taken, that is the same point.
/// Each group gives one site, and the sites with an atom closer than the bond
/// length are dropped.
pub open spec fn dedup_spec<P>(
    sites: Seq<SiteView<P>>,
    same: Seq<Seq<FloatEq>>,
    crowd: Seq<Seq<FloatOrdering>>,
) -> Seq<SiteView<P>> {
    survivors(same, crowd, sites.len()).map_values(|h: int| merged_site(sites, same, h))
}

/// The marks after the points before `now` have been handled: those points,
/// and the later ones that their groups hold.
pub open spec fn marks(same: Seq<Seq<FloatEq>>, n: int, now: int) -> Seq<bool> {
    Seq::new(n as nat, |i: int| i < now || is_claimed(same, i, now))
}

impl<P: Copy> MultiCoordPoint<P> {
    pub fn new(point: P, atom_ids: Vec<usize>) -> (r: Self)
        ensures
            r.point == point,
            r.atom_ids == atom_ids,
    {
        MultiCoordPoint { point, atom_ids }
    }

    /// The coordination number: how many atoms anchor the site.
    pub fn cn(&self) -> (r: usize)
        ensures
            r == self@.atom_ids.len(),
    {
        self.atom_ids.len()
    }

    pub fn atom_ids(&self) -> (r: &[usize])
        ensures
            r@ == self@.atom_ids,
    {
        self.atom_ids.as_slice()
    }

    pub fn point(&self) -> (r: P)
        ensures
            r == self.point,
    {
        self.point
    }

    /// A second record of the same site.
    pub fn duplicate(&self) -> (r: Self)
        ensures
            r@ == self@,
    {
        let ids = self.atom_ids.clone();
        assert(ids@ =~= self.atom_ids@);
        MultiCoordPoint { point: self.point, atom_ids: ids }
    }

    /// Merges two sites that are one point (`same` is what the comparison of
    /// the two points gave): the merged site keeps the point of `self` and is
    /// anchored on the atoms of both, sorted, each once. Sites at different
    /// points do not merge.
    pub fn merge_with(&self, rhs: &Self, same: FloatEq) -> (r: Option<Self>)
        ensures
            same == FloatEq::NotEq ==> r.is_none(),
            same == FloatEq::Eq ==> r.is_some() && r.unwrap().point == self.point && lists(
                r.unwrap().atom_ids@,
                joined(self.atom_ids@, rhs.atom_ids@),
            ),
    {
        match same {
            FloatEq::Eq => {
                let ids = sorted_union(&self.atom_ids, &rhs.atom_ids);
                Some(MultiCoordPoint { point: self.point, atom_ids: ids })
            },
            FloatEq::NotEq => None,
        }
    }

    /// Keeps the site unless an atom is closer to it than the bond length.
    /// `neighbour_orders` holds, for each atom around the point, how its
    /// distance compares with the bond length.
    pub fn no_closer_atoms(self, neighbour_orders: &Vec<FloatOrdering>) -> (r: Option<Self>)
        ensures
            has_closer(neighbour_orders@) ==> r.is_none(),
            !has_closer(neighbour_orders@) ==> r == Some(self),
    {
        if any_closer(neighbour_orders) {
            None
        } else {
            Some(self)
        }
    }

    /// Merges the points that are one point and drops the sites with an atom
    /// closer than the bond length.
    pub fn dedup_points(
        points: &[Self],
        same: &Vec<Vec<FloatEq>>,
        neighbour_orders: &Vec<Vec<FloatOrdering>>,
    ) -> (out: Vec<Self>)
        requires
            is_square(rows(same@), points@.len()),
            neighbour_orders@.len() == points@.len(),
        ensures
            sites_of(out@) == dedup_spec(sites_of(points@), rows(same@), rows(neighbour_orders@)),
    {
        let n = points.len();
        let ghost sites = sites_of(points@);
        let ghost eqs = rows(same@);
        let ghost crowd = rows(neighbour_orders@);
        let mut visited: Vec<bool> = Vec::new();
        let mut k: usize = 0;
        while k < n
            invariant
                k <= n,
                visited@.len() == k,
                forall|i: int| 0 <= i < k ==> !visited@[i],
            decreases n - k,
        {
            visited.push(false);
            k = k + 1;
        }
        assert(visited@ =~= marks(eqs, n as int, 0));
        let mut out: Vec<Self> = Vec::new();
        assert(sites_of(out@) =~= survivors(eqs, crowd, 0).map_values(
            |h: int| merged_site(sites, eqs, h),
        ));
        let mut now: usize = 0;
        while now < n
            invariant
                now <= n,
                n == points@.len(),
                sites == sites_of(points@),
                eqs == rows(same@),
                crowd == rows(neighbour_orders@),
                is_square(eqs, n as nat),
                neighbour_orders@.len() == n,
                visited@ == marks(eqs, n as int, now as int),
                sites_of(out@) == survivors(eqs, crowd, now as nat).map_values(
                    |h: int| merged_site(sites, eqs, h),
                ),
            decreases n - now,
        {
            let ghost before = sites_of(out@);
            let found = Self::look_for_same_points(now, points, same, &mut visited);
            match found {
                Some(site) => {
                    let kept = site.no_closer_atoms(&neighbour_orders[now]);
                    assert(crowd[now as int] == neighbour_orders@[now as int]@);
                    match kept {
                        Some(site) => {
                            out.push(site);
                            assert(sites_of(out@) =~= before.push(site@));
                            assert(survivors(eqs, crowd, (now + 1) as nat).map_values(
                                |h: int| merged_site(sites, eqs, h),
                            ) =~= before.push(merged_site(sites, eqs, now as int)));
                        },
                        None => {},
                    }
                },
                None => {},
            }
            now = now + 1;
        }
        out
    }

    /// Handles point `now`: where no earlier group holds it, marks it and all
    /// it gathers, and gives the site of its group.
    fn look_for_same_points(
        now: usize,
        points: &[Self],
        same: &Vec<Vec<FloatEq>>,
        visited: &mut Vec<bool>,
    ) -> (r: Option<Self>)
        requires
            now < points@.len(),
            is_square(rows(same@), points@.len()),
            old(visited)@ == marks(rows(same@), points@.len() as int, now as int),
        ensures
            final(visited)@ == marks(rows(same@), points@.len() as int, now + 1),
            is_head(rows(same@), now as int) <==> r.is_some(),
            r.is_some() ==> r.unwrap()@ == merged_site(
                sites_of(points@),
                rows(same@),
                now as int,
            ),
    {
        let n = points.len();
        let ghost sites = sites_of(points@);
        let ghost eqs = rows(same@);
        let ghost h = now as int;
        proof {
            lemma_marks_at(eqs, n as int, h);
        }
        if visited[now] {
            proof {
                lemma_marks_step(eqs, n as int, h);
            }
            return None;
        }
        visited[now] = true;
        let curr = &points[now];
        let mut gathered: Vec<usize> = Vec::new();
        let mut found = false;
        let mut j: usize = 0;
        while j < n
            invariant
                j <= n,
                n == points@.len(),
                now < n,
                h == now as int,
                sites == sites_of(points@),
                eqs == rows(same@),
                is_square(eqs, n as nat),
                is_head(eqs, h),
                curr == points@[h],
                visited@.len() == n,
                forall|i: int|
                    0 <= i < j ==> #[trigger] visited@[i] == (i < h + 1 || is_claimed(
                        eqs,
                        i,
                        h + 1,
                    )),
                forall|i: int|
                    j <= i < n ==> #[trigger] visited@[i] == (i <= h || is_claimed(eqs, i, h)),
                !found ==> forall|i: int| h < i < j ==> !joins(eqs, h, i),
                found ==> exists|i: int| h < i < j && joins(eqs, h, i),
                found ==> lists(gathered@, gathered_ids(sites, eqs, h, j as int)),
            decreases n - j,
        {
            let ghost jj = j as int;
            let ghost seen = visited@;
            assert(eqs[h][jj] == same@[h]@[jj]);
            proof {
                lemma_claim_step(eqs, jj, h);
            }
            if !visited[j] {
                match same[now][j] {
                    FloatEq::Eq => {
                        assert(joins(eqs, h, jj));
                        let other = &points[j];
                        assert(sites[jj].atom_ids == other.atom_ids@);
                        assert(sites[h].atom_ids == curr.atom_ids@);
                        if found {
                            let ghost before = gathered@;
                            insert_all(&mut gathered, &other.atom_ids);
                            assert(gathered@.to_set() =~= gathered_ids(sites, eqs, h, jj + 1)) by {
                                assert forall|x: usize|
                                    gathered_ids(sites, eqs, h, jj + 1).contains(x) implies joined(
                                    before,
                                    other.atom_ids@,
                                ).contains(x) by {
                                    if !sites[h].atom_ids.contains(x) {
                                        let i = choose|i: int|
                                            h < i < jj + 1 && #[trigger] joins(eqs, h, i)
                                                && sites[i].atom_ids.contains(x);
                                        if i < jj {
                                            assert(gathered_ids(sites, eqs, h, jj).contains(x));
                                        }
                                    } else {
                                        assert(gathered_ids(sites, eqs, h, jj).contains(x));
                                    }
                                }
                                assert forall|x: usize|
                                    joined(before, other.atom_ids@).contains(
                                        x,
                                    ) implies gathered_ids(sites, eqs, h, jj + 1).contains(x) by {
                                    if before.to_set().contains(x) {
                                        assert(gathered_ids(sites, eqs, h, jj).contains(x));
                                    }
                                }
                            }
                        } else {
                            gathered = sorted_union(&curr.atom_ids, &other.atom_ids);
                            found = true;
                            assert(gathered@.to_set() =~= gathered_ids(sites, eqs, h, jj + 1)) by {
                                assert forall|x: usize|
                                    gathered_ids(sites, eqs, h, jj + 1).contains(x) implies joined(
                                    curr.atom_ids@,
                                    other.atom_ids@,
                                ).contains(x) by {
                                    if !sites[h].atom_ids.contains(x) {
                                        let i = choose|i: int|
                                            h < i < jj + 1 && #[trigger] joins(eqs, h, i)
                                                && sites[i].atom_ids.contains(x);
                                        assert(i == jj);
                                    }
                                }
                            }
                        }
                        visited[j] = true;
                    },
                    FloatEq::NotEq => {
                        assert(!joins(eqs, h, jj));
                        proof {
                            if found {
                                assert(gathered_ids(sites, eqs, h, jj + 1) =~= gathered_ids(
                                    sites,
                                    eqs,
                                    h,
                                    jj,
                                ));
                            }
                        }
                    },
                }
            } else {
                assert(!joins(eqs, h, jj));
                proof {
                    if found {
                        assert(gathered_ids(sites, eqs, h, jj + 1) =~= gathered_ids(
                            sites,
                            eqs,
                            h,
                            jj,
                        ));
                    }
                }
            }
            assert(forall|i: int| jj < i < n ==> #[trigger] visited@[i] == seen[i]);
            j = j + 1;
        }
        assert(visited@ =~= marks(eqs, n as int, h + 1));
        let ids = if found {
            proof {
                lemma_listing_is(gathered@, gathered_ids(sites, eqs, h, n as int));
            }
            gathered
        } else {
            let copy = curr.atom_ids.clone();
            assert(copy@ =~= curr.atom_ids@);
            copy
        };
        Some(MultiCoordPoint { point: curr.point, atom_ids: ids })
    }
}

/// At `now`, the mark of point `now` tells whether an earlier group holds it.
proof fn lemma_marks_at(same: Seq<Seq<FloatEq>>, n: int, now: int)
    requires
        0 <= now < n,
    ensures
        marks(same, n, now)[now] == !is_head(same, now),
{
    assert(is_claimed(same, now, now) == !is_head(same, now));
}

/// A point that opens no group leaves the marks as they are.
proof fn lemma_marks_step(same: Seq<Seq<FloatEq>>, n: int, now: int)
    requires
        0 <= now < n,
        !is_head(same, now),
    ensures
        marks(same, n, now) == marks(same, n, now + 1),
{
    lemma_marks_at(same, n, now);
    assert forall|i: int| 0 <= i < n implies marks(same, n, now)[i] == marks(same, n, now + 1)[i] by {
        lemma_claim_step(same, i, now);
    }
    assert(marks(same, n, now) =~= marks(same, n, now + 1));
}

/// The groups of the heads up to and with `h` hold `i` exactly when those
/// before `h` do, or `h` is a head before `i` and the same point as `i`.
proof fn lemma_claim_step(same: Seq<Seq<FloatEq>>, i: int, h: int)
    requires
        0 <= h,
    ensures
        is_claimed(same, i, h + 1) == (is_claimed(same, i, h) || (h < i && is_head(same, h)
            && same[h][i] == FloatEq::Eq)),
{
    if is_claimed(same, i, h + 1) {
        let w = choose|w: int|
            0 <= w < h + 1 && w < i && is_head(same, w) && #[trigger] same[w][i] == FloatEq::Eq;
        if w < h {
            assert(is_claimed(same, i, h));
        }
    }
    if is_claimed(same, i, h) {
        let w = choose|w: int|
            0 <= w < h && w < i && is_head(same, w) && #[trigger] same[w][i] == FloatEq::Eq;
        assert(0 <= w < h + 1 && w < i && is_head(same, w) && same[w][i] == FloatEq::Eq);
    }
    if h < i && is_head(same, h) && same[h][i] == FloatEq::Eq {
        assert(is_claimed(same, i, h + 1));
    }
}

/// The surviving heads below `upto` are listed in increasing order, each is a
/// head with no atom closer than the bond length, and none is left out.
pub proof fn lemma_survivors(same: Seq<Seq<FloatEq>>, crowd: Seq<Seq<FloatOrdering>>, upto: nat)
    ensures
        survivors(same, crowd, upto).len() <= upto,
        forall|k: int|
            0 <= k < survivors(same, crowd, upto).len() ==> 0 <= (#[trigger] survivors(
                same,
                crowd,
                upto,
            )[k]) < upto && survives(same, crowd, survivors(same, crowd, upto)[k]),
        forall|a: int, b: int|
            0 <= a < b < survivors(same, crowd, upto).len() ==> survivors(same, crowd, upto)[a]
                < survivors(same, crowd, upto)[b],
        forall|h: int|
            0 <= h < upto && survives(same, crowd, h) ==> survivors(same, crowd, upto).contains(h),
    decreases upto,
{
    if upto > 0 {
        let rest = survivors(same, crowd, (upto - 1) as nat);
        lemma_survivors(same, crowd, (upto - 1) as nat);
        let all = survivors(same, crowd, upto);
        assert forall|h: int| 0 <= h < upto && survives(same, crowd, h) implies all.contains(
            h,
        ) by {
            if h < upto - 1 {
                let k = choose|k: int| 0 <= k < rest.len() && rest[k] == h;
                assert(all[k] == h);
            } else {
                assert(all[rest.len() as int] == h);
            }
        }
    }
}

/// What stands in a deduplicated list: site `k` is at the point of a head of
/// the input, that head has no atom closer than the bond length, and the
/// site's atoms are those of the head's group.
pub proof fn lemma_dedup_sites<P>(
    sites: Seq<SiteView<P>>,
    same: Seq<Seq<FloatEq>>,
    crowd: Seq<Seq<FloatOrdering>>,
    k: int,
)
    requires
        0 <= k < dedup_spec(sites, same, crowd).len(),
    ensures
        ({
            let h = survivors(same, crowd, sites.len())[k];
            &&& 0 <= h < sites.len()
            &&& is_head(same, h)
            &&& !has_closer(crowd[h])
            &&& dedup_spec(sites, same, crowd)[k].point == sites[h].point
            &&& dedup_spec(sites, same, crowd)[k].atom_ids.to_set() == gathered_ids(
                sites,
                same,
                h,
                sites.len() as int,
            )
        }),
{
    lemma_survivors(same, crowd, sites.len());
    let h = survivors(same, crowd, sites.len())[k];
    let n = sites.len() as int;
    let all = gathered_ids(sites, same, h, n);
    if stands_alone(same, h, n) {
        assert(sites[h].atom_ids.to_set() =~= all);
    } else {
        lemma_listing_exists(all);
    }
}

/// Deduplication keeps the lists of atoms increasing: where every site that
/// goes in has a strictly increasing list, so has every site that comes out.
pub proof fn lemma_dedup_ascending<P>(
    sites: Seq<SiteView<P>>,
    same: Seq<Seq<FloatEq>>,
    crowd: Seq<Seq<FloatOrdering>>,
)
    requires
        forall|i: int| 0 <= i < sites.len() ==> ascending((#[trigger] sites[i]).atom_ids),
    ensures
        forall|k: int|
            0 <= k < dedup_spec(sites, same, crowd).len() ==> ascending(
                (#[trigger] dedup_spec(sites, same, crowd)[k]).atom_ids,
            ),
{
    let out = dedup_spec(sites, same, crowd);
    lemma_survivors(same, crowd, sites.len());
    assert forall|k: int| 0 <= k < out.len() implies ascending((#[trigger] out[k]).atom_ids) by {
        let h = survivors(same, crowd, sites.len())[k];
        let n = sites.len() as int;
        if stands_alone(same, h, n) {
            assert(out[k].atom_ids == sites[h].atom_ids);
        } else {
            lemma_listing_exists(gathered_ids(sites, same, h, n));
        }
    }
}

/// Where every head survives and no two points are the same point, the
/// survivors are all the points.
proof fn lemma_all_survive(same: Seq<Seq<FloatEq>>, crowd: Seq<Seq<FloatOrdering>>, upto: nat)
    requires
        forall|a: int| 0 <= a < upto ==> survives(same, crowd, a),
    ensures
        survivors(same, crowd, upto) == Seq::new(upto, |i: int| i),
    decreases upto,
{
    if upto > 0 {
        lemma_all_survive(same, crowd, (upto - 1) as nat);
    }
    assert(survivors(same, crowd, upto) =~= Seq::new(upto, |i: int| i));
}

/// Deduplication is idempotent: a list that came out of it goes through it
/// unchanged. `same` and `crowd` are the comparisons of the first pass;
/// `again` and `crowd_again` are those of the second pass, taken on the sites
/// that the first pass gave, so that two sites compare as the heads did that
/// they came from, and a site has an atom closer than the bond length exactly
/// when its head had one.
pub proof fn lemma_dedup_idempotent<P>(
    sites: Seq<SiteView<P>>,
    same: Seq<Seq<FloatEq>>,
    crowd: Seq<Seq<FloatOrdering>>,
    again: Seq<Seq<FloatEq>>,
    crowd_again: Seq<Seq<FloatOrdering>>,
)
    requires
        ({
            let heads = survivors(same, crowd, sites.len());
            &&& forall|a: int, b: int|
                0 <= a < b < heads.len() ==> again[a][b] == same[heads[a]][heads[b]]
            &&& forall|a: int|
                0 <= a < heads.len() ==> has_closer(crowd_again[a]) == has_closer(crowd[heads[a]])
        }),
    ensures
        dedup_spec(dedup_spec(sites, same, crowd), again, crowd_again) == dedup_spec(
            sites,
            same,
            crowd,
        ),
{
    let heads = survivors(same, crowd, sites.len());
    let out = dedup_spec(sites, same, crowd);
    let m = out.len();
    lemma_survivors(same, crowd, sites.len());
    assert forall|a: int| 0 <= a < m implies survives(again, crowd_again, a) by {
        assert(survives(same, crowd, heads[a]));
        assert forall|h: int| 0 <= h < a && is_head(again, h) implies #[trigger] again[h][a]
            != FloatEq::Eq by {
            assert(survives(same, crowd, heads[h]));
            assert(heads[h] < heads[a]);
            assert(same[heads[h]][heads[a]] != FloatEq::Eq);
        }
    }
    lemma_all_survive(again, crowd_again, m);
    let twice = dedup_spec(out, again, crowd_again);
    assert forall|a: int| 0 <= a < m implies twice[a] == out[a] by {
        assert forall|i: int| a < i < m implies !#[trigger] joins(again, a, i) by {
            assert(survives(same, crowd, heads[a]));
            assert(survives(same, crowd, heads[i]));
            assert(heads[a] < heads[i]);
            assert(same[heads[a]][heads[i]] != FloatEq::Eq);
        }
        assert(stands_alone(again, a, m as int));
    }
    assert(twice =~= out);
}

impl<P: Copy, const N: usize> DelegatePoint<P, N> {
    pub fn new(point: P, atom_ids: [usize; N]) -> (r: Self)
        ensures
            r.point == point,
            r.atom_ids == atom_ids,
    {
        DelegatePoint { point, atom_ids }
    }

    pub fn point(&self) -> (r: P)
        ensures
            r == self.point,
    {
        self.point
    }

    pub fn atom_ids(&self) -> (r: &[usize])
        ensures
            r@ == self@.atom_ids,
    {
        self.atom_ids.as_slice()
    }
}

} // verus!
