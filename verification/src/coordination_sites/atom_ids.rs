//! Lists of atom indices: the identity of a site.

use vstd::prelude::*;

verus! {

/// The list is strictly increasing, so nothing occurs in it twice.
pub open spec fn ascending(ids: Seq<usize>) -> bool {
    forall|i: int, j: int| 0 <= i < j < ids.len() ==> ids[i] < ids[j]
}

/// `ids` lists exactly the atoms in `members`, each once, in increasing order.
pub open spec fn lists(ids: Seq<usize>, members: Set<usize>) -> bool {
    ascending(ids) && ids.to_set() == members
}

/// The increasing list of the atoms in `members`.
pub open spec fn listing(members: Set<usize>) -> Seq<usize> {
    choose|ids: Seq<usize>| lists(ids, members)
}

/// The atoms that occur in one list or the other.
pub open spec fn joined(a: Seq<usize>, b: Seq<usize>) -> Set<usize> {
    a.to_set().union(b.to_set())
}

/// The three indices in non-decreasing order.
pub open spec fn sorted_three(a: usize, b: usize, c: usize) -> Seq<usize> {
    if a <= b {
        if b <= c {
            seq![a, b, c]
        } else if a <= c {
            seq![a, c, b]
        } else {
            seq![c, a, b]
        }
    } else {
        if a <= c {
            seq![b, a, c]
        } else if b <= c {
            seq![b, c, a]
        } else {
            seq![c, b, a]
        }
    }
}

/// An increasing list is determined by the atoms in it: two increasing lists
/// of the same atoms are one list.
pub proof fn lemma_ascending_unique(a: Seq<usize>, b: Seq<usize>)
    requires
        ascending(a),
        ascending(b),
        a.to_set() == b.to_set(),
    ensures
        a == b,
    decreases a.len(),
{
    if a.len() == 0 {
        if b.len() > 0 {
            assert(b.to_set().contains(b[0]));
            assert(a.to_set().contains(b[0]));
        }
        assert(a =~= b);
    } else {
        let x = a.last();
        assert(a.to_set().contains(x));
        assert(b.to_set().contains(x));
        let k = choose|k: int| 0 <= k < b.len() && b[k] == x;
        let y = b.last();
        assert(b.to_set().contains(y));
        assert(a.to_set().contains(y));
        let m = choose|m: int| 0 <= m < a.len() && a[m] == y;
        assert(x == y);
        let a0 = a.drop_last();
        let b0 = b.drop_last();
        assert forall|v: usize| a0.to_set().contains(v) <==> b0.to_set().contains(v) by {
            if a0.to_set().contains(v) {
                let i = choose|i: int| 0 <= i < a0.len() && a0[i] == v;
                assert(a[i] == v);
                assert(a.to_set().contains(v));
                assert(b.to_set().contains(v));
                let j = choose|j: int| 0 <= j < b.len() && b[j] == v;
                assert(v < x);
                assert(j < b.len() - 1);
                assert(b0[j] == v);
            }
            if b0.to_set().contains(v) {
                let i = choose|i: int| 0 <= i < b0.len() && b0[i] == v;
                assert(b[i] == v);
                assert(b.to_set().contains(v));
                assert(a.to_set().contains(v));
                let j = choose|j: int| 0 <= j < a.len() && a[j] == v;
                assert(v < y);
                assert(j < a.len() - 1);
                assert(a0[j] == v);
            }
        }
        assert(a0.to_set() =~= b0.to_set());
        lemma_ascending_unique(a0, b0);
        assert(a =~= a0.push(x));
        assert(b =~= b0.push(y));
    }
}

/// The atoms of `members` below `bound` have an increasing list.
proof fn lemma_listing_below(members: Set<usize>, bound: nat) -> (ids: Seq<usize>)
    ensures
        lists(ids, members.filter(|x: usize| x < bound)),
    decreases bound,
{
    let low = members.filter(|x: usize| x < bound);
    if bound == 0 {
        let ids = Seq::<usize>::empty();
        assert(ids.to_set() =~= low);
        ids
    } else {
        let rest = lemma_listing_below(members, (bound - 1) as nat);
        let lower = members.filter(|x: usize| x < bound - 1);
        assert forall|k: int| 0 <= k < rest.len() implies rest[k] < bound - 1 by {
            assert(rest.to_set().contains(rest[k]));
            assert(lower.contains(rest[k]));
        }
        if bound - 1 <= usize::MAX && members.contains((bound - 1) as usize) {
            let top = (bound - 1) as usize;
            let ids = rest.push(top);
            assert forall|v: usize| ids.to_set().contains(v) <==> low.contains(v) by {
                if ids.to_set().contains(v) {
                    let k = choose|k: int| 0 <= k < ids.len() && ids[k] == v;
                    if k < rest.len() {
                        assert(rest.to_set().contains(v));
                        assert(lower.contains(v));
                    }
                }
                if low.contains(v) {
                    if v == top {
                        assert(ids[rest.len() as int] == v);
                    } else {
                        assert(lower.contains(v));
                        assert(rest.to_set().contains(v));
                        let k = choose|k: int| 0 <= k < rest.len() && rest[k] == v;
                        assert(ids[k] == v);
                    }
                }
            }
            assert(ids.to_set() =~= low);
            ids
        } else {
            assert(lower =~= low);
            rest
        }
    }
}

/// Every set of atoms has its increasing list.
pub proof fn lemma_listing_exists(members: Set<usize>)
    ensures
        lists(listing(members), members),
{
    let ids = lemma_listing_below(members, (usize::MAX + 1) as nat);
    assert(members.filter(|x: usize| x < (usize::MAX + 1) as nat) =~= members);
    assert(lists(ids, members));
}

/// Whatever increasing list of `members` one holds, it is `listing(members)`.
pub proof fn lemma_listing_is(ids: Seq<usize>, members: Set<usize>)
    requires
        lists(ids, members),
    ensures
        listing(members) == ids,
{
    let l = listing(members);
    assert(lists(l, members));
    lemma_ascending_unique(l, ids);
}

/// Puts `id` into an increasing list at its place, unless it is there.
pub fn insert_id(ids: &mut Vec<usize>, id: usize)
    requires
        ascending(old(ids)@),
    ensures
        ascending(final(ids)@),
        final(ids)@.to_set() == old(ids)@.to_set().insert(id),
{
    let ghost before = ids@;
    let mut at: usize = 0;
    while at < ids.len() && ids[at] < id
        invariant
            ids@ == before,
            at <= ids.len(),
            forall|k: int| 0 <= k < at ==> before[k] < id,
        decreases ids.len() - at,
    {
        at = at + 1;
    }
    if at < ids.len() && ids[at] == id {
        proof {
            assert(before.to_set().contains(id));
            assert(before.to_set() =~= before.to_set().insert(id));
        }
    } else {
        ids.insert(at, id);
        proof {
            let after = ids@;
            assert(after == before.insert(at as int, id));
            assert forall|i: int, j: int| 0 <= i < j < after.len() implies after[i] < after[j] by {
                if j < at {
                    assert(after[i] == before[i] && after[j] == before[j]);
                } else if j == at {
                    assert(after[i] == before[i]);
                } else if i < at {
                    assert(after[i] == before[i] && after[j] == before[j - 1]);
                    assert(id < before[at as int]);
                } else if i == at {
                    assert(after[j] == before[j - 1]);
                } else {
                    assert(after[i] == before[i - 1] && after[j] == before[j - 1]);
                }
            }
            assert forall|v: usize| after.to_set().contains(v) <==> before.to_set().insert(
                id,
            ).contains(v) by {
                if after.to_set().contains(v) {
                    let i = choose|i: int| 0 <= i < after.len() && after[i] == v;
                    if i < at {
                        assert(before[i] == v);
                    } else if i > at {
                        assert(before[i - 1] == v);
                    }
                }
                if before.to_set().contains(v) {
                    let i = choose|i: int| 0 <= i < before.len() && before[i] == v;
                    if i < at {
                        assert(after[i] == v);
                    } else {
                        assert(after[i + 1] == v);
                    }
                }
                if v == id {
                    assert(after[at as int] == v);
                }
            }
            assert(after.to_set() =~= before.to_set().insert(id));
        }
    }
}

/// Puts every index of `more` into the increasing list `ids`.
pub fn insert_all(ids: &mut Vec<usize>, more: &Vec<usize>)
    requires
        ascending(old(ids)@),
    ensures
        ascending(final(ids)@),
        final(ids)@.to_set() == joined(old(ids)@, more@),
{
    let ghost before = ids@;
    let mut i: usize = 0;
    while i < more.len()
        invariant
            i <= more.len(),
            ascending(ids@),
            ids@.to_set() == joined(before, more@.take(i as int)),
        decreases more.len() - i,
    {
        let ghost now = ids@;
        insert_id(ids, more[i]);
        proof {
            let head = more@.take(i as int);
            let next = more@.take(i + 1);
            assert(next =~= head.push(more@[i as int]));
            assert forall|v: usize| next.to_set().contains(v) <==> head.to_set().insert(
                more@[i as int],
            ).contains(v) by {
                if next.to_set().contains(v) {
                    let k = choose|k: int| 0 <= k < next.len() && next[k] == v;
                    if k < i {
                        assert(head[k] == v);
                    }
                }
                if head.to_set().contains(v) {
                    let k = choose|k: int| 0 <= k < head.len() && head[k] == v;
                    assert(next[k] == v);
                }
                if v == more@[i as int] {
                    assert(next[i as int] == v);
                }
            }
            assert(next.to_set() =~= head.to_set().insert(more@[i as int]));
            assert(ids@.to_set() =~= joined(before, next));
        }
        i = i + 1;
    }
    proof {
        assert(more@.take(more.len() as int) =~= more@);
    }
}

/// The increasing list of the atoms of two lists: their union, sorted, each
/// atom once.
pub fn sorted_union(a: &Vec<usize>, b: &Vec<usize>) -> (r: Vec<usize>)
    ensures
        lists(r@, joined(a@, b@)),
{
    let mut r: Vec<usize> = Vec::new();
    assert(r@.to_set() =~= Set::<usize>::empty());
    insert_all(&mut r, a);
    assert(r@.to_set() =~= a@.to_set());
    insert_all(&mut r, b);
    r
}

/// The three indices as a list in non-decreasing order.
pub fn sort_three(a: usize, b: usize, c: usize) -> (r: Vec<usize>)
    ensures
        r@ == sorted_three(a, b, c),
{
    let mut r: Vec<usize> = Vec::new();
    if a <= b {
        if b <= c {
            r.push(a);
            r.push(b);
            r.push(c);
        } else if a <= c {
            r.push(a);
            r.push(c);
            r.push(b);
        } else {
            r.push(c);
            r.push(a);
            r.push(b);
        }
    } else {
        if a <= c {
            r.push(b);
            r.push(a);
            r.push(c);
        } else if b <= c {
            r.push(b);
            r.push(c);
            r.push(a);
        } else {
            r.push(c);
            r.push(b);
            r.push(a);
        }
    }
    assert(r@ =~= sorted_three(a, b, c));
    r
}

/// Three different indices, sorted, make an increasing list of exactly those
/// three.
pub proof fn lemma_sorted_distinct(a: usize, b: usize, c: usize)
    ensures
        a != b && a != c && b != c ==> ascending(sorted_three(a, b, c)),
        sorted_three(a, b, c).to_set() == set![a, b, c],
        sorted_three(a, b, c).len() == 3,
{
    let t = sorted_three(a, b, c);
    assert forall|v: usize| t.to_set().contains(v) <==> set![a, b, c].contains(v) by {
        if t.to_set().contains(v) {
            let i = choose|i: int| 0 <= i < t.len() && t[i] == v;
            assert(i == 0 || i == 1 || i == 2);
        }
        if v == a || v == b || v == c {
            assert(t[0] == v || t[1] == v || t[2] == v);
        }
    }
    assert(t.to_set() =~= set![a, b, c]);
}

} // verus!
