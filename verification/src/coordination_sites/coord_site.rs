//! The names under which the sites are written out.

use vstd::prelude::*;
use vstd::string::*;
use crate::coordination_sites::coord_circle::CoordCircle;
use crate::coordination_sites::coord_point::{DelegatePoint, MultiCoordPoint};
use crate::coordination_sites::coord_sphere::CoordSphere;

verus! {

/// A site that can say of which class it is and which atoms anchor it.
pub trait CoordSite {
    /// The class and the atoms of the site, joined with underscores.
    spec fn message(&self) -> Seq<char>;

    /// The class of the site.
    spec fn class(&self) -> Seq<char>;

    fn connecting_atoms_msg(&self) -> (r: String)
        ensures
            r@ == self.message(),
    ;

    fn site_type(&self) -> (r: String)
        ensures
            r@ == self.class(),
    ;
}

/// The ten digits.
pub open spec fn digits() -> Seq<char> {
    seq!['0', '1', '2', '3', '4', '5', '6', '7', '8', '9']
}

/// The number in decimal, without leading zeros.
pub open spec fn decimal(n: nat) -> Seq<char>
    decreases n,
{
    if n < 10 {
        seq![digits()[n as int]]
    } else {
        decimal(n / 10).push(digits()[(n % 10) as int])
    }
}

/// The numbers in decimal with an underscore between each two.
pub open spec fn joined_ids(ids: Seq<usize>) -> Seq<char>
    decreases ids.len(),
{
    if ids.len() == 0 {
        Seq::empty()
    } else if ids.len() == 1 {
        decimal(ids[0] as nat)
    } else {
        joined_ids(ids.drop_last()) + seq!['_'] + decimal(ids.last() as nat)
    }
}

/// The digit `d` as a string.
pub fn digit_str(d: usize) -> (r: &'static str)
    requires
        d < 10,
    ensures
        r@ == seq![digits()[d as int]],
{
    proof {
        reveal_strlit("0");
        reveal_strlit("1");
        reveal_strlit("2");
        reveal_strlit("3");
        reveal_strlit("4");
        reveal_strlit("5");
        reveal_strlit("6");
        reveal_strlit("7");
        reveal_strlit("8");
        reveal_strlit("9");
    }
    let r = if d == 0 {
        "0"
    } else if d == 1 {
        "1"
    } else if d == 2 {
        "2"
    } else if d == 3 {
        "3"
    } else if d == 4 {
        "4"
    } else if d == 5 {
        "5"
    } else if d == 6 {
        "6"
    } else if d == 7 {
        "7"
    } else if d == 8 {
        "8"
    } else {
        "9"
    };
    assert(r@ =~= seq![digits()[d as int]]);
    r
}

/// Writes `n` in decimal at the end of `out`.
pub fn push_decimal(out: &mut String, n: usize)
    ensures
        final(out)@ == old(out)@ + decimal(n as nat),
    decreases n,
{
    if n < 10 {
        out.append(digit_str(n));
    } else {
        let ghost before = out@;
        push_decimal(out, n / 10);
        out.append(digit_str(n % 10));
        assert(out@ =~= before + decimal(n as nat));
    }
}

/// Writes the numbers of `ids` at the end of `out`, with an underscore
/// between each two.
pub fn push_joined(out: &mut String, ids: &[usize])
    ensures
        final(out)@ == old(out)@ + joined_ids(ids@),
{
    proof {
        reveal_strlit("_");
    }
    let ghost before = out@;
    let mut i: usize = 0;
    assert(ids@.take(0) =~= Seq::empty());
    assert(out@ =~= before + joined_ids(ids@.take(0)));
    while i < ids.len()
        invariant
            i <= ids.len(),
            "_"@ == seq!['_'],
            out@ == before + joined_ids(ids@.take(i as int)),
        decreases ids.len() - i,
    {
        let ghost head = ids@.take(i as int);
        let ghost next = ids@.take(i + 1);
        proof {
            assert(next.drop_last() =~= head);
            assert(next.last() == ids@[i as int]);
        }
        if i > 0 {
            out.append("_");
        }
        push_decimal(out, ids[i]);
        proof {
            if i == 0 {
                assert(head =~= Seq::empty());
                assert(out@ =~= before + joined_ids(next));
            } else {
                assert(out@ =~= before + joined_ids(next));
            }
        }
        i = i + 1;
    }
    assert(ids@.take(ids.len() as int) =~= ids@);
}

impl<C: Copy> CoordSite for CoordCircle<C> {
    open spec fn message(&self) -> Seq<char> {
        "double_"@ + joined_ids(self.atom_ids@)
    }

    open spec fn class(&self) -> Seq<char> {
        "double"@
    }

    fn connecting_atoms_msg(&self) -> (r: String) {
        let mut out = String::from_str("double_");
        push_joined(&mut out, self.atom_ids.as_slice());
        out
    }

    fn site_type(&self) -> (r: String) {
        String::from_str("double")
    }
}

impl<S: Copy> CoordSite for CoordSphere<S> {
    open spec fn message(&self) -> Seq<char> {
        "single_"@ + decimal(self.atom_id as nat)
    }

    open spec fn class(&self) -> Seq<char> {
        "single"@
    }

    fn connecting_atoms_msg(&self) -> (r: String) {
        let mut out = String::from_str("single_");
        push_decimal(&mut out, self.atom_id);
        out
    }

    fn site_type(&self) -> (r: String) {
        String::from_str("single")
    }
}

impl<P: Copy> CoordSite for MultiCoordPoint<P> {
    open spec fn message(&self) -> Seq<char> {
        "multi_cn_"@ + decimal(self.atom_ids@.len()) + "_"@ + joined_ids(self.atom_ids@)
    }

    open spec fn class(&self) -> Seq<char> {
        "multi"@
    }

    fn connecting_atoms_msg(&self) -> (r: String) {
        let mut out = String::from_str("multi_cn_");
        push_decimal(&mut out, self.atom_ids.len());
        out.append("_");
        push_joined(&mut out, self.atom_ids.as_slice());
        out
    }

    fn site_type(&self) -> (r: String) {
        String::from_str("multi")
    }
}

impl<P: Copy> CoordSite for DelegatePoint<P, 1> {
    open spec fn message(&self) -> Seq<char> {
        "single_"@ + joined_ids(self.atom_ids@)
    }

    open spec fn class(&self) -> Seq<char> {
        "single"@
    }

    fn connecting_atoms_msg(&self) -> (r: String) {
        let mut out = String::from_str("single_");
        push_joined(&mut out, self.atom_ids.as_slice());
        out
    }

    fn site_type(&self) -> (r: String) {
        String::from_str("single")
    }
}

impl<P: Copy> CoordSite for DelegatePoint<P, 2> {
    open spec fn message(&self) -> Seq<char> {
        "double_"@ + joined_ids(self.atom_ids@)
    }

    open spec fn class(&self) -> Seq<char> {
        "double"@
    }

    fn connecting_atoms_msg(&self) -> (r: String) {
        let mut out = String::from_str("double_");
        push_joined(&mut out, self.atom_ids.as_slice());
        out
    }

    fn site_type(&self) -> (r: String) {
        String::from_str("double")
    }
}

} // verus!
