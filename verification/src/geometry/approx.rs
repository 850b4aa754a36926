//! Outcomes of the comparisons under the absolute tolerance.

use vstd::prelude::*;

verus! {

/// How a first number stands to a second one when differences within the
/// tolerance count as none.
#[derive(Debug, Clone, Copy, PartialEq, Eq, Structural)]
pub enum FloatOrdering {
    Less,
    Equal,
    Greater,
}

/// Whether two points are the same point under the tolerance.
#[derive(Debug, Clone, Copy, PartialEq, Eq, Structural)]
pub enum FloatEq {
    NotEq,
    Eq,
}

/// An intersection of two shapes, as a tagged outcome.
pub trait Intersect<Rhs = Self> {
    type Output;

    fn intersect(&self, rhs: &Rhs) -> Self::Output;
}

impl FloatOrdering {
    /// The ordering of the same two numbers taken the other way round.
    pub open spec fn reversed(self) -> FloatOrdering {
        match self {
            FloatOrdering::Less => FloatOrdering::Greater,
            FloatOrdering::Equal => FloatOrdering::Equal,
            FloatOrdering::Greater => FloatOrdering::Less,
        }
    }
}

/// True when one of the orderings is `Less`: of the distances that were
/// compared with the bond length, one is strictly shorter.
pub open spec fn has_closer(orders: Seq<FloatOrdering>) -> bool {
    exists|i: int| 0 <= i < orders.len() && orders[i] == FloatOrdering::Less
}

/// Tells whether a list of orderings holds a `Less`.
pub fn any_closer(orders: &Vec<FloatOrdering>) -> (r: bool)
    ensures
        r == has_closer(orders@),
{
    let mut i: usize = 0;
    while i < orders.len()
        invariant
            i <= orders.len(),
            forall|k: int| 0 <= k < i ==> orders@[k] != FloatOrdering::Less,
        decreases orders.len() - i,
    {
        if orders[i] == FloatOrdering::Less {
            return true;
        }
        i = i + 1;
    }
    false
}

} // verus!
