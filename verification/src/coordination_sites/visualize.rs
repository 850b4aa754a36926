//! The element that a site is drawn with.

use vstd::prelude::*;
use castep_periodic_table::element::ElementSymbol;
use crate::coordination_sites::coord_circle::CoordCircle;
use crate::coordination_sites::coord_point::{DelegatePoint, MultiCoordPoint};
use crate::coordination_sites::coord_sphere::CoordSphere;

verus! {

/// `ElementSymbol` of castep_periodic_table, the symbol of an element, taken
/// as a value of which nothing is known but what the functions below say.
#[verifier::external_type_specification]
#[verifier::external_body]
pub struct ExElementSymbol(ElementSymbol);

/// The symbol that the periodic table gives for a number, where it gives one.
pub uninterp spec fn symbol_by_number(n: u8) -> Option<ElementSymbol>;

/// The symbols that the sites are drawn with whatever their atoms are.
#[derive(Debug, Clone, Copy, PartialEq, Eq, Structural)]
pub enum Marker {
    Xenon,
    Neon,
    Tungsten,
    Neptunium,
}

impl Marker {
    /// The number of the marker in the periodic table.
    pub open spec fn number(self) -> u8 {
        match self {
            Marker::Xenon => 54,
            Marker::Neon => 10,
            Marker::Tungsten => 74,
            Marker::Neptunium => 93,
        }
    }

    /// The symbol of the marker.
    pub open spec fn symbol(self) -> ElementSymbol {
        symbol_by_number(self.number())->Some_0
    }
}

/// The symbol for a coordination number: the element with that number where
/// the table has one, tungsten where it has none, and neptunium from 104 on.
pub open spec fn cn_symbol(cn: nat) -> ElementSymbol {
    if cn < 104 {
        match symbol_by_number(cn as u8) {
            Some(symbol) => symbol,
            None => Marker::Tungsten.symbol(),
        }
    } else {
        Marker::Neptunium.symbol()
    }
}

/// `ElementSymbol::try_from` of castep_periodic_table on a `u8`: the symbol
/// that the table of the crate gives for the number. The table has a symbol
/// for 0 and for the numbers from 2 to 103, and for no other number.
#[verifier::external_body]
fn try_symbol(n: u8) -> (r: Option<ElementSymbol>)
    ensures
        r == symbol_by_number(n),
        r is Some <==> (n == 0 || (2 <= n && n <= 103)),
{
    ElementSymbol::try_from(n).ok()
}

/// The variants `Xe`, `Ne`, `W` and `Np` of `ElementSymbol` of
/// castep_periodic_table: each is the symbol that `try_from` gives for the
/// number of the marker.
#[verifier::external_body]
fn marker_symbol(marker: Marker) -> (r: ElementSymbol)
    ensures
        symbol_by_number(marker.number()) == Some(r),
{
    match marker {
        Marker::Xenon => ElementSymbol::Xe,
        Marker::Neon => ElementSymbol::Ne,
        Marker::Tungsten => ElementSymbol::W,
        Marker::Neptunium => ElementSymbol::Np,
    }
}

/// The symbol for a coordination number.
pub fn symbol_for_cn(cn: usize) -> (r: ElementSymbol)
    ensures
        r == cn_symbol(cn as nat),
        cn == 1 || cn >= 104 || symbol_by_number(cn as u8) == Some(r),
        cn == 1 ==> r == Marker::Tungsten.symbol(),
        cn >= 104 ==> r == Marker::Neptunium.symbol(),
{
    if cn < 104 {
        match try_symbol(cn as u8) {
            Some(symbol) => symbol,
            None => marker_symbol(Marker::Tungsten),
        }
    } else {
        marker_symbol(Marker::Neptunium)
    }
}

/// A site that suggests an element to be drawn with.
pub trait Visualize {
    /// The suggested symbol.
    spec fn suggested(&self) -> ElementSymbol;

    fn element_by_cn_number(&self) -> (r: ElementSymbol)
        ensures
            r == self.suggested(),
    ;
}

impl<S: Copy> Visualize for CoordSphere<S> {
    open spec fn suggested(&self) -> ElementSymbol {
        Marker::Xenon.symbol()
    }

    fn element_by_cn_number(&self) -> (r: ElementSymbol) {
        marker_symbol(Marker::Xenon)
    }
}

impl<C: Copy> Visualize for CoordCircle<C> {
    open spec fn suggested(&self) -> ElementSymbol {
        Marker::Neon.symbol()
    }

    fn element_by_cn_number(&self) -> (r: ElementSymbol) {
        marker_symbol(Marker::Neon)
    }
}

impl<P: Copy> Visualize for MultiCoordPoint<P> {
    open spec fn suggested(&self) -> ElementSymbol {
        cn_symbol(self.atom_ids@.len())
    }

    fn element_by_cn_number(&self) -> (r: ElementSymbol) {
        symbol_for_cn(self.atom_ids.len())
    }
}

impl<P: Copy, const N: usize> Visualize for DelegatePoint<P, N> {
    open spec fn suggested(&self) -> ElementSymbol {
        Marker::Xenon.symbol()
    }

    fn element_by_cn_number(&self) -> (r: ElementSymbol) {
        marker_symbol(Marker::Xenon)
    }
}

} // verus!
