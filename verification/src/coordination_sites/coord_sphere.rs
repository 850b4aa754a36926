//! The sphere of one atom.

use vstd::prelude::*;

verus! {

/// The sphere of radius one bond length round the atom `atom_id`.
#[derive(Debug, Clone, Copy, PartialEq)]
pub struct CoordSphere<S> {
    pub sphere: S,
    pub atom_id: usize,
}

impl<S: Copy> CoordSphere<S> {
    pub fn new(sphere: S, atom_id: usize) -> (r: Self)
        ensures
            r == (CoordSphere { sphere, atom_id }),
    {
        CoordSphere { sphere, atom_id }
    }

    pub fn atom_id(&self) -> (r: usize)
        ensures
            r == self.atom_id,
    {
        self.atom_id
    }

    pub fn sphere(&self) -> (r: S)
        ensures
            r == self.sphere,
    {
        self.sphere
    }
}

} // verus!
