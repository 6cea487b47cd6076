//! The public parameters of a proving session.

use vstd::prelude::*;

verus! {

/// What the protocol reads of the public parameters: for each length it
/// serves a vector of generators in either source group, and one basepoint
/// in either group.  The parameters are made elsewhere and never changed.
pub trait PublicParameters {
    /// The first source group.
    type G1;

    /// The second source group.
    type G2;

    /// The generators in `G1` for vectors of length `len`.
    spec fn gamma1(&self, len: nat) -> Seq<Self::G1>;

    /// The generators in `G2` for vectors of length `len`.
    spec fn gamma2(&self, len: nat) -> Seq<Self::G2>;

    /// The basepoint in `G1`.
    spec fn h1(&self) -> Self::G1;

    /// The basepoint in `G2`.
    spec fn h2(&self) -> Self::G2;
}

/// Whether the parameters hold generators for vectors of length `len`.
pub open spec fn serves<P: PublicParameters>(setup: &P, len: nat) -> bool {
    &&& setup.gamma1(len).len() == len
    &&& setup.gamma2(len).len() == len
}

/// Public parameters kept as one vector of generators for either group:
/// the generators for a length are the first so many of the vector, and a
/// length beyond the vector is not served.
pub struct Generators<G1, G2> {
    pub gamma1: Vec<G1>,
    pub gamma2: Vec<G2>,
    pub h1: G1,
    pub h2: G2,
}

impl<G1, G2> PublicParameters for Generators<G1, G2> {
    type G1 = G1;

    type G2 = G2;

    open spec fn gamma1(&self, len: nat) -> Seq<G1> {
        if len <= self.gamma1@.len() {
            self.gamma1@.take(len as int)
        } else {
            Seq::empty()
        }
    }

    open spec fn gamma2(&self, len: nat) -> Seq<G2> {
        if len <= self.gamma2@.len() {
            self.gamma2@.take(len as int)
        } else {
            Seq::empty()
        }
    }

    open spec fn h1(&self) -> G1 {
        self.h1
    }

    open spec fn h2(&self) -> G2 {
        self.h2
    }
}

impl<G1, G2> Generators<G1, G2> {
    /// Whether vectors of length `len` are served, that is, whether either
    /// vector of generators has that many elements.
    pub fn serves_length(&self, len: usize) -> (b: bool)
        ensures
            b == serves(self, len as nat),
    {
        len <= self.gamma1.len() && len <= self.gamma2.len()
    }
}

} // verus!
