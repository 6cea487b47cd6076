//! The prover's state: the four vectors of a session, the messages computed
//! from them and the two transitions of a round.

use vstd::prelude::*;
use crate::algebra::{Field, Group, Module, Pairing};
use crate::messages::{
    FirstReduceChallenge, FirstReduceMessage, FoldScalarsChallenge, ScalarProductMessage,
    SecondReduceChallenge, SecondReduceMessage,
};
use crate::setup::PublicParameters;

verus! {

/// Where a state stands within a round.
#[derive(Clone, Copy, Debug, PartialEq, Eq)]
pub enum Phase {
    /// The round is about to begin: the first message is computed and the
    /// vectors are combined with the generators.  With vectors of length one
    /// there is no round left, and the last message is computed instead.
    PreCombine,
    /// The vectors have been combined: the second message is computed and
    /// the vectors are folded.
    PreFold,
}

/// The four vectors that a prover state holds.
pub struct Vectors<G1, G2, F> {
    pub v1: Seq<G1>,
    pub v2: Seq<G2>,
    pub s1: Seq<F>,
    pub s2: Seq<F>,
}

impl<G1, G2, F> Vectors<G1, G2, F> {
    /// The common length of the vectors.
    pub open spec fn len(self) -> nat {
        self.v1.len()
    }

    /// The vectors have one length.
    pub open spec fn aligned(self) -> bool {
        &&& self.v2.len() == self.v1.len()
        &&& self.s1.len() == self.v1.len()
        &&& self.s2.len() == self.v1.len()
    }

    /// The vectors have one length, and it is a power of two.
    pub open spec fn well_formed(self) -> bool {
        &&& self.aligned()
        &&& vstd::arithmetic::power2::is_pow2(self.len() as int)
    }

    /// The vectors can go through a round with these parameters: there are
    /// two halves to speak of, and generators for the whole and for a half.
    pub open spec fn reducible<P: PublicParameters<G1 = G1, G2 = G2>>(self, setup: &P) -> bool {
        &&& self.well_formed()
        &&& self.len() >= 2
        &&& crate::setup::serves(setup, self.len())
        &&& crate::setup::serves(setup, self.len() / 2)
    }
}

/// The first message of a round, with `Gamma` the generators for the length
/// of the vectors and `Gamma'` those for half of it.
pub open spec fn first_reduce_message<F, G1, G2, P>(
    vs: Vectors<G1, G2, F>,
    setup: &P,
) -> FirstReduceMessage<G1, G2, G1::Target> where
    G1: Module<F> + Pairing<G2>,
    G2: Module<F>,
    P: PublicParameters<G1 = G1, G2 = G2>,
 {
    let half = vs.len() / 2;
    FirstReduceMessage {
        d1l: crate::algebra::pairing_sum(vs.v1.take(half as int), setup.gamma2(half)),
        d1r: crate::algebra::pairing_sum(vs.v1.skip(half as int), setup.gamma2(half)),
        d2l: crate::algebra::pairing_sum(setup.gamma1(half), vs.v2.take(half as int)),
        d2r: crate::algebra::pairing_sum(setup.gamma1(half), vs.v2.skip(half as int)),
        e1_beta: crate::algebra::scaled_sum(setup.gamma1(vs.len()), vs.s2),
        e2_beta: crate::algebra::scaled_sum(setup.gamma2(vs.len()), vs.s1),
    }
}

/// The vectors after the combination with the generators:
/// `v1 + beta * Gamma1` and `v2 + beta^-1 * Gamma2`, the scalars unchanged.
pub open spec fn combined<F, G1, G2, P>(vs: Vectors<G1, G2, F>, setup: &P, beta: F) -> Vectors<
    G1,
    G2,
    F,
> where F: Field, G1: Module<F>, G2: Module<F>, P: PublicParameters<G1 = G1, G2 = G2> {
    Vectors {
        v1: crate::algebra::offset_points(vs.v1, setup.gamma1(vs.len()), beta),
        v2: crate::algebra::offset_points(vs.v2, setup.gamma2(vs.len()), beta.inverse()),
        s1: vs.s1,
        s2: vs.s2,
    }
}

/// The second message of a round, computed from the combined vectors.
pub open spec fn second_reduce_message<F, G1, G2>(vs: Vectors<G1, G2, F>) -> SecondReduceMessage<
    G1,
    G2,
    G1::Target,
> where G1: Module<F> + Pairing<G2>, G2: Module<F> {
    let half = (vs.len() / 2) as int;
    SecondReduceMessage {
        c_plus: crate::algebra::pairing_sum(vs.v1.take(half), vs.v2.skip(half)),
        c_minus: crate::algebra::pairing_sum(vs.v1.skip(half), vs.v2.take(half)),
        e1_plus: crate::algebra::scaled_sum(vs.v1.take(half), vs.s2.skip(half)),
        e1_minus: crate::algebra::scaled_sum(vs.v1.skip(half), vs.s2.take(half)),
        e2_plus: crate::algebra::scaled_sum(vs.v2.skip(half), vs.s1.take(half)),
        e2_minus: crate::algebra::scaled_sum(vs.v2.take(half), vs.s1.skip(half)),
    }
}

/// The vectors after the fold, of half the length:
/// `alpha * v1L + v1R`, `alpha^-1 * v2L + v2R`, `alpha * s1L + s1R` and
/// `alpha^-1 * s2L + s2R`.
pub open spec fn folded<F, G1, G2>(vs: Vectors<G1, G2, F>, alpha: F) -> Vectors<G1, G2, F> where
    F: Field,
    G1: Module<F>,
    G2: Module<F>,
 {
    Vectors {
        v1: crate::algebra::folded_points(vs.v1, alpha),
        v2: crate::algebra::folded_points(vs.v2, alpha.inverse()),
        s1: crate::algebra::folded_scalars(vs.s1, alpha),
        s2: crate::algebra::folded_scalars(vs.s2, alpha.inverse()),
    }
}

/// The last message, computed from vectors of length one:
/// `v1 + (gamma * s1) * H1` and `v2 + (gamma^-1 * s2) * H2`, each basepoint
/// taken in the group of the vector it is added to.
pub open spec fn scalar_product_message<F, G1, G2, P>(
    vs: Vectors<G1, G2, F>,
    setup: &P,
    gamma: F,
) -> ScalarProductMessage<G1, G2> where
    F: Field,
    G1: Module<F>,
    G2: Module<F>,
    P: PublicParameters<G1 = G1, G2 = G2>,
 {
    ScalarProductMessage {
        e1: vs.v1[0].combined(setup.h1().scaled(gamma.product(vs.s1[0]))),
        e2: vs.v2[0].combined(setup.h2().scaled(gamma.inverse().product(vs.s2[0]))),
    }
}

/// The state of a prover: it owns the vectors of the session, turns them
/// into the messages of each round and carries them through the round's two
/// transitions.  Every transition takes the state and gives the next one, so
/// that there is one current state at any time.
pub trait ProverState: Sized {
    /// The scalar field.
    type Scalar: Field;

    /// The first source group.
    type G1: Module<Self::Scalar> + Pairing<Self::G2, Target = Self::GT>;

    /// The second source group.
    type G2: Module<Self::Scalar>;

    /// The target group.
    type GT: Group;

    /// The public parameters.
    type Setup: PublicParameters<G1 = Self::G1, G2 = Self::G2>;

    /// Where the state stands within a round.
    spec fn phase(&self) -> Phase;

    /// The vectors that the state holds.
    spec fn vectors(&self) -> Vectors<Self::G1, Self::G2, Self::Scalar>;

    /// Computes the first message of a round.  The state is left as it is.
    fn compute_first_reduce_message(&self, setup: &Self::Setup) -> (message: FirstReduceMessage<
        Self::G1,
        Self::G2,
        Self::GT,
    >)
        requires
            self.phase() == Phase::PreCombine,
            self.vectors().reducible(setup),
        ensures
            message == first_reduce_message(self.vectors(), setup),
    ;

    /// Combines the vectors with the generators, weighted by the first
    /// challenge of the round and by its inverse.
    fn reduce_combine(
        self,
        setup: &Self::Setup,
        first_challenge: FirstReduceChallenge<Self::Scalar>,
    ) -> (next: Self)
        requires
            self.phase() == Phase::PreCombine,
            self.vectors().reducible(setup),
            first_challenge.beta.nonzero(),
        ensures
            next.phase() == Phase::PreFold,
            next.vectors() == combined(self.vectors(), setup, first_challenge.beta),
            next.vectors().well_formed(),
            next.vectors().len() == self.vectors().len(),
            forall|i: int|
                0 <= i < self.vectors().len() ==> #[trigger] next.vectors().v1[i]
                    == self.vectors().v1[i].combined(
                    setup.gamma1(self.vectors().len())[i].scaled(first_challenge.beta),
                ),
            forall|i: int|
                0 <= i < self.vectors().len() ==> #[trigger] next.vectors().v2[i]
                    == self.vectors().v2[i].combined(
                    setup.gamma2(self.vectors().len())[i].scaled(first_challenge.beta.inverse()),
                ),
            next.vectors().s1 == self.vectors().s1,
            next.vectors().s2 == self.vectors().s2,
    ;

    /// Computes the second message of a round.  The state is left as it is.
    fn compute_second_reduce_message(&self, setup: &Self::Setup) -> (message: SecondReduceMessage<
        Self::G1,
        Self::G2,
        Self::GT,
    >)
        requires
            self.phase() == Phase::PreFold,
            self.vectors().well_formed(),
            self.vectors().len() >= 2,
        ensures
            message == second_reduce_message(self.vectors()),
    ;

    /// Folds each vector onto half its length, weighted by the second
    /// challenge of the round and by its inverse.
    fn reduce_fold(
        self,
        setup: &Self::Setup,
        second_challenge: SecondReduceChallenge<Self::Scalar>,
    ) -> (next: Self)
        requires
            self.phase() == Phase::PreFold,
            self.vectors().well_formed(),
            self.vectors().len() >= 2,
            second_challenge.alpha.nonzero(),
        ensures
            next.phase() == Phase::PreCombine,
            next.vectors() == folded(self.vectors(), second_challenge.alpha),
            next.vectors().well_formed(),
            next.vectors().len() == self.vectors().len() / 2,
            forall|i: int|
                0 <= i < self.vectors().len() / 2 ==> #[trigger] next.vectors().v1[i]
                    == self.vectors().v1[i].scaled(second_challenge.alpha).combined(
                    self.vectors().v1[i + self.vectors().len() / 2],
                ),
            forall|i: int|
                0 <= i < self.vectors().len() / 2 ==> #[trigger] next.vectors().v2[i]
                    == self.vectors().v2[i].scaled(second_challenge.alpha.inverse()).combined(
                    self.vectors().v2[i + self.vectors().len() / 2],
                ),
            forall|i: int|
                0 <= i < self.vectors().len() / 2 ==> #[trigger] next.vectors().s1[i]
                    == second_challenge.alpha.product(self.vectors().s1[i]).sum(
                    self.vectors().s1[i + self.vectors().len() / 2],
                ),
            forall|i: int|
                0 <= i < self.vectors().len() / 2 ==> #[trigger] next.vectors().s2[i]
                    == second_challenge.alpha.inverse().product(self.vectors().s2[i]).sum(
                    self.vectors().s2[i + self.vectors().len() / 2],
                ),
    ;

    /// Computes the last message from vectors of length one.  This ends the
    /// session: the state is used up.
    fn compute_scalar_product_message(
        self,
        setup: &Self::Setup,
        fold_scalars_challenge: FoldScalarsChallenge<Self::Scalar>,
    ) -> (message: ScalarProductMessage<Self::G1, Self::G2>)
        requires
            self.phase() == Phase::PreCombine,
            self.vectors().well_formed(),
            self.vectors().len() == 1,
            fold_scalars_challenge.gamma.nonzero(),
        ensures
            message == scalar_product_message(self.vectors(), setup, fold_scalars_challenge.gamma),
    ;
}

} // verus!
