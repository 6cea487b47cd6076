//! A prover state that keeps its four vectors in memory and computes with
//! the operations of the arithmetic it is given.

use vstd::prelude::*;
use vstd::arithmetic::power2::is_pow2;
use crate::algebra::{
    compute_folded_points, compute_folded_scalars, compute_offset_points, compute_pairing_sum,
    compute_scaled_sum, Field, Module, Pairing,
};
use crate::messages::{
    FirstReduceChallenge, FirstReduceMessage, FoldScalarsChallenge, ScalarProductMessage,
    SecondReduceChallenge, SecondReduceMessage,
};
use crate::setup::Generators;
use crate::state::{Phase, ProverState, Vectors};

verus! {

/// A prover state over the scalar field `F` and the source groups `G1` and
/// `G2`, with the phase it is in.
pub struct VectorState<G1, G2, F> {
    phase: Phase,
    v1: Vec<G1>,
    v2: Vec<G2>,
    s1: Vec<F>,
    s2: Vec<F>,
}

/// Whether `n` is a power of two.
pub fn is_power_of_two(n: usize) -> (b: bool)
    ensures
        b == is_pow2(n as int),
{
    reveal(is_pow2);
    let mut m: usize = n;
    while m > 1 && m % 2 == 0
        invariant
            is_pow2(m as int) == is_pow2(n as int),
        decreases m,
    {
        reveal(is_pow2);
        m = m / 2;
    }
    m == 1
}

impl<G1, G2, F> VectorState<G1, G2, F> {
    /// The vectors that the state holds.
    pub closed spec fn view(&self) -> Vectors<G1, G2, F> {
        Vectors { v1: self.v1@, v2: self.v2@, s1: self.s1@, s2: self.s2@ }
    }

    /// The phase that the state is in.
    pub closed spec fn spec_phase(&self) -> Phase {
        self.phase
    }

    /// A state at the start of a round, with the given vectors; `None`
    /// unless the four have one length and that length is a power of two.
    pub fn new(v1: Vec<G1>, v2: Vec<G2>, s1: Vec<F>, s2: Vec<F>) -> (r: Option<Self>)
        ensures
            r is Some <==> (Vectors { v1: v1@, v2: v2@, s1: s1@, s2: s2@ }).well_formed(),
            r matches Some(state) ==> state.spec_phase() == Phase::PreCombine && state@ == (Vectors {
                v1: v1@,
                v2: v2@,
                s1: s1@,
                s2: s2@,
            }),
    {
        let n: usize = v1.len();
        if v2.len() == n && s1.len() == n && s2.len() == n && is_power_of_two(n) {
            Some(VectorState { phase: Phase::PreCombine, v1, v2, s1, s2 })
        } else {
            None
        }
    }

    /// The phase that the state is in.
    pub fn current_phase(&self) -> (phase: Phase)
        ensures
            phase == self.spec_phase(),
    {
        self.phase
    }

    /// The length of the vectors.
    pub fn len(&self) -> (n: usize)
        ensures
            n == self@.len(),
    {
        self.v1.len()
    }

    /// The vector `v1`.
    pub fn v1(&self) -> (v: &Vec<G1>)
        ensures
            v@ == self@.v1,
    {
        &self.v1
    }

    /// The vector `v2`.
    pub fn v2(&self) -> (v: &Vec<G2>)
        ensures
            v@ == self@.v2,
    {
        &self.v2
    }

    /// The vector `s1`.
    pub fn s1(&self) -> (s: &Vec<F>)
        ensures
            s@ == self@.s1,
    {
        &self.s1
    }

    /// The vector `s2`.
    pub fn s2(&self) -> (s: &Vec<F>)
        ensures
            s@ == self@.s2,
    {
        &self.s2
    }
}

impl<G1, G2, F> ProverState for VectorState<G1, G2, F> where
    F: Field,
    G1: Module<F> + Pairing<G2>,
    G2: Module<F>,
 {
    type Scalar = F;

    type G1 = G1;

    type G2 = G2;

    type GT = G1::Target;

    type Setup = Generators<G1, G2>;

    open spec fn phase(&self) -> Phase {
        self.spec_phase()
    }

    open spec fn vectors(&self) -> Vectors<G1, G2, F> {
        self@
    }

    fn compute_first_reduce_message(&self, setup: &Generators<G1, G2>) -> (message:
        FirstReduceMessage<G1, G2, G1::Target>) {
        let n: usize = self.v1.len();
        let half: usize = n / 2;
        proof {
            reveal(is_pow2);
            assert(self.s1@.subrange(0, n as int) =~= self.s1@);
            assert(self.s2@.subrange(0, n as int) =~= self.s2@);
        }
        FirstReduceMessage {
            d1l: compute_pairing_sum(&self.v1, 0, &setup.gamma2, 0, half),
            d1r: compute_pairing_sum(&self.v1, half, &setup.gamma2, 0, half),
            d2l: compute_pairing_sum(&setup.gamma1, 0, &self.v2, 0, half),
            d2r: compute_pairing_sum(&setup.gamma1, 0, &self.v2, half, half),
            e1_beta: compute_scaled_sum(&setup.gamma1, 0, &self.s2, 0, n),
            e2_beta: compute_scaled_sum(&setup.gamma2, 0, &self.s1, 0, n),
        }
    }

    fn reduce_combine(
        self,
        setup: &Generators<G1, G2>,
        first_challenge: FirstReduceChallenge<F>,
    ) -> (next: Self) {
        let beta_inverse = first_challenge.beta.invert();
        let v1 = compute_offset_points(&self.v1, &setup.gamma1, &first_challenge.beta);
        let v2 = compute_offset_points(&self.v2, &setup.gamma2, &beta_inverse);
        VectorState { phase: Phase::PreFold, v1, v2, s1: self.s1, s2: self.s2 }
    }

    fn compute_second_reduce_message(&self, setup: &Generators<G1, G2>) -> (message:
        SecondReduceMessage<G1, G2, G1::Target>) {
        let n: usize = self.v1.len();
        let half: usize = n / 2;
        proof {
            reveal(is_pow2);
        }
        SecondReduceMessage {
            c_plus: compute_pairing_sum(&self.v1, 0, &self.v2, half, half),
            c_minus: compute_pairing_sum(&self.v1, half, &self.v2, 0, half),
            e1_plus: compute_scaled_sum(&self.v1, 0, &self.s2, half, half),
            e1_minus: compute_scaled_sum(&self.v1, half, &self.s2, 0, half),
            e2_plus: compute_scaled_sum(&self.v2, half, &self.s1, 0, half),
            e2_minus: compute_scaled_sum(&self.v2, 0, &self.s1, half, half),
        }
    }

    fn reduce_fold(
        self,
        setup: &Generators<G1, G2>,
        second_challenge: SecondReduceChallenge<F>,
    ) -> (next: Self) {
        proof {
            reveal(is_pow2);
        }
        let alpha_inverse = second_challenge.alpha.invert();
        let v1 = compute_folded_points(&self.v1, &second_challenge.alpha);
        let v2 = compute_folded_points(&self.v2, &alpha_inverse);
        let s1 = compute_folded_scalars(&self.s1, &second_challenge.alpha);
        let s2 = compute_folded_scalars(&self.s2, &alpha_inverse);
        VectorState { phase: Phase::PreCombine, v1, v2, s1, s2 }
    }

    fn compute_scalar_product_message(
        self,
        setup: &Generators<G1, G2>,
        fold_scalars_challenge: FoldScalarsChallenge<F>,
    ) -> (message: ScalarProductMessage<G1, G2>) {
        let gamma_inverse = fold_scalars_challenge.gamma.invert();
        let weight1 = fold_scalars_challenge.gamma.times(&self.s1[0]);
        let weight2 = gamma_inverse.times(&self.s2[0]);
        let shift1 = setup.h1.scale(&weight1);
        let shift2 = setup.h2.scale(&weight2);
        ScalarProductMessage { e1: self.v1[0].combine(&shift1), e2: self.v2[0].combine(&shift2) }
    }
}

} // verus!
