//! The values exchanged between the prover and the verifier: two messages
//! and two challenges in each reduction round, the challenge of the
//! fold-scalars step, and the prover's last message.
//!
//! They are plain records.  The prover state makes each message once and the
//! proof builder takes it once; nothing else looks inside.

use vstd::prelude::*;

verus! {

/// The prover's first message of a reduction round.
#[derive(Debug, PartialEq, Eq)]
pub struct FirstReduceMessage<G1, G2, GT> {
    /// `<v1L, Gamma2'>`
    pub d1l: GT,
    /// `<v1R, Gamma2'>`
    pub d1r: GT,
    /// `<Gamma1', v2L>`
    pub d2l: GT,
    /// `<Gamma1', v2R>`
    pub d2r: GT,
    /// `<Gamma1, s2>`
    pub e1_beta: G1,
    /// `<s1, Gamma2>`
    pub e2_beta: G2,
}

/// The verifier's answer to a [`FirstReduceMessage`].
#[derive(Debug, PartialEq, Eq)]
pub struct FirstReduceChallenge<F> {
    pub beta: F,
}

/// The prover's second message of a reduction round.
#[derive(Debug, PartialEq, Eq)]
pub struct SecondReduceMessage<G1, G2, GT> {
    /// `<v1L, v2R>`
    pub c_plus: GT,
    /// `<v1R, v2L>`
    pub c_minus: GT,
    /// `<v1L, s2R>`
    pub e1_plus: G1,
    /// `<v1R, s2L>`
    pub e1_minus: G1,
    /// `<s1L, v2R>`
    pub e2_plus: G2,
    /// `<s1R, v2L>`
    pub e2_minus: G2,
}

/// The verifier's answer to a [`SecondReduceMessage`].
#[derive(Debug, PartialEq, Eq)]
pub struct SecondReduceChallenge<F> {
    pub alpha: F,
}

/// The challenge of the fold-scalars step, drawn once the vectors have
/// length one.
#[derive(Debug, PartialEq, Eq)]
pub struct FoldScalarsChallenge<F> {
    pub gamma: F,
}

/// The prover's last message.
#[derive(Debug, PartialEq, Eq)]
pub struct ScalarProductMessage<G1, G2> {
    pub e1: G1,
    pub e2: G2,
}

} // verus!
