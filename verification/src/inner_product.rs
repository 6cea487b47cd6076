//! The driver of the inner-product argument.

use vstd::prelude::*;
use vstd::arithmetic::power2::{is_pow2, lemma_pow2_pos, lemma_pow2_unfold, pow2};
use crate::algebra::{Field, Group, Module, Pairing};
use crate::builder::{Entry, ProofBuilder};
use crate::setup::PublicParameters;
use crate::state::{Phase, ProverState, Vectors};

verus! {

/// What one reduction round makes of a transcript and of the vectors: the
/// first message is appended and answered by `beta`, the vectors are
/// combined, the second message is appended and answered by `alpha`, and the
/// vectors are folded.
pub open spec fn round<F, G1, G2, P>(
    transcript: Seq<Entry<G1, G2, G1::Target, F>>,
    oracle: spec_fn(Seq<Entry<G1, G2, G1::Target, F>>) -> F,
    vs: Vectors<G1, G2, F>,
    setup: &P,
) -> (Seq<Entry<G1, G2, G1::Target, F>>, Vectors<G1, G2, F>) where
    F: Field,
    G1: Module<F> + Pairing<G2>,
    G2: Module<F>,
    P: PublicParameters<G1 = G1, G2 = G2>,
 {
    let first = transcript.push(Entry::FirstReduce(crate::state::first_reduce_message(vs, setup)));
    let beta = oracle(first);
    let mixed = crate::state::combined(vs, setup, beta);
    let second = first.push(Entry::Challenge(beta)).push(
        Entry::SecondReduce(crate::state::second_reduce_message(mixed)),
    );
    let alpha = oracle(second);
    (second.push(Entry::Challenge(alpha)), crate::state::folded(mixed, alpha))
}

/// The transcript and the vectors after `n` rounds.
pub open spec fn rounds<F, G1, G2, P>(
    transcript: Seq<Entry<G1, G2, G1::Target, F>>,
    oracle: spec_fn(Seq<Entry<G1, G2, G1::Target, F>>) -> F,
    vs: Vectors<G1, G2, F>,
    setup: &P,
    n: nat,
) -> (Seq<Entry<G1, G2, G1::Target, F>>, Vectors<G1, G2, F>) where
    F: Field,
    G1: Module<F> + Pairing<G2>,
    G2: Module<F>,
    P: PublicParameters<G1 = G1, G2 = G2>,

    decreases n,
{
    if n == 0 {
        (transcript, vs)
    } else {
        let before = rounds(transcript, oracle, vs, setup, (n - 1) as nat);
        round(before.0, oracle, before.1, setup)
    }
}

/// The transcript of a whole run: `n` rounds, then the challenge `gamma` of
/// the fold-scalars step, drawn from the transcript as the rounds left it,
/// then the last message, computed with `gamma`.
pub open spec fn proof_transcript<F, G1, G2, P>(
    transcript: Seq<Entry<G1, G2, G1::Target, F>>,
    oracle: spec_fn(Seq<Entry<G1, G2, G1::Target, F>>) -> F,
    vs: Vectors<G1, G2, F>,
    setup: &P,
    n: nat,
) -> Seq<Entry<G1, G2, G1::Target, F>> where
    F: Field,
    G1: Module<F> + Pairing<G2>,
    G2: Module<F>,
    P: PublicParameters<G1 = G1, G2 = G2>,
 {
    let reduced = rounds(transcript, oracle, vs, setup, n);
    let gamma = oracle(reduced.0);
    reduced.0.push(Entry::Challenge(gamma)).push(
        Entry::ScalarProduct(crate::state::scalar_product_message(reduced.1, setup, gamma)),
    )
}

/// Runs the inner-product argument: `num_rounds` reduction rounds on vectors
/// of length `2^num_rounds`, then the fold-scalars challenge and the last
/// message.  The builder that comes back is the finished proof.
pub fn inner_product_prove<Builder, State, G1, G2, GT, Scalar, Setup>(
    builder: Builder,
    state: State,
    setup: &Setup,
    num_rounds: usize,
) -> (proof: Builder) where
    Builder: ProofBuilder<G1 = G1, G2 = G2, GT = GT, Scalar = Scalar>,
    State: ProverState<G1 = G1, G2 = G2, GT = GT, Scalar = Scalar, Setup = Setup>,
    Scalar: Field,
    G1: Module<Scalar> + Pairing<G2, Target = GT>,
    G2: Module<Scalar>,
    GT: Group,
    Setup: PublicParameters<G1 = G1, G2 = G2>,

    requires
        state.phase() == Phase::PreCombine,
        state.vectors().aligned(),
        state.vectors().len() == pow2(num_rounds as nat),
        forall|k: nat| k <= num_rounds ==> crate::setup::serves(setup, #[trigger] pow2(k)),
    ensures
        proof.oracle() == builder.oracle(),
        proof.transcript() == proof_transcript(
            builder.transcript(),
            builder.oracle(),
            state.vectors(),
            setup,
            num_rounds as nat,
        ),
        crate::builder::message_count(proof.transcript()) == crate::builder::message_count(
            builder.transcript(),
        ) + 2 * num_rounds + 1,
        crate::builder::challenge_count(proof.transcript()) == crate::builder::challenge_count(
            builder.transcript(),
        ) + 2 * num_rounds + 1,
{
    let mut builder_now = builder;
    let mut state_now = state;
    let mut done: usize = 0;
    while done < num_rounds
        invariant
            done <= num_rounds,
            state_now.phase() == Phase::PreCombine,
            state_now.vectors().aligned(),
            state_now.vectors().len() == pow2((num_rounds - done) as nat),
            forall|k: nat| k <= num_rounds ==> crate::setup::serves(setup, #[trigger] pow2(k)),
            builder_now.oracle() == builder.oracle(),
            (builder_now.transcript(), state_now.vectors()) == rounds(
                builder.transcript(),
                builder.oracle(),
                state.vectors(),
                setup,
                done as nat,
            ),
        decreases num_rounds - done,
    {
        proof {
            let left = (num_rounds - done) as nat;
            lemma_pow2_unfold(left);
            lemma_pow2_pos((left - 1) as nat);
            lemma_pow2_is_pow2(left);
        }
        let first = state_now.compute_first_reduce_message(setup);
        let (beta, builder_next) = builder_now.append_first_reduce_message(first);
        let state_next = state_now.reduce_combine(setup, beta);
        let second = state_next.compute_second_reduce_message(setup);
        let (alpha, builder_next) = builder_next.append_second_reduce_message(second);
        state_now = state_next.reduce_fold(setup, alpha);
        builder_now = builder_next;
        done = done + 1;
    }
    proof {
        lemma_pow2_is_pow2(0);
        vstd::arithmetic::power2::lemma2_to64();
        lemma_run_counts(
            builder.transcript(),
            builder.oracle(),
            state.vectors(),
            setup,
            num_rounds as nat,
        );
    }
    let (gamma, builder_last) = builder_now.challenge_fold_scalars();
    let last = state_now.compute_scalar_product_message(setup, gamma);
    builder_last.append_scalar_product_message(last)
}

/// A run appends `2 * n + 1` messages and draws `2 * n + 1` challenges:
/// two of each in every round, and one of each at the end.
pub proof fn lemma_run_counts<F, G1, G2, P>(
    transcript: Seq<Entry<G1, G2, G1::Target, F>>,
    oracle: spec_fn(Seq<Entry<G1, G2, G1::Target, F>>) -> F,
    vs: Vectors<G1, G2, F>,
    setup: &P,
    n: nat,
) where F: Field, G1: Module<F> + Pairing<G2>, G2: Module<F>, P: PublicParameters<G1 = G1, G2 = G2>
    ensures
        crate::builder::message_count(proof_transcript(transcript, oracle, vs, setup, n))
            == crate::builder::message_count(transcript) + 2 * n + 1,
        crate::builder::challenge_count(proof_transcript(transcript, oracle, vs, setup, n))
            == crate::builder::challenge_count(transcript) + 2 * n + 1,
        proof_transcript(transcript, oracle, vs, setup, n).len() == transcript.len() + 4 * n + 2,
{
    lemma_rounds_counts(transcript, oracle, vs, setup, n);
    let reduced = rounds(transcript, oracle, vs, setup, n);
    let gamma = oracle(reduced.0);
    let drawn = reduced.0.push(Entry::Challenge(gamma));
    crate::builder::lemma_counts_push(reduced.0, Entry::Challenge(gamma));
    crate::builder::lemma_counts_push(
        drawn,
        Entry::ScalarProduct(crate::state::scalar_product_message(reduced.1, setup, gamma)),
    );
}

/// `n` rounds append `2 * n` messages and draw `2 * n` challenges.
proof fn lemma_rounds_counts<F, G1, G2, P>(
    transcript: Seq<Entry<G1, G2, G1::Target, F>>,
    oracle: spec_fn(Seq<Entry<G1, G2, G1::Target, F>>) -> F,
    vs: Vectors<G1, G2, F>,
    setup: &P,
    n: nat,
) where F: Field, G1: Module<F> + Pairing<G2>, G2: Module<F>, P: PublicParameters<G1 = G1, G2 = G2>
    ensures
        crate::builder::message_count(rounds(transcript, oracle, vs, setup, n).0)
            == crate::builder::message_count(transcript) + 2 * n,
        crate::builder::challenge_count(rounds(transcript, oracle, vs, setup, n).0)
            == crate::builder::challenge_count(transcript) + 2 * n,
        rounds(transcript, oracle, vs, setup, n).0.len() == transcript.len() + 4 * n,
    decreases n,
{
    if n > 0 {
        lemma_rounds_counts(transcript, oracle, vs, setup, (n - 1) as nat);
        let before = rounds(transcript, oracle, vs, setup, (n - 1) as nat);
        let first_message = Entry::FirstReduce(
            crate::state::first_reduce_message(before.1, setup),
        );
        let first = before.0.push(first_message);
        let beta = oracle(first);
        let mixed = crate::state::combined(before.1, setup, beta);
        let answered = first.push(Entry::Challenge(beta));
        let second_message = Entry::SecondReduce(crate::state::second_reduce_message(mixed));
        let second = answered.push(second_message);
        let alpha = oracle(second);
        crate::builder::lemma_counts_push(before.0, first_message);
        crate::builder::lemma_counts_push(first, Entry::Challenge(beta));
        crate::builder::lemma_counts_push(answered, second_message);
        crate::builder::lemma_counts_push(second, Entry::Challenge(alpha));
    }
}

/// Each round halves the vectors: of vectors of length `2^n`, `k` rounds
/// leave vectors of length `2^(n - k)`, all four of one length still.  So
/// `n` rounds bring the state to length one.
pub proof fn lemma_rounds_halve<F, G1, G2, P>(
    transcript: Seq<Entry<G1, G2, G1::Target, F>>,
    oracle: spec_fn(Seq<Entry<G1, G2, G1::Target, F>>) -> F,
    vs: Vectors<G1, G2, F>,
    setup: &P,
    n: nat,
    k: nat,
) where F: Field, G1: Module<F> + Pairing<G2>, G2: Module<F>, P: PublicParameters<G1 = G1, G2 = G2>
    requires
        vs.aligned(),
        vs.len() == pow2(n),
        k <= n,
    ensures
        rounds(transcript, oracle, vs, setup, k).1.aligned(),
        rounds(transcript, oracle, vs, setup, k).1.len() == pow2((n - k) as nat),
        k == n ==> rounds(transcript, oracle, vs, setup, k).1.len() == 1,
    decreases k,
{
    if k > 0 {
        lemma_rounds_halve(transcript, oracle, vs, setup, n, (k - 1) as nat);
        lemma_pow2_unfold((n - k + 1) as nat);
    }
    if k == n {
        vstd::arithmetic::power2::lemma2_to64();
    }
}

/// Two runs that start from equal transcripts, with equal oracles, equal
/// vectors and the same parameters, and go through as many rounds, end in
/// equal transcripts: nothing else enters a proof.
pub proof fn lemma_run_deterministic<B, S>(
    builder_a: B,
    state_a: S,
    proof_a: B,
    builder_b: B,
    state_b: S,
    proof_b: B,
    setup: &S::Setup,
    n: nat,
) where
    B: ProofBuilder<G1 = S::G1, G2 = S::G2, GT = S::GT, Scalar = S::Scalar>,
    S: ProverState,

    requires
        builder_a.transcript() == builder_b.transcript(),
        builder_a.oracle() == builder_b.oracle(),
        state_a.vectors() == state_b.vectors(),
        proof_a.transcript() == proof_transcript(
            builder_a.transcript(),
            builder_a.oracle(),
            state_a.vectors(),
            setup,
            n,
        ),
        proof_b.transcript() == proof_transcript(
            builder_b.transcript(),
            builder_b.oracle(),
            state_b.vectors(),
            setup,
            n,
        ),
    ensures
        proof_a.transcript() == proof_b.transcript(),
{
}

/// A run of no rounds goes straight from the vectors it is given to the
/// fold-scalars challenge and the last message.
pub proof fn lemma_run_without_rounds<F, G1, G2, P>(
    transcript: Seq<Entry<G1, G2, G1::Target, F>>,
    oracle: spec_fn(Seq<Entry<G1, G2, G1::Target, F>>) -> F,
    vs: Vectors<G1, G2, F>,
    setup: &P,
) where F: Field, G1: Module<F> + Pairing<G2>, G2: Module<F>, P: PublicParameters<G1 = G1, G2 = G2>
    ensures
        proof_transcript(transcript, oracle, vs, setup, 0) == transcript.push(
            Entry::Challenge(oracle(transcript)),
        ).push(
            Entry::ScalarProduct(
                crate::state::scalar_product_message(vs, setup, oracle(transcript)),
            ),
        ),
{
}

/// Every `2^e` is a power of two.
proof fn lemma_pow2_is_pow2(e: nat)
    ensures
        is_pow2(pow2(e) as int),
    decreases e,
{
    reveal(is_pow2);
    if e == 0 {
        vstd::arithmetic::power2::lemma2_to64();
    } else {
        lemma_pow2_unfold(e);
        lemma_pow2_is_pow2((e - 1) as nat);
    }
}

} // verus!
