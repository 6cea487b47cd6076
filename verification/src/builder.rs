//! The proof builder: the transcript of a session and the proof that grows
//! with it, held as one value.

use vstd::prelude::*;
use crate::algebra::Field;
use crate::messages::{
    FirstReduceChallenge, FirstReduceMessage, FoldScalarsChallenge, ScalarProductMessage,
    SecondReduceChallenge, SecondReduceMessage,
};

verus! {

/// One entry of a transcript: a message that the prover appended, or a
/// challenge that was drawn.
#[derive(Debug, PartialEq, Eq)]
pub enum Entry<G1, G2, GT, F> {
    FirstReduce(FirstReduceMessage<G1, G2, GT>),
    SecondReduce(SecondReduceMessage<G1, G2, GT>),
    ScalarProduct(ScalarProductMessage<G1, G2>),
    Challenge(F),
}

/// The number of messages among the entries of a transcript.
pub open spec fn message_count<G1, G2, GT, F>(transcript: Seq<Entry<G1, G2, GT, F>>) -> nat
    decreases transcript.len(),
{
    if transcript.len() == 0 {
        0
    } else if transcript.last() is Challenge {
        message_count(transcript.drop_last())
    } else {
        message_count(transcript.drop_last()) + 1
    }
}

/// The number of challenges among the entries of a transcript.
pub open spec fn challenge_count<G1, G2, GT, F>(transcript: Seq<Entry<G1, G2, GT, F>>) -> nat
    decreases transcript.len(),
{
    if transcript.len() == 0 {
        0
    } else if transcript.last() is Challenge {
        challenge_count(transcript.drop_last()) + 1
    } else {
        challenge_count(transcript.drop_last())
    }
}

/// What one more entry does to the two counts.
pub proof fn lemma_counts_push<G1, G2, GT, F>(
    transcript: Seq<Entry<G1, G2, GT, F>>,
    entry: Entry<G1, G2, GT, F>,
)
    ensures
        message_count(transcript.push(entry)) == message_count(transcript) + (if entry
            is Challenge {
            0nat
        } else {
            1nat
        }),
        challenge_count(transcript.push(entry)) == challenge_count(transcript) + (if entry
            is Challenge {
            1nat
        } else {
            0nat
        }),
{
    assert(transcript.push(entry).drop_last() =~= transcript);
}

/// The transcript and the proof of a session in one value.
///
/// A builder is described by two things.  Its transcript is the sequence of
/// all that was appended to it and drawn from it, in order; the messages in
/// it, in that order, are the proof.  Its oracle is the rule by which it
/// answers a transcript with a challenge.  The oracle never changes, so that
/// equal transcripts are answered by equal challenges; that a challenge
/// cannot be foreseen before the message that it answers is for the
/// realisation to see to.
pub trait ProofBuilder: Sized {
    /// The first source group.
    type G1;

    /// The second source group.
    type G2;

    /// The target group.
    type GT;

    /// The scalar field.
    type Scalar: Field;

    /// All that was appended and drawn so far, in order.
    spec fn transcript(&self) -> Seq<Entry<Self::G1, Self::G2, Self::GT, Self::Scalar>>;

    /// The challenge that this builder draws from a transcript.
    spec fn oracle(&self) -> spec_fn(
        Seq<Entry<Self::G1, Self::G2, Self::GT, Self::Scalar>>,
    ) -> Self::Scalar;

    /// Appends the first message of a round and draws the challenge that
    /// answers it.
    fn append_first_reduce_message(
        self,
        message: FirstReduceMessage<Self::G1, Self::G2, Self::GT>,
    ) -> (r: (FirstReduceChallenge<Self::Scalar>, Self))
        ensures
            r.0.beta == (self.oracle())(self.transcript().push(Entry::FirstReduce(message))),
            r.0.beta.nonzero(),
            r.1.transcript() == self.transcript().push(Entry::FirstReduce(message)).push(
                Entry::Challenge(r.0.beta),
            ),
            r.1.oracle() == self.oracle(),
    ;

    /// Appends the second message of a round and draws the challenge that
    /// answers it.
    fn append_second_reduce_message(
        self,
        message: SecondReduceMessage<Self::G1, Self::G2, Self::GT>,
    ) -> (r: (SecondReduceChallenge<Self::Scalar>, Self))
        ensures
            r.0.alpha == (self.oracle())(self.transcript().push(Entry::SecondReduce(message))),
            r.0.alpha.nonzero(),
            r.1.transcript() == self.transcript().push(Entry::SecondReduce(message)).push(
                Entry::Challenge(r.0.alpha),
            ),
            r.1.oracle() == self.oracle(),
    ;

    /// Draws the challenge of the fold-scalars step from the transcript as
    /// it stands.  No message is appended.
    fn challenge_fold_scalars(self) -> (r: (FoldScalarsChallenge<Self::Scalar>, Self))
        ensures
            r.0.gamma == (self.oracle())(self.transcript()),
            r.0.gamma.nonzero(),
            r.1.transcript() == self.transcript().push(Entry::Challenge(r.0.gamma)),
            r.1.oracle() == self.oracle(),
    ;

    /// Appends the last message.  No challenge follows.
    fn append_scalar_product_message(
        self,
        message: ScalarProductMessage<Self::G1, Self::G2>,
    ) -> (r: Self)
        ensures
            r.transcript() == self.transcript().push(Entry::ScalarProduct(message)),
            r.oracle() == self.oracle(),
    ;
}

} // verus!
