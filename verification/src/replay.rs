//! A proof builder that answers from a list of challenges fixed in advance.
//!
//! It keeps the transcript as it is and draws no challenge from what the
//! transcript holds: the nth challenge drawn is the nth of the list, which
//! starts over when it is used up.  It binds nothing, and is meant for runs
//! whose challenges are to be known beforehand.

use vstd::prelude::*;
use crate::algebra::Field;
use crate::builder::{Entry, ProofBuilder};
use crate::messages::{
    FirstReduceChallenge, FirstReduceMessage, FoldScalarsChallenge, ScalarProductMessage,
    SecondReduceChallenge, SecondReduceMessage,
};

verus! {

/// The oracle that replays `script`: a transcript is answered by the entry
/// of `script` whose index is the number of challenges in the transcript,
/// taken modulo the length of `script`.
pub open spec fn replay<G1, G2, GT, F>(script: Seq<F>) -> spec_fn(Seq<Entry<G1, G2, GT, F>>) -> F {
    |transcript: Seq<Entry<G1, G2, GT, F>>|
        script[(crate::builder::challenge_count(transcript) % script.len()) as int]
}

/// A proof builder that replays a list of challenges.
pub struct ReplayBuilder<G1, G2, GT, F: Field + Copy> {
    entries: Vec<Entry<G1, G2, GT, F>>,
    script: Vec<F>,
    next: usize,
}

impl<G1, G2, GT, F: Field + Copy> ReplayBuilder<G1, G2, GT, F> {
    #[verifier::type_invariant]
    spec fn consistent(self) -> bool {
        &&& self.script@.len() > 0
        &&& forall|i: int| 0 <= i < self.script@.len() ==> (#[trigger] self.script@[i]).nonzero()
        &&& self.next == crate::builder::challenge_count(self.entries@) % self.script@.len()
    }

    /// The list of challenges that is replayed.
    pub closed spec fn script(&self) -> Seq<F> {
        self.script@
    }

    /// A builder with an empty transcript that replays `script`; `None`
    /// where `script` is empty or holds a zero.
    pub fn new(script: Vec<F>) -> (r: Option<Self>)
        ensures
            r is Some <==> script.len() > 0 && forall|i: int|
                0 <= i < script.len() ==> (#[trigger] script[i]).nonzero(),
            r matches Some(builder) ==> {
                &&& builder.transcript() == Seq::<Entry<G1, G2, GT, F>>::empty()
                &&& builder.script() == script@
            },
    {
        if script.len() == 0 {
            return None;
        }
        let mut i: usize = 0;
        while i < script.len()
            invariant
                i <= script.len(),
                forall|j: int| 0 <= j < i ==> (#[trigger] script[j]).nonzero(),
            decreases script.len() - i,
        {
            if !script[i].is_nonzero() {
                return None;
            }
            i = i + 1;
        }
        proof {
            vstd::arithmetic::div_mod::lemma_small_mod(0, script@.len());
        }
        Some(ReplayBuilder { entries: Vec::new(), script, next: 0 })
    }

    /// All that was appended and drawn so far, in order.
    pub fn entries(&self) -> (entries: &Vec<Entry<G1, G2, GT, F>>)
        ensures
            entries@ == self.transcript(),
    {
        &self.entries
    }

    /// Records one more entry that is no challenge.
    fn record(self, entry: Entry<G1, G2, GT, F>) -> (r: Self)
        requires
            !(entry is Challenge),
        ensures
            r.transcript() == self.transcript().push(entry),
            r.script() == self.script(),
    {
        proof {
            use_type_invariant(&self);
            assert(self.entries@.push(entry).drop_last() =~= self.entries@);
        }
        let mut entries = self.entries;
        entries.push(entry);
        ReplayBuilder { entries, script: self.script, next: self.next }
    }

    /// Draws the next challenge of the list and records it.
    fn draw(self) -> (r: (F, Self))
        ensures
            r.0 == (self.oracle())(self.transcript()),
            r.0.nonzero(),
            r.1.transcript() == self.transcript().push(Entry::Challenge(r.0)),
            r.1.script() == self.script(),
    {
        proof {
            use_type_invariant(&self);
            vstd::arithmetic::div_mod::lemma_mod_bound(
                crate::builder::challenge_count(self.entries@) as int,
                self.script@.len() as int,
            );
        }
        let challenge = self.script[self.next];
        let count: usize = self.script.len();
        let next: usize = if self.next + 1 == count {
            0
        } else {
            self.next + 1
        };
        proof {
            let before = crate::builder::challenge_count(self.entries@);
            let len = self.script@.len();
            assert(self.entries@.push(Entry::Challenge(challenge)).drop_last() =~= self.entries@);
            assert(next == (before + 1) % len) by {
                vstd::arithmetic::div_mod::lemma_add_mod_noop(before as int, 1, len as int);
                if self.next + 1 == len {
                    vstd::arithmetic::div_mod::lemma_mod_self_0(len as int);
                } else {
                    vstd::arithmetic::div_mod::lemma_small_mod((self.next + 1) as nat, len);
                }
                if len > 1 {
                    vstd::arithmetic::div_mod::lemma_small_mod(1, len);
                }
            }
        }
        let mut entries = self.entries;
        entries.push(Entry::Challenge(challenge));
        (challenge, ReplayBuilder { entries, script: self.script, next })
    }
}

impl<G1, G2, GT, F: Field + Copy> ProofBuilder for ReplayBuilder<G1, G2, GT, F> {
    type G1 = G1;

    type G2 = G2;

    type GT = GT;

    type Scalar = F;

    closed spec fn transcript(&self) -> Seq<Entry<G1, G2, GT, F>> {
        self.entries@
    }

    open spec fn oracle(&self) -> spec_fn(Seq<Entry<G1, G2, GT, F>>) -> F {
        replay(self.script())
    }

    fn append_first_reduce_message(self, message: FirstReduceMessage<G1, G2, GT>) -> (r: (
        FirstReduceChallenge<F>,
        Self,
    )) {
        let (beta, builder) = self.record(Entry::FirstReduce(message)).draw();
        (FirstReduceChallenge { beta }, builder)
    }

    fn append_second_reduce_message(self, message: SecondReduceMessage<G1, G2, GT>) -> (r: (
        SecondReduceChallenge<F>,
        Self,
    )) {
        let (alpha, builder) = self.record(Entry::SecondReduce(message)).draw();
        (SecondReduceChallenge { alpha }, builder)
    }

    fn challenge_fold_scalars(self) -> (r: (FoldScalarsChallenge<F>, Self)) {
        let (gamma, builder) = self.draw();
        (FoldScalarsChallenge { gamma }, builder)
    }

    fn append_scalar_product_message(self, message: ScalarProductMessage<G1, G2>) -> (r: Self) {
        self.record(Entry::ScalarProduct(message))
    }
}

} // verus!
