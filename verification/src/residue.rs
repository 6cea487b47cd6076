//! The integers modulo `P`: a small arithmetic in which the scalar field,
//! both source groups and the target group are one and the same.
//!
//! Sums are taken modulo `P`; to scale and to pair is to multiply modulo
//! `P`.  For a prime `P` this is the field of `P` elements, and every
//! non-zero residue has an inverse.  `Residue<0>` is read as `Residue<1>`:
//! the ring whose only element is zero.

use vstd::prelude::*;
use crate::algebra::{Field, Group, Module, Pairing};

verus! {

/// A residue modulo `P`, held as its least non-negative representative.
#[derive(Clone, Copy, Debug, PartialEq, Eq)]
pub struct Residue<const P: u64> {
    value: u64,
}

/// The least `x` with `from <= x < m` and `a * x % m == 1`, or 0 where there
/// is none.
pub open spec fn least_inverse(a: nat, m: nat, from: nat) -> nat
    decreases m - from,
{
    if from >= m {
        0
    } else if (a * from) % m == 1 {
        from
    } else {
        least_inverse(a, m, from + 1)
    }
}

/// What `least_inverse` finds, where it finds anything, is an inverse of `a`
/// modulo `m` that lies between `from` and `m`.
pub proof fn lemma_least_inverse(a: nat, m: nat, from: nat)
    ensures
        least_inverse(a, m, from) != 0 ==> from <= least_inverse(a, m, from) < m && (a
            * least_inverse(a, m, from)) % m == 1,
    decreases m - from,
{
    if from < m && (a * from) % m != 1 {
        lemma_least_inverse(a, m, from + 1);
    }
}

impl<const P: u64> Residue<P> {
    #[verifier::type_invariant]
    spec fn reduced(self) -> bool {
        self.value < Self::modulus()
    }

    /// The modulus: `P`, or 1 where `P` is 0.
    pub open spec fn modulus() -> nat {
        if P == 0 {
            1
        } else {
            P as nat
        }
    }

    /// The representative of this residue.
    pub closed spec fn spec_value(self) -> nat {
        self.value as nat
    }

    /// The residue whose representative is `n`, for `n` below the modulus.
    pub closed spec fn with_value(n: nat) -> Self {
        Residue { value: n as u64 }
    }

    /// `with_value` and `spec_value` undo each other on representatives.
    pub proof fn lemma_with_value(n: nat)
        requires
            n < Self::modulus(),
        ensures
            Self::with_value(n).spec_value() == n,
    {
    }

    /// To scale by one is to change nothing: with one for the weight, a
    /// weighted sum `v + 1 * g` is the plain sum `v + g`.
    pub proof fn lemma_scaled_by_one(self)
        requires
            self.spec_value() < Self::modulus(),
        ensures
            self.scaled(Self::with_value(1nat % Self::modulus())) == self,
    {
        let m = Self::modulus();
        let v = self.spec_value();
        let one = Self::with_value(1nat % m);
        if m > 1 {
            vstd::arithmetic::div_mod::lemma_small_mod(1, m);
            assert(v * one.spec_value() == v) by (nonlinear_arith)
                requires
                    one.spec_value() == 1,
            ;
            vstd::arithmetic::div_mod::lemma_small_mod(v, m);
        } else {
            assert(v * one.spec_value() == 0) by (nonlinear_arith)
                requires
                    v == 0,
            ;
        }
    }

    /// The product of a residue and its inverse is one, unless the inverse
    /// is zero: then the residue has no inverse modulo `P`.
    pub proof fn lemma_inverse(self)
        ensures
            self.inverse().nonzero() ==> self.product(self.inverse()).spec_value() == 1,
    {
        lemma_least_inverse(self.spec_value(), Self::modulus(), 1);
    }

    fn modulus_value() -> (m: u64)
        ensures
            m as nat == Self::modulus(),
    {
        if P == 0 {
            1
        } else {
            P
        }
    }

    /// The residue of `n`.
    pub fn new(n: u64) -> (r: Self)
        ensures
            r == Self::with_value(n as nat % Self::modulus()),
            r.spec_value() == n as nat % Self::modulus(),
    {
        let m: u64 = Self::modulus_value();
        Residue { value: n % m }
    }

    /// The representative of this residue.
    pub fn value(&self) -> (n: u64)
        ensures
            n as nat == self.spec_value(),
            n < Self::modulus(),
    {
        proof {
            use_type_invariant(self);
        }
        self.value
    }
}

impl<const P: u64> Field for Residue<P> {
    open spec fn nonzero(&self) -> bool {
        self.spec_value() != 0
    }

    open spec fn sum(self, rhs: Self) -> Self {
        Self::with_value((self.spec_value() + rhs.spec_value()) % Self::modulus())
    }

    open spec fn product(self, rhs: Self) -> Self {
        Self::with_value((self.spec_value() * rhs.spec_value()) % Self::modulus())
    }

    open spec fn inverse(self) -> Self {
        Self::with_value(least_inverse(self.spec_value(), Self::modulus(), 1))
    }

    fn is_nonzero(&self) -> (b: bool) {
        proof {
            use_type_invariant(self);
        }
        self.value != 0
    }

    fn plus(&self, rhs: &Self) -> (r: Self) {
        proof {
            use_type_invariant(self);
            use_type_invariant(rhs);
        }
        let m: u64 = Self::modulus_value();
        let wide: u128 = (self.value as u128 + rhs.value as u128) % (m as u128);
        Residue { value: wide as u64 }
    }

    fn times(&self, rhs: &Self) -> (r: Self) {
        proof {
            use_type_invariant(self);
            use_type_invariant(rhs);
        }
        let m: u64 = Self::modulus_value();
        Residue { value: times_mod(self.value, rhs.value, m) }
    }

    fn invert(&self) -> (r: Self) {
        proof {
            use_type_invariant(self);
        }
        let m: u64 = Self::modulus_value();
        let mut x: u64 = 1;
        while x < m
            invariant
                1 <= x,
                m as nat == Self::modulus(),
                least_inverse(self.spec_value(), m as nat, 1) == least_inverse(
                    self.spec_value(),
                    m as nat,
                    x as nat,
                ),
                self.value as nat == self.spec_value(),
            decreases m - x,
        {
            if times_mod(self.value, x, m) == 1 {
                return Residue { value: x };
            }
            x = x + 1;
        }
        Residue { value: 0 }
    }
}

impl<const P: u64> Group for Residue<P> {
    open spec fn identity() -> Self {
        Self::with_value(0)
    }

    open spec fn combined(self, rhs: Self) -> Self {
        self.sum(rhs)
    }

    fn neutral() -> (r: Self) {
        Residue { value: 0 }
    }

    fn combine(&self, rhs: &Self) -> (r: Self) {
        self.plus(rhs)
    }
}

impl<const P: u64> Module<Residue<P>> for Residue<P> {
    open spec fn scaled(self, k: Residue<P>) -> Self {
        self.product(k)
    }

    fn scale(&self, k: &Residue<P>) -> (r: Self) {
        self.times(k)
    }
}

impl<const P: u64> Pairing<Residue<P>> for Residue<P> {
    type Target = Residue<P>;

    open spec fn paired(self, rhs: Residue<P>) -> Residue<P> {
        self.product(rhs)
    }

    fn pair(&self, rhs: &Residue<P>) -> (r: Residue<P>) {
        self.times(rhs)
    }
}

/// `a * b` modulo `m`, computed without overflow.
fn times_mod(a: u64, b: u64, m: u64) -> (r: u64)
    requires
        m > 0,
    ensures
        r as nat == (a as nat * b as nat) % (m as nat),
        r < m,
{
    assert(a as nat * b as nat <= 0xffff_ffff_ffff_ffff * 0xffff_ffff_ffff_ffff) by (nonlinear_arith)
        requires
            a <= 0xffff_ffff_ffff_ffff,
            b <= 0xffff_ffff_ffff_ffff,
    ;
    let wide: u128 = (a as u128 * b as u128) % (m as u128);
    wide as u64
}

} // verus!
