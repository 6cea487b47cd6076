//! The arithmetic that the protocol is stated over.
//!
//! A backend supplies a scalar field, two source groups written additively,
//! a target group and a pairing.  Each trait pairs a mathematical operation
//! (a `spec` function) with the executable operation that computes it.
//! Elements are compared by equality of values: a backend whose values can
//! stand for one element in several ways keeps them normalised.
//!
//! The traits ask for the operations and for nothing else.  That the
//! operations obey the laws of a field, of groups and of a bilinear map is
//! what the soundness of the argument rests on; the prover's side computes
//! the same messages whether they do or not.

use vstd::prelude::*;

verus! {

/// The scalar field.
pub trait Field: Sized {
    /// Whether the element differs from zero, that is, can be inverted.
    spec fn nonzero(&self) -> bool;

    /// The sum of two elements.
    spec fn sum(self, rhs: Self) -> Self;

    /// The product of two elements.
    spec fn product(self, rhs: Self) -> Self;

    /// The multiplicative inverse; meaningful for a non-zero element.
    spec fn inverse(self) -> Self;

    /// Tells whether the element differs from zero.
    fn is_nonzero(&self) -> (b: bool)
        ensures
            b == self.nonzero(),
    ;

    /// Adds two elements.
    fn plus(&self, rhs: &Self) -> (r: Self)
        ensures
            r == self.sum(*rhs),
    ;

    /// Multiplies two elements.
    fn times(&self, rhs: &Self) -> (r: Self)
        ensures
            r == self.product(*rhs),
    ;

    /// Inverts a non-zero element.
    fn invert(&self) -> (r: Self)
        requires
            self.nonzero(),
        ensures
            r == self.inverse(),
    ;
}

/// A group.  The operation is written as a combination of two elements,
/// whether the group is thought of as additive or multiplicative.
pub trait Group: Sized {
    /// The neutral element.
    spec fn identity() -> Self;

    /// The group operation.
    spec fn combined(self, rhs: Self) -> Self;

    /// Gives the neutral element.
    fn neutral() -> (r: Self)
        ensures
            r == Self::identity(),
    ;

    /// Applies the group operation to two elements.
    fn combine(&self, rhs: &Self) -> (r: Self)
        ensures
            r == self.combined(*rhs),
    ;
}

/// A group on which the scalar field `F` acts.
pub trait Module<F>: Group {
    /// The element taken `k` times.
    spec fn scaled(self, k: F) -> Self;

    /// Scales an element by `k`.
    fn scale(&self, k: &F) -> (r: Self)
        ensures
            r == self.scaled(*k),
    ;
}

/// A pairing of `Self` with `G2` into a target group.
pub trait Pairing<G2>: Sized {
    /// The target group.
    type Target: Group;

    /// The pairing of two elements.
    spec fn paired(self, rhs: G2) -> Self::Target;

    /// Pairs two elements.
    fn pair(&self, rhs: &G2) -> (r: Self::Target)
        ensures
            r == self.paired(*rhs),
    ;
}

/// The pairing sum `<a, b>`: the pairings of the elements at matching
/// indices, combined from the first index up.
pub open spec fn pairing_sum<G1: Pairing<G2>, G2>(a: Seq<G1>, b: Seq<G2>) -> G1::Target
    decreases a.len(),
{
    if a.len() == 0 {
        G1::Target::identity()
    } else {
        pairing_sum(a.drop_last(), b.drop_last()).combined(a.last().paired(b.last()))
    }
}

/// The sum `<g, k>` of the elements of `g`, each scaled by the scalar at the
/// same index of `k`, combined from the first index up.
pub open spec fn scaled_sum<F, G: Module<F>>(g: Seq<G>, k: Seq<F>) -> G
    decreases g.len(),
{
    if g.len() == 0 {
        G::identity()
    } else {
        scaled_sum(g.drop_last(), k.drop_last()).combined(g.last().scaled(k.last()))
    }
}

/// The vector `v + k * g`: each element of `v` combined with the element of
/// `g` at the same index, scaled by `k`.
pub open spec fn offset_points<F, G: Module<F>>(v: Seq<G>, g: Seq<G>, k: F) -> Seq<G> {
    Seq::new(v.len(), |i: int| v[i].combined(g[i].scaled(k)))
}

/// The fold `k * vL + vR` of a vector of group elements: its left half,
/// scaled by `k`, combined with its right half.
pub open spec fn folded_points<F, G: Module<F>>(v: Seq<G>, k: F) -> Seq<G> {
    Seq::new(v.len() / 2, |i: int| v[i].scaled(k).combined(v[i + v.len() / 2]))
}

/// The fold `k * sL + sR` of a vector of scalars.
pub open spec fn folded_scalars<F: Field>(s: Seq<F>, k: F) -> Seq<F> {
    Seq::new(s.len() / 2, |i: int| k.product(s[i]).sum(s[i + s.len() / 2]))
}

/// Computes the pairing sum of `len` elements of `a`, from index `a_from`
/// on, with as many elements of `b`, from index `b_from` on.
pub fn compute_pairing_sum<G1: Pairing<G2>, G2>(
    a: &Vec<G1>,
    a_from: usize,
    b: &Vec<G2>,
    b_from: usize,
    len: usize,
) -> (r: G1::Target)
    requires
        a_from + len <= a.len(),
        b_from + len <= b.len(),
    ensures
        r == pairing_sum(
            a@.subrange(a_from as int, a_from + len),
            b@.subrange(b_from as int, b_from + len),
        ),
{
    let mut acc = G1::Target::neutral();
    let mut i: usize = 0;
    while i < len
        invariant
            i <= len,
            a_from + len <= a.len(),
            b_from + len <= b.len(),
            acc == pairing_sum(
                a@.subrange(a_from as int, a_from + i),
                b@.subrange(b_from as int, b_from + i),
            ),
        decreases len - i,
    {
        proof {
            let a_next = a@.subrange(a_from as int, a_from + i + 1);
            let b_next = b@.subrange(b_from as int, b_from + i + 1);
            assert(a_next.drop_last() =~= a@.subrange(a_from as int, a_from + i));
            assert(b_next.drop_last() =~= b@.subrange(b_from as int, b_from + i));
        }
        let term = a[a_from + i].pair(&b[b_from + i]);
        acc = acc.combine(&term);
        i = i + 1;
    }
    acc
}

/// Computes the sum of `len` elements of `g`, from index `g_from` on, each
/// scaled by the scalar at the same distance from index `k_from` of `k`.
pub fn compute_scaled_sum<F, G: Module<F>>(
    g: &Vec<G>,
    g_from: usize,
    k: &Vec<F>,
    k_from: usize,
    len: usize,
) -> (r: G)
    requires
        g_from + len <= g.len(),
        k_from + len <= k.len(),
    ensures
        r == scaled_sum(
            g@.subrange(g_from as int, g_from + len),
            k@.subrange(k_from as int, k_from + len),
        ),
{
    let mut acc = G::neutral();
    let mut i: usize = 0;
    while i < len
        invariant
            i <= len,
            g_from + len <= g.len(),
            k_from + len <= k.len(),
            acc == scaled_sum(
                g@.subrange(g_from as int, g_from + i),
                k@.subrange(k_from as int, k_from + i),
            ),
        decreases len - i,
    {
        proof {
            let g_next = g@.subrange(g_from as int, g_from + i + 1);
            let k_next = k@.subrange(k_from as int, k_from + i + 1);
            assert(g_next.drop_last() =~= g@.subrange(g_from as int, g_from + i));
            assert(k_next.drop_last() =~= k@.subrange(k_from as int, k_from + i));
        }
        let term = g[g_from + i].scale(&k[k_from + i]);
        acc = acc.combine(&term);
        i = i + 1;
    }
    acc
}

/// Computes `v + k * g`, reading as many elements of `g` as `v` has.
pub fn compute_offset_points<F, G: Module<F>>(v: &Vec<G>, g: &Vec<G>, k: &F) -> (r: Vec<G>)
    requires
        v.len() <= g.len(),
    ensures
        r@ == offset_points(v@, g@.take(v.len() as int), *k),
{
    let mut out: Vec<G> = Vec::new();
    let mut i: usize = 0;
    while i < v.len()
        invariant
            i <= v.len(),
            v.len() <= g.len(),
            out.len() == i,
            forall|j: int| 0 <= j < i ==> out[j] == v[j].combined(g[j].scaled(*k)),
        decreases v.len() - i,
    {
        let shift = g[i].scale(k);
        out.push(v[i].combine(&shift));
        i = i + 1;
    }
    out
}

/// Computes the fold `k * vL + vR` of a vector of group elements.
pub fn compute_folded_points<F, G: Module<F>>(v: &Vec<G>, k: &F) -> (r: Vec<G>)
    ensures
        r@ == folded_points(v@, *k),
{
    let half: usize = v.len() / 2;
    let mut out: Vec<G> = Vec::new();
    let mut i: usize = 0;
    while i < half
        invariant
            i <= half,
            half == v.len() / 2,
            out.len() == i,
            forall|j: int| 0 <= j < i ==> out[j] == v[j].scaled(*k).combined(v[j + half]),
        decreases half - i,
    {
        let left = v[i].scale(k);
        out.push(left.combine(&v[i + half]));
        i = i + 1;
    }
    out
}

/// Computes the fold `k * sL + sR` of a vector of scalars.
pub fn compute_folded_scalars<F: Field>(s: &Vec<F>, k: &F) -> (r: Vec<F>)
    ensures
        r@ == folded_scalars(s@, *k),
{
    let half: usize = s.len() / 2;
    let mut out: Vec<F> = Vec::new();
    let mut i: usize = 0;
    while i < half
        invariant
            i <= half,
            half == s.len() / 2,
            out.len() == i,
            forall|j: int| 0 <= j < i ==> out[j] == k.product(s[j]).sum(s[j + half]),
        decreases half - i,
    {
        let left = k.times(&s[i]);
        out.push(left.plus(&s[i + half]));
        i = i + 1;
    }
    out
}

} // verus!
