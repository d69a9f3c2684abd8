//! The capabilities that vector and matrix code asks of a ring.
use vstd::prelude::*;

use crate::modular::Modular;

verus! {

/// A commutative ring with a unit: an additive group and a multiplicative
/// monoid on one type, each operation described by a spec function.
pub trait Ring: Sized + Copy {
    /// The ring's parameters admit elements at all.
    spec fn admits_elements() -> bool;

    /// The element is a well-formed member of the ring.
    spec fn valid(self) -> bool;

    spec fn sum(self, other: Self) -> Self;

    spec fn difference(self, other: Self) -> Self;

    spec fn product(self, other: Self) -> Self;

    spec fn negation(self) -> Self;

    spec fn zero_element() -> Self;

    spec fn one_element() -> Self;

    /// Addition makes the well-formed elements an abelian group: it is
    /// associative and commutative, zero is its identity, and `negation`
    /// gives an inverse.
    proof fn lemma_additive_group(a: Self, b: Self, c: Self)
        requires
            a.valid(),
            b.valid(),
            c.valid(),
        ensures
            a.sum(b).sum(c) == a.sum(b.sum(c)),
            a.sum(b) == b.sum(a),
            a.sum(Self::zero_element()) == a,
            a.sum(a.negation()) == Self::zero_element(),
    ;

    fn ring_add(&self, other: &Self) -> (r: Self)
        requires
            self.valid(),
            other.valid(),
        ensures
            r == self.sum(*other),
            r.valid(),
    ;

    fn ring_sub(&self, other: &Self) -> (r: Self)
        requires
            self.valid(),
            other.valid(),
        ensures
            r == self.difference(*other),
            r.valid(),
    ;

    fn ring_mul(&self, other: &Self) -> (r: Self)
        requires
            self.valid(),
            other.valid(),
        ensures
            r == self.product(*other),
            r.valid(),
    ;

    fn ring_neg(&self) -> (r: Self)
        requires
            self.valid(),
        ensures
            r == self.negation(),
            r.valid(),
    ;

    fn ring_zero() -> (r: Self)
        requires
            Self::admits_elements(),
        ensures
            r == Self::zero_element(),
            r.valid(),
    ;

    fn ring_one() -> (r: Self)
        requires
            Self::admits_elements(),
        ensures
            r == Self::one_element(),
            r.valid(),
    ;
}

/// A commutative ring that is a free module of rank `RANK` over its base
/// ring, so that an element is given by `RANK` coordinates. A plain modular
/// integer is the case of rank one.
pub trait FinRankCRing<const RANK: usize>: Ring {
    /// The element with the given coordinates.
    spec fn of_coordinates(c: Seq<u32>) -> Self;

    fn from_coords(c: [u32; RANK]) -> (r: Self)
        requires
            Self::admits_elements(),
        ensures
            r == Self::of_coordinates(c@),
            r.valid(),
    ;
}

impl<const Q: u32> Ring for Modular<Q> {
    open spec fn admits_elements() -> bool {
        Q > 0
    }

    open spec fn valid(self) -> bool {
        self.wf()
    }

    open spec fn sum(self, other: Self) -> Self {
        self.spec_add(other)
    }

    open spec fn difference(self, other: Self) -> Self {
        self.spec_sub(other)
    }

    open spec fn product(self, other: Self) -> Self {
        self.spec_mul(other)
    }

    open spec fn negation(self) -> Self {
        self.spec_neg()
    }

    open spec fn zero_element() -> Self {
        Self::reduced(0)
    }

    open spec fn one_element() -> Self {
        Self::reduced(1)
    }

    proof fn lemma_additive_group(a: Self, b: Self, c: Self) {
        Self::lemma_identities(a);
        Self::lemma_add_assoc_comm(a, b, c);
    }

    fn ring_add(&self, other: &Self) -> (r: Self) {
        proof {
            Self::lemma_reduced(self@ + other@ as int);
        }
        *self + *other
    }

    fn ring_sub(&self, other: &Self) -> (r: Self) {
        proof {
            Self::lemma_reduced(self@ as int - other@ as int);
        }
        *self - *other
    }

    fn ring_mul(&self, other: &Self) -> (r: Self) {
        proof {
            Self::lemma_reduced((self@ * other@) as int);
        }
        *self * *other
    }

    fn ring_neg(&self) -> (r: Self) {
        proof {
            Self::lemma_reduced(-(self@ as int));
        }
        core::ops::Neg::neg(*self)
    }

    fn ring_zero() -> (r: Self) {
        Self::zero()
    }

    fn ring_one() -> (r: Self) {
        Self::one()
    }
}

impl<const Q: u32> FinRankCRing<1> for Modular<Q> {
    open spec fn of_coordinates(c: Seq<u32>) -> Self {
        Self::reduced(c[0] as int)
    }

    fn from_coords(c: [u32; 1]) -> (r: Self) {
        Self::from(c)
    }
}

} // verus!
