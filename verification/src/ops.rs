//! The five propagation capability contracts, one per arithmetic operator.
//!
//! An uncertainty type opts into exactly the operators it supports. Each
//! contract is a pure combination rule: it receives the payloads of both
//! operands and both scalar values as context (negation receives only its
//! own), and produces a new payload of the same type. No contract mandates a
//! particular formula; each implementing type states its own rule as the
//! `spec` function, and the executable method returns exactly that.
use vstd::prelude::*;

verus! {

/// Combine two uncertainty payloads under addition of the carrying values.
pub trait UncAdd<V>: Sized {
    /// The combination rule of this uncertainty type under addition.
    /// A type that does not state its rule leaves it unspecified.
    open spec fn spec_unc_add(self, self_val: V, other: Self, other_val: V) -> Self {
        vstd::pervasive::arbitrary()
    }

    /// Combine `self` and `other`; returns exactly what `spec_unc_add` states.
    fn unc_add(self, self_val: V, other: Self, other_val: V) -> (r: Self)
        ensures
            r == self.spec_unc_add(self_val, other, other_val),
    ;
}

/// Combine two uncertainty payloads under division of the carrying values.
pub trait UncDiv<V>: Sized {
    /// The combination rule of this uncertainty type under division.
    /// A type that does not state its rule leaves it unspecified.
    open spec fn spec_unc_div(self, self_val: V, other: Self, other_val: V) -> Self {
        vstd::pervasive::arbitrary()
    }

    /// Combine `self` and `other`; returns exactly what `spec_unc_div` states.
    fn unc_div(self, self_val: V, other: Self, other_val: V) -> (r: Self)
        ensures
            r == self.spec_unc_div(self_val, other, other_val),
    ;
}

/// Combine two uncertainty payloads under multiplication of the carrying values.
pub trait UncMul<V>: Sized {
    /// The combination rule of this uncertainty type under multiplication.
    /// A type that does not state its rule leaves it unspecified.
    open spec fn spec_unc_mul(self, self_val: V, other: Self, other_val: V) -> Self {
        vstd::pervasive::arbitrary()
    }

    /// Combine `self` and `other`; returns exactly what `spec_unc_mul` states.
    fn unc_mul(self, self_val: V, other: Self, other_val: V) -> (r: Self)
        ensures
            r == self.spec_unc_mul(self_val, other, other_val),
    ;
}

/// Transform an uncertainty payload under negation of the carrying value.
pub trait UncNeg<V>: Sized {
    /// The transformation rule of this uncertainty type under negation.
    /// A type that does not state its rule leaves it unspecified.
    open spec fn spec_unc_neg(self, self_val: V) -> Self {
        vstd::pervasive::arbitrary()
    }

    /// Transform `self`; returns exactly what `spec_unc_neg` states.
    fn unc_neg(self, self_val: V) -> (r: Self)
        ensures
            r == self.spec_unc_neg(self_val),
    ;
}

/// Combine two uncertainty payloads under subtraction of the carrying values.
pub trait UncSub<V>: Sized {
    /// The combination rule of this uncertainty type under subtraction.
    /// A type that does not state its rule leaves it unspecified.
    open spec fn spec_unc_sub(self, self_val: V, other: Self, other_val: V) -> Self {
        vstd::pervasive::arbitrary()
    }

    /// Combine `self` and `other`; returns exactly what `spec_unc_sub` states.
    fn unc_sub(self, self_val: V, other: Self, other_val: V) -> (r: Self)
        ensures
            r == self.spec_unc_sub(self_val, other, other_val),
    ;
}

} // verus!
