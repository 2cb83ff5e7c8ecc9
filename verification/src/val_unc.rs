//! The paired value/uncertainty entity and its capability-gated arithmetic.
use vstd::prelude::*;

verus! {

use vstd::std_specs::ops::AddSpec;
use vstd::std_specs::ops::DivSpec;
use vstd::std_specs::ops::MulSpec;
use vstd::std_specs::ops::NegSpec;
use vstd::std_specs::ops::SubSpec;
use crate::num::UncZero;
use crate::ops::UncAdd;
use crate::ops::UncDiv;
use crate::ops::UncMul;
use crate::ops::UncNeg;
use crate::ops::UncSub;

/// A quantity with a central value `val` and an uncertainty payload `unc`.
///
/// `unc` may be a scalar, a structured type, or a tuple of independent
/// uncertainty kinds. Each arithmetic operation exists exactly when the value
/// type supports the scalar operator and the uncertainty type implements the
/// matching capability contract.
#[derive(Debug, Clone, Copy, Eq, PartialEq, Ord, PartialOrd, Hash, Default)]
pub struct ValUnc<V, U> {
    pub val: V,
    pub unc: U,
}

impl<V, U> ValUnc<V, U> {
    /// Pair a value with an uncertainty payload; any combination is accepted.
    pub fn new(val: V, unc: U) -> (r: Self)
        ensures
            r.val == val,
            r.unc == unc,
    {
        ValUnc { val, unc }
    }
}

impl<V, U: UncZero> core::convert::From<V> for ValUnc<V, U> {
    /// Lift a bare value: the uncertainty payload is set to its zero.
    fn from(val: V) -> (r: Self) {
        ValUnc { val, unc: U::zero() }
    }
}

impl<V, U: UncZero> vstd::std_specs::convert::FromSpecImpl<V> for ValUnc<V, U> {
    open spec fn obeys_from_spec() -> bool {
        true
    }

    open spec fn from_spec(val: V) -> Self {
        (ValUnc { val, unc: U::spec_zero() })
    }
}

impl<V: Copy, U> ValUnc<V, U> {
    /// Add two quantities: scalar `+` on the values, the `UncAdd` rule on the
    /// payloads, with both scalar values passed as context.
    ///
    /// The precondition is the scalar type's own side condition for `+` (for
    /// the primitive integers, that the sum fits in the type).
    pub fn add(self, other: Self) -> (r: Self) where
        V: core::ops::Add<Output = V>,
        U: UncAdd<V>,

        requires
            self.val.add_req(other.val),
        ensures
            V::obeys_add_spec() ==> r.val == self.val.add_spec(other.val),
            r.unc == self.unc.spec_unc_add(self.val, other.unc, other.val),
    {
        ValUnc {
            val: self.val.add(other.val),
            unc: self.unc.unc_add(self.val, other.unc, other.val),
        }
    }

    /// Divide two quantities: scalar `/` on the values, the `UncDiv` rule on
    /// the payloads, with both scalar values passed as context.
    ///
    /// The precondition is the scalar type's own side condition for `/` (for
    /// the primitive integers, that the divisor is nonzero and the quotient
    /// does not overflow).
    pub fn div(self, other: Self) -> (r: Self) where
        V: core::ops::Div<Output = V>,
        U: UncDiv<V>,

        requires
            self.val.div_req(other.val),
        ensures
            V::obeys_div_spec() ==> r.val == self.val.div_spec(other.val),
            r.unc == self.unc.spec_unc_div(self.val, other.unc, other.val),
    {
        ValUnc {
            val: self.val.div(other.val),
            unc: self.unc.unc_div(self.val, other.unc, other.val),
        }
    }

    /// Multiply two quantities: scalar `*` on the values, the `UncMul` rule on
    /// the payloads, with both scalar values passed as context.
    ///
    /// The precondition is the scalar type's own side condition for `*` (for
    /// the primitive integers, that the product fits in the type).
    pub fn mul(self, other: Self) -> (r: Self) where
        V: core::ops::Mul<Output = V>,
        U: UncMul<V>,

        requires
            self.val.mul_req(other.val),
        ensures
            V::obeys_mul_spec() ==> r.val == self.val.mul_spec(other.val),
            r.unc == self.unc.spec_unc_mul(self.val, other.unc, other.val),
    {
        ValUnc {
            val: self.val.mul(other.val),
            unc: self.unc.unc_mul(self.val, other.unc, other.val),
        }
    }

    /// Negate a quantity: scalar unary `-` on the value, the `UncNeg` rule on
    /// the payload, with the scalar value passed as context.
    ///
    /// The precondition is the scalar type's own side condition for unary `-`
    /// (for the primitive signed integers, that the value is not the minimum).
    pub fn neg(self) -> (r: Self) where
        V: core::ops::Neg<Output = V>,
        U: UncNeg<V>,

        requires
            self.val.neg_req(),
        ensures
            V::obeys_neg_spec() ==> r.val == self.val.neg_spec(),
            r.unc == self.unc.spec_unc_neg(self.val),
    {
        ValUnc { val: self.val.neg(), unc: self.unc.unc_neg(self.val) }
    }

    /// Subtract two quantities: scalar `-` on the values, the `UncSub` rule on
    /// the payloads, with both scalar values passed as context.
    ///
    /// The precondition is the scalar type's own side condition for `-` (for
    /// the primitive integers, that the difference fits in the type).
    pub fn sub(self, other: Self) -> (r: Self) where
        V: core::ops::Sub<Output = V>,
        U: UncSub<V>,

        requires
            self.val.sub_req(other.val),
        ensures
            V::obeys_sub_spec() ==> r.val == self.val.sub_spec(other.val),
            r.unc == self.unc.spec_unc_sub(self.val, other.unc, other.val),
    {
        ValUnc {
            val: self.val.sub(other.val),
            unc: self.unc.unc_sub(self.val, other.unc, other.val),
        }
    }
}

} // verus!
