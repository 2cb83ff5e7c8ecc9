//! An example single-component uncertainty payload.
//!
//! [`Unc`] wraps one magnitude of its element type. The crate gives it the
//! zero-test capability (zero exactly when the wrapped magnitude is zero),
//! scaling by a scalar, and the root-sum-square family of combination rules:
//! adding or subtracting combines the magnitudes as the square root of the
//! sum of the squares, multiplying and dividing do the same on the relative
//! magnitudes and rescale. The rules are written once, over the [`Magnitude`]
//! operations that the element type supplies.
use vstd::prelude::*;

verus! {

use vstd::std_specs::ops::DivSpec;
use vstd::std_specs::ops::MulSpec;
use crate::num::UncZero;
use crate::ops::UncAdd;
use crate::ops::UncDiv;
use crate::ops::UncMul;
use crate::ops::UncSub;

/// A single uncertainty component wrapping a magnitude of type `T`.
#[derive(Debug, Clone, Copy, Eq, PartialEq, Ord, PartialOrd, Hash, Default)]
pub struct Unc<T>(pub T);

impl<T> core::convert::From<T> for Unc<T> {
    /// Wrap a bare magnitude.
    fn from(val: T) -> (r: Self) {
        Unc(val)
    }
}

impl<T> vstd::std_specs::convert::FromSpecImpl<T> for Unc<T> {
    open spec fn obeys_from_spec() -> bool {
        true
    }

    open spec fn from_spec(val: T) -> Self {
        Unc(val)
    }
}

impl<T> Unc<T> {
    /// Scale the magnitude by a scalar factor.
    ///
    /// The precondition is the element type's own side condition for `*`.
    pub fn mul(self, other: T) -> (r: Self) where T: core::ops::Mul<Output = T>
        requires
            self.0.mul_req(other),
        ensures
            T::obeys_mul_spec() ==> r == Unc(self.0.mul_spec(other)),
    {
        Unc(self.0.mul(other))
    }

    /// Scale the magnitude down by a scalar divisor.
    ///
    /// The precondition is the element type's own side condition for `/`.
    pub fn div(self, other: T) -> (r: Self) where T: core::ops::Div<Output = T>
        requires
            self.0.div_req(other),
        ensures
            T::obeys_div_spec() ==> r == Unc(self.0.div_spec(other)),
    {
        Unc(self.0.div(other))
    }
}

/// The operations a magnitude type supplies so that the root-sum-square
/// family of combination rules can be written over it.
///
/// Every operation is total: combination rules run unconditionally, so a
/// magnitude type whose arithmetic has edge cases (overflow, division by
/// zero) resolves them itself — floating-point magnitudes do so by their own
/// non-finite semantics. Each operation's meaning in contracts is the
/// matching `spec` function, stated by the implementing type.
pub trait Magnitude<V>: Sized {
    /// What `sq` returns. A type that does not state it leaves it unspecified.
    open spec fn spec_sq(self) -> Self {
        vstd::pervasive::arbitrary()
    }

    /// What `plus` returns. A type that does not state it leaves it unspecified.
    open spec fn spec_plus(self, other: Self) -> Self {
        vstd::pervasive::arbitrary()
    }

    /// What `sqrt` returns. A type that does not state it leaves it unspecified.
    open spec fn spec_sqrt(self) -> Self {
        vstd::pervasive::arbitrary()
    }

    /// What `scale_mul` returns. A type that does not state it leaves it unspecified.
    open spec fn spec_scale_mul(self, factor: V) -> Self {
        vstd::pervasive::arbitrary()
    }

    /// What `scale_div` returns. A type that does not state it leaves it unspecified.
    open spec fn spec_scale_div(self, divisor: V) -> Self {
        vstd::pervasive::arbitrary()
    }

    /// The square of this magnitude.
    fn sq(self) -> (r: Self)
        ensures
            r == self.spec_sq(),
    ;

    /// The sum of two magnitudes.
    fn plus(self, other: Self) -> (r: Self)
        ensures
            r == self.spec_plus(other),
    ;

    /// The square root of this magnitude.
    fn sqrt(self) -> (r: Self)
        ensures
            r == self.spec_sqrt(),
    ;

    /// This magnitude scaled up by a scalar value.
    fn scale_mul(self, factor: V) -> (r: Self)
        ensures
            r == self.spec_scale_mul(factor),
    ;

    /// This magnitude scaled down by a scalar value.
    fn scale_div(self, divisor: V) -> (r: Self)
        ensures
            r == self.spec_scale_div(divisor),
    ;
}

impl<V: Copy, T: Magnitude<V>> UncAdd<V> for Unc<T> {
    /// Root-sum-square: the combined magnitude is the square root of the sum
    /// of the squares; the scalar context is not consulted.
    open spec fn spec_unc_add(self, self_val: V, other: Self, other_val: V) -> Self {
        Unc(self.0.spec_sq().spec_plus(other.0.spec_sq()).spec_sqrt())
    }

    fn unc_add(self, self_val: V, other: Self, other_val: V) -> (r: Self) {
        Unc(self.0.sq().plus(other.0.sq()).sqrt())
    }
}

impl<V: Copy, T: Magnitude<V>> UncDiv<V> for Unc<T> {
    /// Root-sum-square on the relative magnitudes, rescaled to the quotient:
    /// each magnitude is divided by its own scalar value before squaring, and
    /// the combined relative magnitude is multiplied by the left scalar and
    /// divided by the right one.
    open spec fn spec_unc_div(self, self_val: V, other: Self, other_val: V) -> Self {
        Unc(
            self.0.spec_scale_div(self_val).spec_sq().spec_plus(
                other.0.spec_scale_div(other_val).spec_sq(),
            ).spec_sqrt().spec_scale_mul(self_val).spec_scale_div(other_val),
        )
    }

    fn unc_div(self, self_val: V, other: Self, other_val: V) -> (r: Self) {
        Unc(
            self.0.scale_div(self_val).sq().plus(
                other.0.scale_div(other_val).sq(),
            ).sqrt().scale_mul(self_val).scale_div(other_val),
        )
    }
}

impl<V: Copy, T: Magnitude<V>> UncMul<V> for Unc<T> {
    /// Root-sum-square on the relative magnitudes, rescaled to the product:
    /// each magnitude is divided by its own scalar value before squaring, and
    /// the combined relative magnitude is multiplied by both scalars.
    open spec fn spec_unc_mul(self, self_val: V, other: Self, other_val: V) -> Self {
        Unc(
            self.0.spec_scale_div(self_val).spec_sq().spec_plus(
                other.0.spec_scale_div(other_val).spec_sq(),
            ).spec_sqrt().spec_scale_mul(self_val).spec_scale_mul(other_val),
        )
    }

    fn unc_mul(self, self_val: V, other: Self, other_val: V) -> (r: Self) {
        Unc(
            self.0.scale_div(self_val).sq().plus(
                other.0.scale_div(other_val).sq(),
            ).sqrt().scale_mul(self_val).scale_mul(other_val),
        )
    }
}

impl<V: Copy, T: Magnitude<V>> UncSub<V> for Unc<T> {
    /// Root-sum-square, exactly as under addition: magnitudes carry no sign,
    /// so subtracting combines them the same way.
    open spec fn spec_unc_sub(self, self_val: V, other: Self, other_val: V) -> Self {
        Unc(self.0.spec_sq().spec_plus(other.0.spec_sq()).spec_sqrt())
    }

    fn unc_sub(self, self_val: V, other: Self, other_val: V) -> (r: Self) {
        Unc(self.0.sq().plus(other.0.sq()).sqrt())
    }
}

impl<T: UncZero> UncZero for Unc<T> {
    open spec fn spec_zero() -> Self {
        Unc(T::spec_zero())
    }

    open spec fn spec_is_zero(&self) -> bool {
        self.0.spec_is_zero()
    }

    fn zero() -> (r: Self) {
        Unc(T::zero())
    }

    fn is_zero(&self) -> (r: bool) {
        self.0.is_zero()
    }

    fn set_zero(&mut self) {
        self.0.set_zero();
    }
}

} // verus!
