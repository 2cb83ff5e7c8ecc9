//! The two-shape serialization bridge.
//!
//! A quantity is encoded either as its bare value — when the uncertainty
//! payload reports zero — or as a `(value, payload)` pair. No tag
//! distinguishes the shapes; a decoder infers the shape structurally (single
//! value versus two-element sequence). Decoding a bare value resets the
//! payload to its zero. The conversions here state the shape rules exactly;
//! reading and writing a concrete wire format is a caller's concern.
use vstd::prelude::*;

verus! {

use crate::num::UncZero;
use crate::val_unc::ValUnc;

/// The two-shape form of a quantity: a bare value, or a value/payload pair.
#[derive(Debug, Clone, Copy, Eq, PartialEq, Hash)]
pub enum ValUncTuple<V, U> {
    /// The compact shape: a bare value, used exactly when the payload is zero.
    NoUnc(V),
    /// The full shape: the value and its nonzero payload, in that order.
    Unc(V, U),
}

/// The shape a quantity encodes to: bare when its payload is zero, paired
/// otherwise.
pub open spec fn spec_encode<V, U: UncZero>(e: ValUnc<V, U>) -> ValUncTuple<V, U> {
    if e.unc.spec_is_zero() {
        ValUncTuple::NoUnc(e.val)
    } else {
        ValUncTuple::Unc(e.val, e.unc)
    }
}

/// The quantity a shape decodes to: a bare value carries the zero payload, a
/// pair is taken positionally.
pub open spec fn spec_decode<V, U: UncZero>(t: ValUncTuple<V, U>) -> ValUnc<V, U> {
    match t {
        ValUncTuple::NoUnc(val) => ValUnc { val, unc: U::spec_zero() },
        ValUncTuple::Unc(val, unc) => ValUnc { val, unc },
    }
}

impl<V, U: UncZero> core::convert::From<ValUnc<V, U>> for ValUncTuple<V, U> {
    /// Encode a quantity into its two-shape form.
    fn from(e: ValUnc<V, U>) -> (r: Self) {
        if e.unc.is_zero() {
            ValUncTuple::NoUnc(e.val)
        } else {
            ValUncTuple::Unc(e.val, e.unc)
        }
    }
}

impl<V, U: UncZero> vstd::std_specs::convert::FromSpecImpl<ValUnc<V, U>> for ValUncTuple<V, U> {
    open spec fn obeys_from_spec() -> bool {
        true
    }

    open spec fn from_spec(e: ValUnc<V, U>) -> Self {
        spec_encode(e)
    }
}

impl<V, U: UncZero> core::convert::From<ValUncTuple<V, U>> for ValUnc<V, U> {
    /// Decode a two-shape form back into a quantity.
    fn from(t: ValUncTuple<V, U>) -> (r: Self) {
        match t {
            ValUncTuple::NoUnc(val) => ValUnc { val, unc: U::zero() },
            ValUncTuple::Unc(val, unc) => ValUnc { val, unc },
        }
    }
}

impl<V, U: UncZero> vstd::std_specs::convert::FromSpecImpl<ValUncTuple<V, U>> for ValUnc<V, U> {
    open spec fn obeys_from_spec() -> bool {
        true
    }

    open spec fn from_spec(t: ValUncTuple<V, U>) -> Self {
        spec_decode(t)
    }
}

/// A structurally parsed decode input: what a wire-format reader hands the
/// library once it has classified the input and converted its elements.
#[derive(Debug, Clone, Copy, Eq, PartialEq, Hash)]
pub enum RawValue<V, U> {
    /// The input was a bare scalar, converted to the value type.
    Scalar(V),
    /// The input was a two-element sequence, both elements converted.
    Pair(V, U),
    /// The input was a sequence whose length was not two; holds that length.
    BadLength(usize),
    /// A sequence element did not convert to the expected type; holds its
    /// position (0 = value, 1 = uncertainty).
    BadElement(usize),
}

/// A decode failure, with positional context; never silently defaulted.
#[derive(Debug, Clone, Copy, Eq, PartialEq, Hash)]
pub enum DecodeError {
    /// The input sequence did not have the expected number of elements.
    LengthMismatch { expected: usize, found: usize },
    /// An element could not be converted to the expected type; `field` is its
    /// position (0 = value, 1 = uncertainty).
    TypeMismatch { field: usize },
}

/// The decode rule: a bare scalar yields the value with the zero payload, a
/// two-element sequence is taken positionally, a sequence of any other
/// length is a length mismatch, and an unconvertible element is a type
/// mismatch at its position.
pub open spec fn spec_decode_raw<V, U: UncZero>(raw: RawValue<V, U>) -> Result<
    ValUnc<V, U>,
    DecodeError,
> {
    match raw {
        RawValue::Scalar(val) => Ok(ValUnc { val, unc: U::spec_zero() }),
        RawValue::Pair(val, unc) => Ok(ValUnc { val, unc }),
        RawValue::BadLength(found) => Err(DecodeError::LengthMismatch { expected: 2, found }),
        RawValue::BadElement(field) => Err(DecodeError::TypeMismatch { field }),
    }
}

/// Decode a structurally parsed input; returns exactly what `spec_decode_raw`
/// states. Succeeds if and only if the input was a bare scalar or a
/// two-element sequence with both elements converted.
pub fn decode_raw<V, U: UncZero>(raw: RawValue<V, U>) -> (r: Result<ValUnc<V, U>, DecodeError>)
    ensures
        r == spec_decode_raw(raw),
{
    match raw {
        RawValue::Scalar(val) => Ok(ValUnc { val, unc: U::zero() }),
        RawValue::Pair(val, unc) => Ok(ValUnc { val, unc }),
        RawValue::BadLength(found) => Err(DecodeError::LengthMismatch { expected: 2, found }),
        RawValue::BadElement(field) => Err(DecodeError::TypeMismatch { field }),
    }
}

} // verus!
