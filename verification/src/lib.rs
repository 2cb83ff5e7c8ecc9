//! Quantities that carry a central value together with one or more
//! independent uncertainty components, and arithmetic that propagates the
//! components by pluggable combination rules.
//!
//! The [`ValUnc`] entity pairs a central value `val` with an uncertainty
//! payload `unc`. The payload may be any type: a scalar, a structured type
//! such as [`Unc`], or an ordered tuple of several independent uncertainty
//! kinds. An arithmetic operation on [`ValUnc`] exists exactly when the value
//! type supports the scalar operator and the payload type implements the
//! matching capability contract from [`ops`]; the contracts are opt-in, and
//! each implementing type states its own combination rule. Tuples of
//! capability-bearing types implement every capability component-wise, so a
//! value can carry several uncertainty kinds that combine by different rules.
//!
//! The [`num::UncZero`] capability lets a payload represent, detect, and
//! reset an absence of uncertainty; the [`codec`] module builds on it to
//! offer the two-shape serialized form, which collapses a quantity with zero
//! uncertainty to its bare value.

mod codec;
mod laws;
mod num;
mod ops;
mod tuple_num;
mod tuple_ops;
mod unc;
mod val_unc;

pub use codec::DecodeError;
pub use codec::RawValue;
pub use codec::ValUncTuple;
pub use codec::decode_raw;
pub use codec::spec_decode;
pub use codec::spec_decode_raw;
pub use codec::spec_encode;
pub use laws::lemma_encode_decode_round_trip;
pub use laws::lemma_neg_keeps_unc;
pub use laws::lemma_tuple0_add_position_preserving;
pub use laws::lemma_tuple1_add_position_preserving;
pub use laws::lemma_tuple2_add_position_preserving;
pub use laws::lemma_tuple3_add_position_preserving;
pub use laws::lemma_tuple4_add_position_preserving;
pub use laws::lemma_tuple5_add_position_preserving;
pub use laws::lemma_tuple6_add_position_preserving;
pub use laws::lemma_tuple7_add_position_preserving;
pub use laws::lemma_tuple8_add_position_preserving;
pub use laws::lemma_tuple9_add_position_preserving;
pub use laws::lemma_tuple10_add_position_preserving;
pub use laws::lemma_tuple11_add_position_preserving;
pub use laws::lemma_tuple12_add_position_preserving;
pub use laws::zero_round_trip;
pub use laws::set_zero_round_trip;
pub use num::UncZero;
pub use ops::UncAdd;
pub use ops::UncDiv;
pub use ops::UncMul;
pub use ops::UncNeg;
pub use ops::UncSub;
pub use unc::Magnitude;
pub use unc::Unc;
pub use val_unc::ValUnc;
