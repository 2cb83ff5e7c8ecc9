//! The zero-test capability: represent, detect, and reset an absence of
//! uncertainty.
//!
//! It is defined for the primitive integer types and for the
//! unit type, and lifted component-wise to tuples elsewhere in the crate. The
//! serialization bridge consults it to pick the compact shape; arithmetic
//! never does.
use vstd::prelude::*;

verus! {

/// An uncertainty type that can represent, detect, and reset a
/// "no uncertainty" state.
pub trait UncZero: Sized {
    /// The distinguished zero instance of this type.
    /// A type that does not state it leaves it unspecified.
    open spec fn spec_zero() -> Self {
        vstd::pervasive::arbitrary()
    }

    /// Whether an instance carries no uncertainty.
    /// A type that does not state its test leaves it unspecified.
    open spec fn spec_is_zero(&self) -> bool {
        vstd::pervasive::arbitrary()
    }

    /// Construct the zero instance.
    fn zero() -> (r: Self)
        ensures
            r == Self::spec_zero(),
            r.spec_is_zero(),
    ;

    /// Test whether this instance is zero.
    fn is_zero(&self) -> (r: bool)
        ensures
            r == self.spec_is_zero(),
    ;

    /// Reset this instance to zero in place.
    fn set_zero(&mut self)
        ensures
            *final(self) == Self::spec_zero(),
            final(self).spec_is_zero(),
    ;
}

impl UncZero for () {
    open spec fn spec_zero() -> Self {
        ()
    }

    open spec fn spec_is_zero(&self) -> bool {
        true
    }

    fn zero() -> (r: Self) {
        ()
    }

    fn is_zero(&self) -> (r: bool) {
        true
    }

    fn set_zero(&mut self) {
    }
}

impl UncZero for u8 {
    open spec fn spec_zero() -> Self {
        0u8
    }

    open spec fn spec_is_zero(&self) -> bool {
        *self == 0u8
    }

    fn zero() -> (r: Self) {
        0u8
    }

    fn is_zero(&self) -> (r: bool) {
        *self == 0u8
    }

    fn set_zero(&mut self) {
        *self = 0u8;
    }
}

impl UncZero for u16 {
    open spec fn spec_zero() -> Self {
        0u16
    }

    open spec fn spec_is_zero(&self) -> bool {
        *self == 0u16
    }

    fn zero() -> (r: Self) {
        0u16
    }

    fn is_zero(&self) -> (r: bool) {
        *self == 0u16
    }

    fn set_zero(&mut self) {
        *self = 0u16;
    }
}

impl UncZero for u32 {
    open spec fn spec_zero() -> Self {
        0u32
    }

    open spec fn spec_is_zero(&self) -> bool {
        *self == 0u32
    }

    fn zero() -> (r: Self) {
        0u32
    }

    fn is_zero(&self) -> (r: bool) {
        *self == 0u32
    }

    fn set_zero(&mut self) {
        *self = 0u32;
    }
}

impl UncZero for u64 {
    open spec fn spec_zero() -> Self {
        0u64
    }

    open spec fn spec_is_zero(&self) -> bool {
        *self == 0u64
    }

    fn zero() -> (r: Self) {
        0u64
    }

    fn is_zero(&self) -> (r: bool) {
        *self == 0u64
    }

    fn set_zero(&mut self) {
        *self = 0u64;
    }
}

impl UncZero for u128 {
    open spec fn spec_zero() -> Self {
        0u128
    }

    open spec fn spec_is_zero(&self) -> bool {
        *self == 0u128
    }

    fn zero() -> (r: Self) {
        0u128
    }

    fn is_zero(&self) -> (r: bool) {
        *self == 0u128
    }

    fn set_zero(&mut self) {
        *self = 0u128;
    }
}

impl UncZero for usize {
    open spec fn spec_zero() -> Self {
        0usize
    }

    open spec fn spec_is_zero(&self) -> bool {
        *self == 0usize
    }

    fn zero() -> (r: Self) {
        0usize
    }

    fn is_zero(&self) -> (r: bool) {
        *self == 0usize
    }

    fn set_zero(&mut self) {
        *self = 0usize;
    }
}

impl UncZero for i8 {
    open spec fn spec_zero() -> Self {
        0i8
    }

    open spec fn spec_is_zero(&self) -> bool {
        *self == 0i8
    }

    fn zero() -> (r: Self) {
        0i8
    }

    fn is_zero(&self) -> (r: bool) {
        *self == 0i8
    }

    fn set_zero(&mut self) {
        *self = 0i8;
    }
}

impl UncZero for i16 {
    open spec fn spec_zero() -> Self {
        0i16
    }

    open spec fn spec_is_zero(&self) -> bool {
        *self == 0i16
    }

    fn zero() -> (r: Self) {
        0i16
    }

    fn is_zero(&self) -> (r: bool) {
        *self == 0i16
    }

    fn set_zero(&mut self) {
        *self = 0i16;
    }
}

impl UncZero for i32 {
    open spec fn spec_zero() -> Self {
        0i32
    }

    open spec fn spec_is_zero(&self) -> bool {
        *self == 0i32
    }

    fn zero() -> (r: Self) {
        0i32
    }

    fn is_zero(&self) -> (r: bool) {
        *self == 0i32
    }

    fn set_zero(&mut self) {
        *self = 0i32;
    }
}

impl UncZero for i64 {
    open spec fn spec_zero() -> Self {
        0i64
    }

    open spec fn spec_is_zero(&self) -> bool {
        *self == 0i64
    }

    fn zero() -> (r: Self) {
        0i64
    }

    fn is_zero(&self) -> (r: bool) {
        *self == 0i64
    }

    fn set_zero(&mut self) {
        *self = 0i64;
    }
}

impl UncZero for i128 {
    open spec fn spec_zero() -> Self {
        0i128
    }

    open spec fn spec_is_zero(&self) -> bool {
        *self == 0i128
    }

    fn zero() -> (r: Self) {
        0i128
    }

    fn is_zero(&self) -> (r: bool) {
        *self == 0i128
    }

    fn set_zero(&mut self) {
        *self = 0i128;
    }
}

impl UncZero for isize {
    open spec fn spec_zero() -> Self {
        0isize
    }

    open spec fn spec_is_zero(&self) -> bool {
        *self == 0isize
    }

    fn zero() -> (r: Self) {
        0isize
    }

    fn is_zero(&self) -> (r: bool) {
        *self == 0isize
    }

    fn set_zero(&mut self) {
        *self = 0isize;
    }
}

} // verus!
