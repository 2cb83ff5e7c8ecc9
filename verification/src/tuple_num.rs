//! Component-wise lifting of the zero-test capability to tuples.
//!
//! A tuple is zero exactly when every component reports zero; constructing a
//! tuple zero constructs each component's zero; resetting a tuple resets
//! every component. The unit type's instance lives beside the trait itself.
use vstd::prelude::*;

verus! {

use crate::num::UncZero;

impl<U0: UncZero> UncZero for (U0,) {
    open spec fn spec_zero() -> Self {
        (U0::spec_zero(),)
    }

    open spec fn spec_is_zero(&self) -> bool {
        self.0.spec_is_zero()
    }

    fn zero() -> (r: Self) {
        (U0::zero(),)
    }

    fn is_zero(&self) -> (r: bool) {
        self.0.is_zero()
    }

    fn set_zero(&mut self) {
        self.0.set_zero();
    }
}

impl<U0: UncZero, U1: UncZero> UncZero for (U0, U1) {
    open spec fn spec_zero() -> Self {
        (
            U0::spec_zero(),
            U1::spec_zero(),
        )
    }

    open spec fn spec_is_zero(&self) -> bool {
        self.0.spec_is_zero() && self.1.spec_is_zero()
    }

    fn zero() -> (r: Self) {
        (
            U0::zero(),
            U1::zero(),
        )
    }

    fn is_zero(&self) -> (r: bool) {
        self.0.is_zero() && self.1.is_zero()
    }

    fn set_zero(&mut self) {
        self.0.set_zero();
        self.1.set_zero();
    }
}

impl<U0: UncZero, U1: UncZero, U2: UncZero> UncZero for (U0, U1, U2) {
    open spec fn spec_zero() -> Self {
        (
            U0::spec_zero(),
            U1::spec_zero(),
            U2::spec_zero(),
        )
    }

    open spec fn spec_is_zero(&self) -> bool {
        self.0.spec_is_zero() && self.1.spec_is_zero() && self.2.spec_is_zero()
    }

    fn zero() -> (r: Self) {
        (
            U0::zero(),
            U1::zero(),
            U2::zero(),
        )
    }

    fn is_zero(&self) -> (r: bool) {
        self.0.is_zero() && self.1.is_zero() && self.2.is_zero()
    }

    fn set_zero(&mut self) {
        self.0.set_zero();
        self.1.set_zero();
        self.2.set_zero();
    }
}

impl<U0: UncZero, U1: UncZero, U2: UncZero, U3: UncZero> UncZero for (U0, U1, U2, U3) {
    open spec fn spec_zero() -> Self {
        (
            U0::spec_zero(),
            U1::spec_zero(),
            U2::spec_zero(),
            U3::spec_zero(),
        )
    }

    open spec fn spec_is_zero(&self) -> bool {
        self.0.spec_is_zero() && self.1.spec_is_zero() && self.2.spec_is_zero() && self.3.spec_is_zero()
    }

    fn zero() -> (r: Self) {
        (
            U0::zero(),
            U1::zero(),
            U2::zero(),
            U3::zero(),
        )
    }

    fn is_zero(&self) -> (r: bool) {
        self.0.is_zero() && self.1.is_zero() && self.2.is_zero() && self.3.is_zero()
    }

    fn set_zero(&mut self) {
        self.0.set_zero();
        self.1.set_zero();
        self.2.set_zero();
        self.3.set_zero();
    }
}

impl<U0: UncZero, U1: UncZero, U2: UncZero, U3: UncZero, U4: UncZero> UncZero for (U0, U1, U2, U3, U4) {
    open spec fn spec_zero() -> Self {
        (
            U0::spec_zero(),
            U1::spec_zero(),
            U2::spec_zero(),
            U3::spec_zero(),
            U4::spec_zero(),
        )
    }

    open spec fn spec_is_zero(&self) -> bool {
        self.0.spec_is_zero() && self.1.spec_is_zero() && self.2.spec_is_zero() && self.3.spec_is_zero() && self.4.spec_is_zero()
    }

    fn zero() -> (r: Self) {
        (
            U0::zero(),
            U1::zero(),
            U2::zero(),
            U3::zero(),
            U4::zero(),
        )
    }

    fn is_zero(&self) -> (r: bool) {
        self.0.is_zero() && self.1.is_zero() && self.2.is_zero() && self.3.is_zero() && self.4.is_zero()
    }

    fn set_zero(&mut self) {
        self.0.set_zero();
        self.1.set_zero();
        self.2.set_zero();
        self.3.set_zero();
        self.4.set_zero();
    }
}

impl<U0: UncZero, U1: UncZero, U2: UncZero, U3: UncZero, U4: UncZero, U5: UncZero> UncZero for (U0, U1, U2, U3, U4, U5) {
    open spec fn spec_zero() -> Self {
        (
            U0::spec_zero(),
            U1::spec_zero(),
            U2::spec_zero(),
            U3::spec_zero(),
            U4::spec_zero(),
            U5::spec_zero(),
        )
    }

    open spec fn spec_is_zero(&self) -> bool {
        self.0.spec_is_zero() && self.1.spec_is_zero() && self.2.spec_is_zero() && self.3.spec_is_zero() && self.4.spec_is_zero() && self.5.spec_is_zero()
    }

    fn zero() -> (r: Self) {
        (
            U0::zero(),
            U1::zero(),
            U2::zero(),
            U3::zero(),
            U4::zero(),
            U5::zero(),
        )
    }

    fn is_zero(&self) -> (r: bool) {
        self.0.is_zero() && self.1.is_zero() && self.2.is_zero() && self.3.is_zero() && self.4.is_zero() && self.5.is_zero()
    }

    fn set_zero(&mut self) {
        self.0.set_zero();
        self.1.set_zero();
        self.2.set_zero();
        self.3.set_zero();
        self.4.set_zero();
        self.5.set_zero();
    }
}

impl<U0: UncZero, U1: UncZero, U2: UncZero, U3: UncZero, U4: UncZero, U5: UncZero, U6: UncZero> UncZero for (U0, U1, U2, U3, U4, U5, U6) {
    open spec fn spec_zero() -> Self {
        (
            U0::spec_zero(),
            U1::spec_zero(),
            U2::spec_zero(),
            U3::spec_zero(),
            U4::spec_zero(),
            U5::spec_zero(),
            U6::spec_zero(),
        )
    }

    open spec fn spec_is_zero(&self) -> bool {
        self.0.spec_is_zero() && self.1.spec_is_zero() && self.2.spec_is_zero() && self.3.spec_is_zero() && self.4.spec_is_zero() && self.5.spec_is_zero() && self.6.spec_is_zero()
    }

    fn zero() -> (r: Self) {
        (
            U0::zero(),
            U1::zero(),
            U2::zero(),
            U3::zero(),
            U4::zero(),
            U5::zero(),
            U6::zero(),
        )
    }

    fn is_zero(&self) -> (r: bool) {
        self.0.is_zero() && self.1.is_zero() && self.2.is_zero() && self.3.is_zero() && self.4.is_zero() && self.5.is_zero() && self.6.is_zero()
    }

    fn set_zero(&mut self) {
        self.0.set_zero();
        self.1.set_zero();
        self.2.set_zero();
        self.3.set_zero();
        self.4.set_zero();
        self.5.set_zero();
        self.6.set_zero();
    }
}

impl<U0: UncZero, U1: UncZero, U2: UncZero, U3: UncZero, U4: UncZero, U5: UncZero, U6: UncZero, U7: UncZero> UncZero for (U0, U1, U2, U3, U4, U5, U6, U7) {
    open spec fn spec_zero() -> Self {
        (
            U0::spec_zero(),
            U1::spec_zero(),
            U2::spec_zero(),
            U3::spec_zero(),
            U4::spec_zero(),
            U5::spec_zero(),
            U6::spec_zero(),
            U7::spec_zero(),
        )
    }

    open spec fn spec_is_zero(&self) -> bool {
        self.0.spec_is_zero() && self.1.spec_is_zero() && self.2.spec_is_zero() && self.3.spec_is_zero() && self.4.spec_is_zero() && self.5.spec_is_zero() && self.6.spec_is_zero() && self.7.spec_is_zero()
    }

    fn zero() -> (r: Self) {
        (
            U0::zero(),
            U1::zero(),
            U2::zero(),
            U3::zero(),
            U4::zero(),
            U5::zero(),
            U6::zero(),
            U7::zero(),
        )
    }

    fn is_zero(&self) -> (r: bool) {
        self.0.is_zero() && self.1.is_zero() && self.2.is_zero() && self.3.is_zero() && self.4.is_zero() && self.5.is_zero() && self.6.is_zero() && self.7.is_zero()
    }

    fn set_zero(&mut self) {
        self.0.set_zero();
        self.1.set_zero();
        self.2.set_zero();
        self.3.set_zero();
        self.4.set_zero();
        self.5.set_zero();
        self.6.set_zero();
        self.7.set_zero();
    }
}

impl<U0: UncZero, U1: UncZero, U2: UncZero, U3: UncZero, U4: UncZero, U5: UncZero, U6: UncZero, U7: UncZero, U8: UncZero> UncZero for (U0, U1, U2, U3, U4, U5, U6, U7, U8) {
    open spec fn spec_zero() -> Self {
        (
            U0::spec_zero(),
            U1::spec_zero(),
            U2::spec_zero(),
            U3::spec_zero(),
            U4::spec_zero(),
            U5::spec_zero(),
            U6::spec_zero(),
            U7::spec_zero(),
            U8::spec_zero(),
        )
    }

    open spec fn spec_is_zero(&self) -> bool {
        self.0.spec_is_zero() && self.1.spec_is_zero() && self.2.spec_is_zero() && self.3.spec_is_zero() && self.4.spec_is_zero() && self.5.spec_is_zero() && self.6.spec_is_zero() && self.7.spec_is_zero() && self.8.spec_is_zero()
    }

    fn zero() -> (r: Self) {
        (
            U0::zero(),
            U1::zero(),
            U2::zero(),
            U3::zero(),
            U4::zero(),
            U5::zero(),
            U6::zero(),
            U7::zero(),
            U8::zero(),
        )
    }

    fn is_zero(&self) -> (r: bool) {
        self.0.is_zero() && self.1.is_zero() && self.2.is_zero() && self.3.is_zero() && self.4.is_zero() && self.5.is_zero() && self.6.is_zero() && self.7.is_zero() && self.8.is_zero()
    }

    fn set_zero(&mut self) {
        self.0.set_zero();
        self.1.set_zero();
        self.2.set_zero();
        self.3.set_zero();
        self.4.set_zero();
        self.5.set_zero();
        self.6.set_zero();
        self.7.set_zero();
        self.8.set_zero();
    }
}

impl<U0: UncZero, U1: UncZero, U2: UncZero, U3: UncZero, U4: UncZero, U5: UncZero, U6: UncZero, U7: UncZero, U8: UncZero, U9: UncZero> UncZero for (U0, U1, U2, U3, U4, U5, U6, U7, U8, U9) {
    open spec fn spec_zero() -> Self {
        (
            U0::spec_zero(),
            U1::spec_zero(),
            U2::spec_zero(),
            U3::spec_zero(),
            U4::spec_zero(),
            U5::spec_zero(),
            U6::spec_zero(),
            U7::spec_zero(),
            U8::spec_zero(),
            U9::spec_zero(),
        )
    }

    open spec fn spec_is_zero(&self) -> bool {
        self.0.spec_is_zero() && self.1.spec_is_zero() && self.2.spec_is_zero() && self.3.spec_is_zero() && self.4.spec_is_zero() && self.5.spec_is_zero() && self.6.spec_is_zero() && self.7.spec_is_zero() && self.8.spec_is_zero() && self.9.spec_is_zero()
    }

    fn zero() -> (r: Self) {
        (
            U0::zero(),
            U1::zero(),
            U2::zero(),
            U3::zero(),
            U4::zero(),
            U5::zero(),
            U6::zero(),
            U7::zero(),
            U8::zero(),
            U9::zero(),
        )
    }

    fn is_zero(&self) -> (r: bool) {
        self.0.is_zero() && self.1.is_zero() && self.2.is_zero() && self.3.is_zero() && self.4.is_zero() && self.5.is_zero() && self.6.is_zero() && self.7.is_zero() && self.8.is_zero() && self.9.is_zero()
    }

    fn set_zero(&mut self) {
        self.0.set_zero();
        self.1.set_zero();
        self.2.set_zero();
        self.3.set_zero();
        self.4.set_zero();
        self.5.set_zero();
        self.6.set_zero();
        self.7.set_zero();
        self.8.set_zero();
        self.9.set_zero();
    }
}

impl<U0: UncZero, U1: UncZero, U2: UncZero, U3: UncZero, U4: UncZero, U5: UncZero, U6: UncZero, U7: UncZero, U8: UncZero, U9: UncZero, U10: UncZero> UncZero for (U0, U1, U2, U3, U4, U5, U6, U7, U8, U9, U10) {
    open spec fn spec_zero() -> Self {
        (
            U0::spec_zero(),
            U1::spec_zero(),
            U2::spec_zero(),
            U3::spec_zero(),
            U4::spec_zero(),
            U5::spec_zero(),
            U6::spec_zero(),
            U7::spec_zero(),
            U8::spec_zero(),
            U9::spec_zero(),
            U10::spec_zero(),
        )
    }

    open spec fn spec_is_zero(&self) -> bool {
        self.0.spec_is_zero() && self.1.spec_is_zero() && self.2.spec_is_zero() && self.3.spec_is_zero() && self.4.spec_is_zero() && self.5.spec_is_zero() && self.6.spec_is_zero() && self.7.spec_is_zero() && self.8.spec_is_zero() && self.9.spec_is_zero() && self.10.spec_is_zero()
    }

    fn zero() -> (r: Self) {
        (
            U0::zero(),
            U1::zero(),
            U2::zero(),
            U3::zero(),
            U4::zero(),
            U5::zero(),
            U6::zero(),
            U7::zero(),
            U8::zero(),
            U9::zero(),
            U10::zero(),
        )
    }

    fn is_zero(&self) -> (r: bool) {
        self.0.is_zero() && self.1.is_zero() && self.2.is_zero() && self.3.is_zero() && self.4.is_zero() && self.5.is_zero() && self.6.is_zero() && self.7.is_zero() && self.8.is_zero() && self.9.is_zero() && self.10.is_zero()
    }

    fn set_zero(&mut self) {
        self.0.set_zero();
        self.1.set_zero();
        self.2.set_zero();
        self.3.set_zero();
        self.4.set_zero();
        self.5.set_zero();
        self.6.set_zero();
        self.7.set_zero();
        self.8.set_zero();
        self.9.set_zero();
        self.10.set_zero();
    }
}

impl<U0: UncZero, U1: UncZero, U2: UncZero, U3: UncZero, U4: UncZero, U5: UncZero, U6: UncZero, U7: UncZero, U8: UncZero, U9: UncZero, U10: UncZero, U11: UncZero> UncZero for (U0, U1, U2, U3, U4, U5, U6, U7, U8, U9, U10, U11) {
    open spec fn spec_zero() -> Self {
        (
            U0::spec_zero(),
            U1::spec_zero(),
            U2::spec_zero(),
            U3::spec_zero(),
            U4::spec_zero(),
            U5::spec_zero(),
            U6::spec_zero(),
            U7::spec_zero(),
            U8::spec_zero(),
            U9::spec_zero(),
            U10::spec_zero(),
            U11::spec_zero(),
        )
    }

    open spec fn spec_is_zero(&self) -> bool {
        self.0.spec_is_zero() && self.1.spec_is_zero() && self.2.spec_is_zero() && self.3.spec_is_zero() && self.4.spec_is_zero() && self.5.spec_is_zero() && self.6.spec_is_zero() && self.7.spec_is_zero() && self.8.spec_is_zero() && self.9.spec_is_zero() && self.10.spec_is_zero() && self.11.spec_is_zero()
    }

    fn zero() -> (r: Self) {
        (
            U0::zero(),
            U1::zero(),
            U2::zero(),
            U3::zero(),
            U4::zero(),
            U5::zero(),
            U6::zero(),
            U7::zero(),
            U8::zero(),
            U9::zero(),
            U10::zero(),
            U11::zero(),
        )
    }

    fn is_zero(&self) -> (r: bool) {
        self.0.is_zero() && self.1.is_zero() && self.2.is_zero() && self.3.is_zero() && self.4.is_zero() && self.5.is_zero() && self.6.is_zero() && self.7.is_zero() && self.8.is_zero() && self.9.is_zero() && self.10.is_zero() && self.11.is_zero()
    }

    fn set_zero(&mut self) {
        self.0.set_zero();
        self.1.set_zero();
        self.2.set_zero();
        self.3.set_zero();
        self.4.set_zero();
        self.5.set_zero();
        self.6.set_zero();
        self.7.set_zero();
        self.8.set_zero();
        self.9.set_zero();
        self.10.set_zero();
        self.11.set_zero();
    }
}

} // verus!
