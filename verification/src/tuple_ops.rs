//! Component-wise lifting of the propagation capabilities to tuples.
//!
//! For every arity up to twelve, a tuple whose element types each implement a
//! capability implements that capability itself: the element-wise rule is
//! applied independently at each position, in index order, and the results
//! are reassembled into a same-shaped tuple. Position `i` of the left operand
//! only ever combines with position `i` of the right operand; components are
//! treated as statistically independent. The empty tuple satisfies every
//! capability by producing itself, so "no uncertainty tracked" is a valid,
//! fully composable payload.
use vstd::prelude::*;

verus! {

use crate::ops::UncAdd;
use crate::ops::UncDiv;
use crate::ops::UncMul;
use crate::ops::UncNeg;
use crate::ops::UncSub;

impl<V: Copy> UncAdd<V> for () {
    open spec fn spec_unc_add(self, self_val: V, other: Self, other_val: V) -> Self {
        ()
    }

    fn unc_add(self, self_val: V, other: Self, other_val: V) -> (r: Self) {
        ()
    }
}

impl<V: Copy> UncDiv<V> for () {
    open spec fn spec_unc_div(self, self_val: V, other: Self, other_val: V) -> Self {
        ()
    }

    fn unc_div(self, self_val: V, other: Self, other_val: V) -> (r: Self) {
        ()
    }
}

impl<V: Copy> UncMul<V> for () {
    open spec fn spec_unc_mul(self, self_val: V, other: Self, other_val: V) -> Self {
        ()
    }

    fn unc_mul(self, self_val: V, other: Self, other_val: V) -> (r: Self) {
        ()
    }
}

impl<V: Copy> UncNeg<V> for () {
    open spec fn spec_unc_neg(self, self_val: V) -> Self {
        ()
    }

    fn unc_neg(self, self_val: V) -> (r: Self) {
        ()
    }
}

impl<V: Copy> UncSub<V> for () {
    open spec fn spec_unc_sub(self, self_val: V, other: Self, other_val: V) -> Self {
        ()
    }

    fn unc_sub(self, self_val: V, other: Self, other_val: V) -> (r: Self) {
        ()
    }
}

impl<V: Copy, U0: UncAdd<V>> UncAdd<V> for (U0,) {
    open spec fn spec_unc_add(self, self_val: V, other: Self, other_val: V) -> Self {
        (
            self.0.spec_unc_add(self_val, other.0, other_val),
        )
    }

    fn unc_add(self, self_val: V, other: Self, other_val: V) -> (r: Self) {
        (self.0.unc_add(self_val, other.0, other_val),)
    }
}

impl<V: Copy, U0: UncDiv<V>> UncDiv<V> for (U0,) {
    open spec fn spec_unc_div(self, self_val: V, other: Self, other_val: V) -> Self {
        (
            self.0.spec_unc_div(self_val, other.0, other_val),
        )
    }

    fn unc_div(self, self_val: V, other: Self, other_val: V) -> (r: Self) {
        (self.0.unc_div(self_val, other.0, other_val),)
    }
}

impl<V: Copy, U0: UncMul<V>> UncMul<V> for (U0,) {
    open spec fn spec_unc_mul(self, self_val: V, other: Self, other_val: V) -> Self {
        (
            self.0.spec_unc_mul(self_val, other.0, other_val),
        )
    }

    fn unc_mul(self, self_val: V, other: Self, other_val: V) -> (r: Self) {
        (self.0.unc_mul(self_val, other.0, other_val),)
    }
}

impl<V: Copy, U0: UncNeg<V>> UncNeg<V> for (U0,) {
    open spec fn spec_unc_neg(self, self_val: V) -> Self {
        (self.0.spec_unc_neg(self_val),)
    }

    fn unc_neg(self, self_val: V) -> (r: Self) {
        (self.0.unc_neg(self_val),)
    }
}

impl<V: Copy, U0: UncSub<V>> UncSub<V> for (U0,) {
    open spec fn spec_unc_sub(self, self_val: V, other: Self, other_val: V) -> Self {
        (
            self.0.spec_unc_sub(self_val, other.0, other_val),
        )
    }

    fn unc_sub(self, self_val: V, other: Self, other_val: V) -> (r: Self) {
        (self.0.unc_sub(self_val, other.0, other_val),)
    }
}

impl<V: Copy, U0: UncAdd<V>, U1: UncAdd<V>> UncAdd<V> for (U0, U1) {
    open spec fn spec_unc_add(self, self_val: V, other: Self, other_val: V) -> Self {
        (
            self.0.spec_unc_add(self_val, other.0, other_val),
            self.1.spec_unc_add(self_val, other.1, other_val),
        )
    }

    fn unc_add(self, self_val: V, other: Self, other_val: V) -> (r: Self) {
        (
            self.0.unc_add(self_val, other.0, other_val),
            self.1.unc_add(self_val, other.1, other_val),
        )
    }
}

impl<V: Copy, U0: UncDiv<V>, U1: UncDiv<V>> UncDiv<V> for (U0, U1) {
    open spec fn spec_unc_div(self, self_val: V, other: Self, other_val: V) -> Self {
        (
            self.0.spec_unc_div(self_val, other.0, other_val),
            self.1.spec_unc_div(self_val, other.1, other_val),
        )
    }

    fn unc_div(self, self_val: V, other: Self, other_val: V) -> (r: Self) {
        (
            self.0.unc_div(self_val, other.0, other_val),
            self.1.unc_div(self_val, other.1, other_val),
        )
    }
}

impl<V: Copy, U0: UncMul<V>, U1: UncMul<V>> UncMul<V> for (U0, U1) {
    open spec fn spec_unc_mul(self, self_val: V, other: Self, other_val: V) -> Self {
        (
            self.0.spec_unc_mul(self_val, other.0, other_val),
            self.1.spec_unc_mul(self_val, other.1, other_val),
        )
    }

    fn unc_mul(self, self_val: V, other: Self, other_val: V) -> (r: Self) {
        (
            self.0.unc_mul(self_val, other.0, other_val),
            self.1.unc_mul(self_val, other.1, other_val),
        )
    }
}

impl<V: Copy, U0: UncNeg<V>, U1: UncNeg<V>> UncNeg<V> for (U0, U1) {
    open spec fn spec_unc_neg(self, self_val: V) -> Self {
        (
            self.0.spec_unc_neg(self_val),
            self.1.spec_unc_neg(self_val),
        )
    }

    fn unc_neg(self, self_val: V) -> (r: Self) {
        (
            self.0.unc_neg(self_val),
            self.1.unc_neg(self_val),
        )
    }
}

impl<V: Copy, U0: UncSub<V>, U1: UncSub<V>> UncSub<V> for (U0, U1) {
    open spec fn spec_unc_sub(self, self_val: V, other: Self, other_val: V) -> Self {
        (
            self.0.spec_unc_sub(self_val, other.0, other_val),
            self.1.spec_unc_sub(self_val, other.1, other_val),
        )
    }

    fn unc_sub(self, self_val: V, other: Self, other_val: V) -> (r: Self) {
        (
            self.0.unc_sub(self_val, other.0, other_val),
            self.1.unc_sub(self_val, other.1, other_val),
        )
    }
}

impl<V: Copy, U0: UncAdd<V>, U1: UncAdd<V>, U2: UncAdd<V>> UncAdd<V> for (U0, U1, U2) {
    open spec fn spec_unc_add(self, self_val: V, other: Self, other_val: V) -> Self {
        (
            self.0.spec_unc_add(self_val, other.0, other_val),
            self.1.spec_unc_add(self_val, other.1, other_val),
            self.2.spec_unc_add(self_val, other.2, other_val),
        )
    }

    fn unc_add(self, self_val: V, other: Self, other_val: V) -> (r: Self) {
        (
            self.0.unc_add(self_val, other.0, other_val),
            self.1.unc_add(self_val, other.1, other_val),
            self.2.unc_add(self_val, other.2, other_val),
        )
    }
}

impl<V: Copy, U0: UncDiv<V>, U1: UncDiv<V>, U2: UncDiv<V>> UncDiv<V> for (U0, U1, U2) {
    open spec fn spec_unc_div(self, self_val: V, other: Self, other_val: V) -> Self {
        (
            self.0.spec_unc_div(self_val, other.0, other_val),
            self.1.spec_unc_div(self_val, other.1, other_val),
            self.2.spec_unc_div(self_val, other.2, other_val),
        )
    }

    fn unc_div(self, self_val: V, other: Self, other_val: V) -> (r: Self) {
        (
            self.0.unc_div(self_val, other.0, other_val),
            self.1.unc_div(self_val, other.1, other_val),
            self.2.unc_div(self_val, other.2, other_val),
        )
    }
}

impl<V: Copy, U0: UncMul<V>, U1: UncMul<V>, U2: UncMul<V>> UncMul<V> for (U0, U1, U2) {
    open spec fn spec_unc_mul(self, self_val: V, other: Self, other_val: V) -> Self {
        (
            self.0.spec_unc_mul(self_val, other.0, other_val),
            self.1.spec_unc_mul(self_val, other.1, other_val),
            self.2.spec_unc_mul(self_val, other.2, other_val),
        )
    }

    fn unc_mul(self, self_val: V, other: Self, other_val: V) -> (r: Self) {
        (
            self.0.unc_mul(self_val, other.0, other_val),
            self.1.unc_mul(self_val, other.1, other_val),
            self.2.unc_mul(self_val, other.2, other_val),
        )
    }
}

impl<V: Copy, U0: UncNeg<V>, U1: UncNeg<V>, U2: UncNeg<V>> UncNeg<V> for (U0, U1, U2) {
    open spec fn spec_unc_neg(self, self_val: V) -> Self {
        (
            self.0.spec_unc_neg(self_val),
            self.1.spec_unc_neg(self_val),
            self.2.spec_unc_neg(self_val),
        )
    }

    fn unc_neg(self, self_val: V) -> (r: Self) {
        (
            self.0.unc_neg(self_val),
            self.1.unc_neg(self_val),
            self.2.unc_neg(self_val),
        )
    }
}

impl<V: Copy, U0: UncSub<V>, U1: UncSub<V>, U2: UncSub<V>> UncSub<V> for (U0, U1, U2) {
    open spec fn spec_unc_sub(self, self_val: V, other: Self, other_val: V) -> Self {
        (
            self.0.spec_unc_sub(self_val, other.0, other_val),
            self.1.spec_unc_sub(self_val, other.1, other_val),
            self.2.spec_unc_sub(self_val, other.2, other_val),
        )
    }

    fn unc_sub(self, self_val: V, other: Self, other_val: V) -> (r: Self) {
        (
            self.0.unc_sub(self_val, other.0, other_val),
            self.1.unc_sub(self_val, other.1, other_val),
            self.2.unc_sub(self_val, other.2, other_val),
        )
    }
}

impl<V: Copy, U0: UncAdd<V>, U1: UncAdd<V>, U2: UncAdd<V>, U3: UncAdd<V>> UncAdd<V> for (U0, U1, U2, U3) {
    open spec fn spec_unc_add(self, self_val: V, other: Self, other_val: V) -> Self {
        (
            self.0.spec_unc_add(self_val, other.0, other_val),
            self.1.spec_unc_add(self_val, other.1, other_val),
            self.2.spec_unc_add(self_val, other.2, other_val),
            self.3.spec_unc_add(self_val, other.3, other_val),
        )
    }

    fn unc_add(self, self_val: V, other: Self, other_val: V) -> (r: Self) {
        (
            self.0.unc_add(self_val, other.0, other_val),
            self.1.unc_add(self_val, other.1, other_val),
            self.2.unc_add(self_val, other.2, other_val),
            self.3.unc_add(self_val, other.3, other_val),
        )
    }
}

impl<V: Copy, U0: UncDiv<V>, U1: UncDiv<V>, U2: UncDiv<V>, U3: UncDiv<V>> UncDiv<V> for (U0, U1, U2, U3) {
    open spec fn spec_unc_div(self, self_val: V, other: Self, other_val: V) -> Self {
        (
            self.0.spec_unc_div(self_val, other.0, other_val),
            self.1.spec_unc_div(self_val, other.1, other_val),
            self.2.spec_unc_div(self_val, other.2, other_val),
            self.3.spec_unc_div(self_val, other.3, other_val),
        )
    }

    fn unc_div(self, self_val: V, other: Self, other_val: V) -> (r: Self) {
        (
            self.0.unc_div(self_val, other.0, other_val),
            self.1.unc_div(self_val, other.1, other_val),
            self.2.unc_div(self_val, other.2, other_val),
            self.3.unc_div(self_val, other.3, other_val),
        )
    }
}

impl<V: Copy, U0: UncMul<V>, U1: UncMul<V>, U2: UncMul<V>, U3: UncMul<V>> UncMul<V> for (U0, U1, U2, U3) {
    open spec fn spec_unc_mul(self, self_val: V, other: Self, other_val: V) -> Self {
        (
            self.0.spec_unc_mul(self_val, other.0, other_val),
            self.1.spec_unc_mul(self_val, other.1, other_val),
            self.2.spec_unc_mul(self_val, other.2, other_val),
            self.3.spec_unc_mul(self_val, other.3, other_val),
        )
    }

    fn unc_mul(self, self_val: V, other: Self, other_val: V) -> (r: Self) {
        (
            self.0.unc_mul(self_val, other.0, other_val),
            self.1.unc_mul(self_val, other.1, other_val),
            self.2.unc_mul(self_val, other.2, other_val),
            self.3.unc_mul(self_val, other.3, other_val),
        )
    }
}

impl<V: Copy, U0: UncNeg<V>, U1: UncNeg<V>, U2: UncNeg<V>, U3: UncNeg<V>> UncNeg<V> for (U0, U1, U2, U3) {
    open spec fn spec_unc_neg(self, self_val: V) -> Self {
        (
            self.0.spec_unc_neg(self_val),
            self.1.spec_unc_neg(self_val),
            self.2.spec_unc_neg(self_val),
            self.3.spec_unc_neg(self_val),
        )
    }

    fn unc_neg(self, self_val: V) -> (r: Self) {
        (
            self.0.unc_neg(self_val),
            self.1.unc_neg(self_val),
            self.2.unc_neg(self_val),
            self.3.unc_neg(self_val),
        )
    }
}

impl<V: Copy, U0: UncSub<V>, U1: UncSub<V>, U2: UncSub<V>, U3: UncSub<V>> UncSub<V> for (U0, U1, U2, U3) {
    open spec fn spec_unc_sub(self, self_val: V, other: Self, other_val: V) -> Self {
        (
            self.0.spec_unc_sub(self_val, other.0, other_val),
            self.1.spec_unc_sub(self_val, other.1, other_val),
            self.2.spec_unc_sub(self_val, other.2, other_val),
            self.3.spec_unc_sub(self_val, other.3, other_val),
        )
    }

    fn unc_sub(self, self_val: V, other: Self, other_val: V) -> (r: Self) {
        (
            self.0.unc_sub(self_val, other.0, other_val),
            self.1.unc_sub(self_val, other.1, other_val),
            self.2.unc_sub(self_val, other.2, other_val),
            self.3.unc_sub(self_val, other.3, other_val),
        )
    }
}

impl<V: Copy, U0: UncAdd<V>, U1: UncAdd<V>, U2: UncAdd<V>, U3: UncAdd<V>, U4: UncAdd<V>> UncAdd<V> for (U0, U1, U2, U3, U4) {
    open spec fn spec_unc_add(self, self_val: V, other: Self, other_val: V) -> Self {
        (
            self.0.spec_unc_add(self_val, other.0, other_val),
            self.1.spec_unc_add(self_val, other.1, other_val),
            self.2.spec_unc_add(self_val, other.2, other_val),
            self.3.spec_unc_add(self_val, other.3, other_val),
            self.4.spec_unc_add(self_val, other.4, other_val),
        )
    }

    fn unc_add(self, self_val: V, other: Self, other_val: V) -> (r: Self) {
        (
            self.0.unc_add(self_val, other.0, other_val),
            self.1.unc_add(self_val, other.1, other_val),
            self.2.unc_add(self_val, other.2, other_val),
            self.3.unc_add(self_val, other.3, other_val),
            self.4.unc_add(self_val, other.4, other_val),
        )
    }
}

impl<V: Copy, U0: UncDiv<V>, U1: UncDiv<V>, U2: UncDiv<V>, U3: UncDiv<V>, U4: UncDiv<V>> UncDiv<V> for (U0, U1, U2, U3, U4) {
    open spec fn spec_unc_div(self, self_val: V, other: Self, other_val: V) -> Self {
        (
            self.0.spec_unc_div(self_val, other.0, other_val),
            self.1.spec_unc_div(self_val, other.1, other_val),
            self.2.spec_unc_div(self_val, other.2, other_val),
            self.3.spec_unc_div(self_val, other.3, other_val),
            self.4.spec_unc_div(self_val, other.4, other_val),
        )
    }

    fn unc_div(self, self_val: V, other: Self, other_val: V) -> (r: Self) {
        (
            self.0.unc_div(self_val, other.0, other_val),
            self.1.unc_div(self_val, other.1, other_val),
            self.2.unc_div(self_val, other.2, other_val),
            self.3.unc_div(self_val, other.3, other_val),
            self.4.unc_div(self_val, other.4, other_val),
        )
    }
}

impl<V: Copy, U0: UncMul<V>, U1: UncMul<V>, U2: UncMul<V>, U3: UncMul<V>, U4: UncMul<V>> UncMul<V> for (U0, U1, U2, U3, U4) {
    open spec fn spec_unc_mul(self, self_val: V, other: Self, other_val: V) -> Self {
        (
            self.0.spec_unc_mul(self_val, other.0, other_val),
            self.1.spec_unc_mul(self_val, other.1, other_val),
            self.2.spec_unc_mul(self_val, other.2, other_val),
            self.3.spec_unc_mul(self_val, other.3, other_val),
            self.4.spec_unc_mul(self_val, other.4, other_val),
        )
    }

    fn unc_mul(self, self_val: V, other: Self, other_val: V) -> (r: Self) {
        (
            self.0.unc_mul(self_val, other.0, other_val),
            self.1.unc_mul(self_val, other.1, other_val),
            self.2.unc_mul(self_val, other.2, other_val),
            self.3.unc_mul(self_val, other.3, other_val),
            self.4.unc_mul(self_val, other.4, other_val),
        )
    }
}

impl<V: Copy, U0: UncNeg<V>, U1: UncNeg<V>, U2: UncNeg<V>, U3: UncNeg<V>, U4: UncNeg<V>> UncNeg<V> for (U0, U1, U2, U3, U4) {
    open spec fn spec_unc_neg(self, self_val: V) -> Self {
        (
            self.0.spec_unc_neg(self_val),
            self.1.spec_unc_neg(self_val),
            self.2.spec_unc_neg(self_val),
            self.3.spec_unc_neg(self_val),
            self.4.spec_unc_neg(self_val),
        )
    }

    fn unc_neg(self, self_val: V) -> (r: Self) {
        (
            self.0.unc_neg(self_val),
            self.1.unc_neg(self_val),
            self.2.unc_neg(self_val),
            self.3.unc_neg(self_val),
            self.4.unc_neg(self_val),
        )
    }
}

impl<V: Copy, U0: UncSub<V>, U1: UncSub<V>, U2: UncSub<V>, U3: UncSub<V>, U4: UncSub<V>> UncSub<V> for (U0, U1, U2, U3, U4) {
    open spec fn spec_unc_sub(self, self_val: V, other: Self, other_val: V) -> Self {
        (
            self.0.spec_unc_sub(self_val, other.0, other_val),
            self.1.spec_unc_sub(self_val, other.1, other_val),
            self.2.spec_unc_sub(self_val, other.2, other_val),
            self.3.spec_unc_sub(self_val, other.3, other_val),
            self.4.spec_unc_sub(self_val, other.4, other_val),
        )
    }

    fn unc_sub(self, self_val: V, other: Self, other_val: V) -> (r: Self) {
        (
            self.0.unc_sub(self_val, other.0, other_val),
            self.1.unc_sub(self_val, other.1, other_val),
            self.2.unc_sub(self_val, other.2, other_val),
            self.3.unc_sub(self_val, other.3, other_val),
            self.4.unc_sub(self_val, other.4, other_val),
        )
    }
}

impl<V: Copy, U0: UncAdd<V>, U1: UncAdd<V>, U2: UncAdd<V>, U3: UncAdd<V>, U4: UncAdd<V>, U5: UncAdd<V>> UncAdd<V> for (U0, U1, U2, U3, U4, U5) {
    open spec fn spec_unc_add(self, self_val: V, other: Self, other_val: V) -> Self {
        (
            self.0.spec_unc_add(self_val, other.0, other_val),
            self.1.spec_unc_add(self_val, other.1, other_val),
            self.2.spec_unc_add(self_val, other.2, other_val),
            self.3.spec_unc_add(self_val, other.3, other_val),
            self.4.spec_unc_add(self_val, other.4, other_val),
            self.5.spec_unc_add(self_val, other.5, other_val),
        )
    }

    fn unc_add(self, self_val: V, other: Self, other_val: V) -> (r: Self) {
        (
            self.0.unc_add(self_val, other.0, other_val),
            self.1.unc_add(self_val, other.1, other_val),
            self.2.unc_add(self_val, other.2, other_val),
            self.3.unc_add(self_val, other.3, other_val),
            self.4.unc_add(self_val, other.4, other_val),
            self.5.unc_add(self_val, other.5, other_val),
        )
    }
}

impl<V: Copy, U0: UncDiv<V>, U1: UncDiv<V>, U2: UncDiv<V>, U3: UncDiv<V>, U4: UncDiv<V>, U5: UncDiv<V>> UncDiv<V> for (U0, U1, U2, U3, U4, U5) {
    open spec fn spec_unc_div(self, self_val: V, other: Self, other_val: V) -> Self {
        (
            self.0.spec_unc_div(self_val, other.0, other_val),
            self.1.spec_unc_div(self_val, other.1, other_val),
            self.2.spec_unc_div(self_val, other.2, other_val),
            self.3.spec_unc_div(self_val, other.3, other_val),
            self.4.spec_unc_div(self_val, other.4, other_val),
            self.5.spec_unc_div(self_val, other.5, other_val),
        )
    }

    fn unc_div(self, self_val: V, other: Self, other_val: V) -> (r: Self) {
        (
            self.0.unc_div(self_val, other.0, other_val),
            self.1.unc_div(self_val, other.1, other_val),
            self.2.unc_div(self_val, other.2, other_val),
            self.3.unc_div(self_val, other.3, other_val),
            self.4.unc_div(self_val, other.4, other_val),
            self.5.unc_div(self_val, other.5, other_val),
        )
    }
}

impl<V: Copy, U0: UncMul<V>, U1: UncMul<V>, U2: UncMul<V>, U3: UncMul<V>, U4: UncMul<V>, U5: UncMul<V>> UncMul<V> for (U0, U1, U2, U3, U4, U5) {
    open spec fn spec_unc_mul(self, self_val: V, other: Self, other_val: V) -> Self {
        (
            self.0.spec_unc_mul(self_val, other.0, other_val),
            self.1.spec_unc_mul(self_val, other.1, other_val),
            self.2.spec_unc_mul(self_val, other.2, other_val),
            self.3.spec_unc_mul(self_val, other.3, other_val),
            self.4.spec_unc_mul(self_val, other.4, other_val),
            self.5.spec_unc_mul(self_val, other.5, other_val),
        )
    }

    fn unc_mul(self, self_val: V, other: Self, other_val: V) -> (r: Self) {
        (
            self.0.unc_mul(self_val, other.0, other_val),
            self.1.unc_mul(self_val, other.1, other_val),
            self.2.unc_mul(self_val, other.2, other_val),
            self.3.unc_mul(self_val, other.3, other_val),
            self.4.unc_mul(self_val, other.4, other_val),
            self.5.unc_mul(self_val, other.5, other_val),
        )
    }
}

impl<V: Copy, U0: UncNeg<V>, U1: UncNeg<V>, U2: UncNeg<V>, U3: UncNeg<V>, U4: UncNeg<V>, U5: UncNeg<V>> UncNeg<V> for (U0, U1, U2, U3, U4, U5) {
    open spec fn spec_unc_neg(self, self_val: V) -> Self {
        (
            self.0.spec_unc_neg(self_val),
            self.1.spec_unc_neg(self_val),
            self.2.spec_unc_neg(self_val),
            self.3.spec_unc_neg(self_val),
            self.4.spec_unc_neg(self_val),
            self.5.spec_unc_neg(self_val),
        )
    }

    fn unc_neg(self, self_val: V) -> (r: Self) {
        (
            self.0.unc_neg(self_val),
            self.1.unc_neg(self_val),
            self.2.unc_neg(self_val),
            self.3.unc_neg(self_val),
            self.4.unc_neg(self_val),
            self.5.unc_neg(self_val),
        )
    }
}

impl<V: Copy, U0: UncSub<V>, U1: UncSub<V>, U2: UncSub<V>, U3: UncSub<V>, U4: UncSub<V>, U5: UncSub<V>> UncSub<V> for (U0, U1, U2, U3, U4, U5) {
    open spec fn spec_unc_sub(self, self_val: V, other: Self, other_val: V) -> Self {
        (
            self.0.spec_unc_sub(self_val, other.0, other_val),
            self.1.spec_unc_sub(self_val, other.1, other_val),
            self.2.spec_unc_sub(self_val, other.2, other_val),
            self.3.spec_unc_sub(self_val, other.3, other_val),
            self.4.spec_unc_sub(self_val, other.4, other_val),
            self.5.spec_unc_sub(self_val, other.5, other_val),
        )
    }

    fn unc_sub(self, self_val: V, other: Self, other_val: V) -> (r: Self) {
        (
            self.0.unc_sub(self_val, other.0, other_val),
            self.1.unc_sub(self_val, other.1, other_val),
            self.2.unc_sub(self_val, other.2, other_val),
            self.3.unc_sub(self_val, other.3, other_val),
            self.4.unc_sub(self_val, other.4, other_val),
            self.5.unc_sub(self_val, other.5, other_val),
        )
    }
}

impl<V: Copy, U0: UncAdd<V>, U1: UncAdd<V>, U2: UncAdd<V>, U3: UncAdd<V>, U4: UncAdd<V>, U5: UncAdd<V>, U6: UncAdd<V>> UncAdd<V> for (U0, U1, U2, U3, U4, U5, U6) {
    open spec fn spec_unc_add(self, self_val: V, other: Self, other_val: V) -> Self {
        (
            self.0.spec_unc_add(self_val, other.0, other_val),
            self.1.spec_unc_add(self_val, other.1, other_val),
            self.2.spec_unc_add(self_val, other.2, other_val),
            self.3.spec_unc_add(self_val, other.3, other_val),
            self.4.spec_unc_add(self_val, other.4, other_val),
            self.5.spec_unc_add(self_val, other.5, other_val),
            self.6.spec_unc_add(self_val, other.6, other_val),
        )
    }

    fn unc_add(self, self_val: V, other: Self, other_val: V) -> (r: Self) {
        (
            self.0.unc_add(self_val, other.0, other_val),
            self.1.unc_add(self_val, other.1, other_val),
            self.2.unc_add(self_val, other.2, other_val),
            self.3.unc_add(self_val, other.3, other_val),
            self.4.unc_add(self_val, other.4, other_val),
            self.5.unc_add(self_val, other.5, other_val),
            self.6.unc_add(self_val, other.6, other_val),
        )
    }
}

impl<V: Copy, U0: UncDiv<V>, U1: UncDiv<V>, U2: UncDiv<V>, U3: UncDiv<V>, U4: UncDiv<V>, U5: UncDiv<V>, U6: UncDiv<V>> UncDiv<V> for (U0, U1, U2, U3, U4, U5, U6) {
    open spec fn spec_unc_div(self, self_val: V, other: Self, other_val: V) -> Self {
        (
            self.0.spec_unc_div(self_val, other.0, other_val),
            self.1.spec_unc_div(self_val, other.1, other_val),
            self.2.spec_unc_div(self_val, other.2, other_val),
            self.3.spec_unc_div(self_val, other.3, other_val),
            self.4.spec_unc_div(self_val, other.4, other_val),
            self.5.spec_unc_div(self_val, other.5, other_val),
            self.6.spec_unc_div(self_val, other.6, other_val),
        )
    }

    fn unc_div(self, self_val: V, other: Self, other_val: V) -> (r: Self) {
        (
            self.0.unc_div(self_val, other.0, other_val),
            self.1.unc_div(self_val, other.1, other_val),
            self.2.unc_div(self_val, other.2, other_val),
            self.3.unc_div(self_val, other.3, other_val),
            self.4.unc_div(self_val, other.4, other_val),
            self.5.unc_div(self_val, other.5, other_val),
            self.6.unc_div(self_val, other.6, other_val),
        )
    }
}

impl<V: Copy, U0: UncMul<V>, U1: UncMul<V>, U2: UncMul<V>, U3: UncMul<V>, U4: UncMul<V>, U5: UncMul<V>, U6: UncMul<V>> UncMul<V> for (U0, U1, U2, U3, U4, U5, U6) {
    open spec fn spec_unc_mul(self, self_val: V, other: Self, other_val: V) -> Self {
        (
            self.0.spec_unc_mul(self_val, other.0, other_val),
            self.1.spec_unc_mul(self_val, other.1, other_val),
            self.2.spec_unc_mul(self_val, other.2, other_val),
            self.3.spec_unc_mul(self_val, other.3, other_val),
            self.4.spec_unc_mul(self_val, other.4, other_val),
            self.5.spec_unc_mul(self_val, other.5, other_val),
            self.6.spec_unc_mul(self_val, other.6, other_val),
        )
    }

    fn unc_mul(self, self_val: V, other: Self, other_val: V) -> (r: Self) {
        (
            self.0.unc_mul(self_val, other.0, other_val),
            self.1.unc_mul(self_val, other.1, other_val),
            self.2.unc_mul(self_val, other.2, other_val),
            self.3.unc_mul(self_val, other.3, other_val),
            self.4.unc_mul(self_val, other.4, other_val),
            self.5.unc_mul(self_val, other.5, other_val),
            self.6.unc_mul(self_val, other.6, other_val),
        )
    }
}

impl<V: Copy, U0: UncNeg<V>, U1: UncNeg<V>, U2: UncNeg<V>, U3: UncNeg<V>, U4: UncNeg<V>, U5: UncNeg<V>, U6: UncNeg<V>> UncNeg<V> for (U0, U1, U2, U3, U4, U5, U6) {
    open spec fn spec_unc_neg(self, self_val: V) -> Self {
        (
            self.0.spec_unc_neg(self_val),
            self.1.spec_unc_neg(self_val),
            self.2.spec_unc_neg(self_val),
            self.3.spec_unc_neg(self_val),
            self.4.spec_unc_neg(self_val),
            self.5.spec_unc_neg(self_val),
            self.6.spec_unc_neg(self_val),
        )
    }

    fn unc_neg(self, self_val: V) -> (r: Self) {
        (
            self.0.unc_neg(self_val),
            self.1.unc_neg(self_val),
            self.2.unc_neg(self_val),
            self.3.unc_neg(self_val),
            self.4.unc_neg(self_val),
            self.5.unc_neg(self_val),
            self.6.unc_neg(self_val),
        )
    }
}

impl<V: Copy, U0: UncSub<V>, U1: UncSub<V>, U2: UncSub<V>, U3: UncSub<V>, U4: UncSub<V>, U5: UncSub<V>, U6: UncSub<V>> UncSub<V> for (U0, U1, U2, U3, U4, U5, U6) {
    open spec fn spec_unc_sub(self, self_val: V, other: Self, other_val: V) -> Self {
        (
            self.0.spec_unc_sub(self_val, other.0, other_val),
            self.1.spec_unc_sub(self_val, other.1, other_val),
            self.2.spec_unc_sub(self_val, other.2, other_val),
            self.3.spec_unc_sub(self_val, other.3, other_val),
            self.4.spec_unc_sub(self_val, other.4, other_val),
            self.5.spec_unc_sub(self_val, other.5, other_val),
            self.6.spec_unc_sub(self_val, other.6, other_val),
        )
    }

    fn unc_sub(self, self_val: V, other: Self, other_val: V) -> (r: Self) {
        (
            self.0.unc_sub(self_val, other.0, other_val),
            self.1.unc_sub(self_val, other.1, other_val),
            self.2.unc_sub(self_val, other.2, other_val),
            self.3.unc_sub(self_val, other.3, other_val),
            self.4.unc_sub(self_val, other.4, other_val),
            self.5.unc_sub(self_val, other.5, other_val),
            self.6.unc_sub(self_val, other.6, other_val),
        )
    }
}

impl<V: Copy, U0: UncAdd<V>, U1: UncAdd<V>, U2: UncAdd<V>, U3: UncAdd<V>, U4: UncAdd<V>, U5: UncAdd<V>, U6: UncAdd<V>, U7: UncAdd<V>> UncAdd<V> for (U0, U1, U2, U3, U4, U5, U6, U7) {
    open spec fn spec_unc_add(self, self_val: V, other: Self, other_val: V) -> Self {
        (
            self.0.spec_unc_add(self_val, other.0, other_val),
            self.1.spec_unc_add(self_val, other.1, other_val),
            self.2.spec_unc_add(self_val, other.2, other_val),
            self.3.spec_unc_add(self_val, other.3, other_val),
            self.4.spec_unc_add(self_val, other.4, other_val),
            self.5.spec_unc_add(self_val, other.5, other_val),
            self.6.spec_unc_add(self_val, other.6, other_val),
            self.7.spec_unc_add(self_val, other.7, other_val),
        )
    }

    fn unc_add(self, self_val: V, other: Self, other_val: V) -> (r: Self) {
        (
            self.0.unc_add(self_val, other.0, other_val),
            self.1.unc_add(self_val, other.1, other_val),
            self.2.unc_add(self_val, other.2, other_val),
            self.3.unc_add(self_val, other.3, other_val),
            self.4.unc_add(self_val, other.4, other_val),
            self.5.unc_add(self_val, other.5, other_val),
            self.6.unc_add(self_val, other.6, other_val),
            self.7.unc_add(self_val, other.7, other_val),
        )
    }
}

impl<V: Copy, U0: UncDiv<V>, U1: UncDiv<V>, U2: UncDiv<V>, U3: UncDiv<V>, U4: UncDiv<V>, U5: UncDiv<V>, U6: UncDiv<V>, U7: UncDiv<V>> UncDiv<V> for (U0, U1, U2, U3, U4, U5, U6, U7) {
    open spec fn spec_unc_div(self, self_val: V, other: Self, other_val: V) -> Self {
        (
            self.0.spec_unc_div(self_val, other.0, other_val),
            self.1.spec_unc_div(self_val, other.1, other_val),
            self.2.spec_unc_div(self_val, other.2, other_val),
            self.3.spec_unc_div(self_val, other.3, other_val),
            self.4.spec_unc_div(self_val, other.4, other_val),
            self.5.spec_unc_div(self_val, other.5, other_val),
            self.6.spec_unc_div(self_val, other.6, other_val),
            self.7.spec_unc_div(self_val, other.7, other_val),
        )
    }

    fn unc_div(self, self_val: V, other: Self, other_val: V) -> (r: Self) {
        (
            self.0.unc_div(self_val, other.0, other_val),
            self.1.unc_div(self_val, other.1, other_val),
            self.2.unc_div(self_val, other.2, other_val),
            self.3.unc_div(self_val, other.3, other_val),
            self.4.unc_div(self_val, other.4, other_val),
            self.5.unc_div(self_val, other.5, other_val),
            self.6.unc_div(self_val, other.6, other_val),
            self.7.unc_div(self_val, other.7, other_val),
        )
    }
}

impl<V: Copy, U0: UncMul<V>, U1: UncMul<V>, U2: UncMul<V>, U3: UncMul<V>, U4: UncMul<V>, U5: UncMul<V>, U6: UncMul<V>, U7: UncMul<V>> UncMul<V> for (U0, U1, U2, U3, U4, U5, U6, U7) {
    open spec fn spec_unc_mul(self, self_val: V, other: Self, other_val: V) -> Self {
        (
            self.0.spec_unc_mul(self_val, other.0, other_val),
            self.1.spec_unc_mul(self_val, other.1, other_val),
            self.2.spec_unc_mul(self_val, other.2, other_val),
            self.3.spec_unc_mul(self_val, other.3, other_val),
            self.4.spec_unc_mul(self_val, other.4, other_val),
            self.5.spec_unc_mul(self_val, other.5, other_val),
            self.6.spec_unc_mul(self_val, other.6, other_val),
            self.7.spec_unc_mul(self_val, other.7, other_val),
        )
    }

    fn unc_mul(self, self_val: V, other: Self, other_val: V) -> (r: Self) {
        (
            self.0.unc_mul(self_val, other.0, other_val),
            self.1.unc_mul(self_val, other.1, other_val),
            self.2.unc_mul(self_val, other.2, other_val),
            self.3.unc_mul(self_val, other.3, other_val),
            self.4.unc_mul(self_val, other.4, other_val),
            self.5.unc_mul(self_val, other.5, other_val),
            self.6.unc_mul(self_val, other.6, other_val),
            self.7.unc_mul(self_val, other.7, other_val),
        )
    }
}

impl<V: Copy, U0: UncNeg<V>, U1: UncNeg<V>, U2: UncNeg<V>, U3: UncNeg<V>, U4: UncNeg<V>, U5: UncNeg<V>, U6: UncNeg<V>, U7: UncNeg<V>> UncNeg<V> for (U0, U1, U2, U3, U4, U5, U6, U7) {
    open spec fn spec_unc_neg(self, self_val: V) -> Self {
        (
            self.0.spec_unc_neg(self_val),
            self.1.spec_unc_neg(self_val),
            self.2.spec_unc_neg(self_val),
            self.3.spec_unc_neg(self_val),
            self.4.spec_unc_neg(self_val),
            self.5.spec_unc_neg(self_val),
            self.6.spec_unc_neg(self_val),
            self.7.spec_unc_neg(self_val),
        )
    }

    fn unc_neg(self, self_val: V) -> (r: Self) {
        (
            self.0.unc_neg(self_val),
            self.1.unc_neg(self_val),
            self.2.unc_neg(self_val),
            self.3.unc_neg(self_val),
            self.4.unc_neg(self_val),
            self.5.unc_neg(self_val),
            self.6.unc_neg(self_val),
            self.7.unc_neg(self_val),
        )
    }
}

impl<V: Copy, U0: UncSub<V>, U1: UncSub<V>, U2: UncSub<V>, U3: UncSub<V>, U4: UncSub<V>, U5: UncSub<V>, U6: UncSub<V>, U7: UncSub<V>> UncSub<V> for (U0, U1, U2, U3, U4, U5, U6, U7) {
    open spec fn spec_unc_sub(self, self_val: V, other: Self, other_val: V) -> Self {
        (
            self.0.spec_unc_sub(self_val, other.0, other_val),
            self.1.spec_unc_sub(self_val, other.1, other_val),
            self.2.spec_unc_sub(self_val, other.2, other_val),
            self.3.spec_unc_sub(self_val, other.3, other_val),
            self.4.spec_unc_sub(self_val, other.4, other_val),
            self.5.spec_unc_sub(self_val, other.5, other_val),
            self.6.spec_unc_sub(self_val, other.6, other_val),
            self.7.spec_unc_sub(self_val, other.7, other_val),
        )
    }

    fn unc_sub(self, self_val: V, other: Self, other_val: V) -> (r: Self) {
        (
            self.0.unc_sub(self_val, other.0, other_val),
            self.1.unc_sub(self_val, other.1, other_val),
            self.2.unc_sub(self_val, other.2, other_val),
            self.3.unc_sub(self_val, other.3, other_val),
            self.4.unc_sub(self_val, other.4, other_val),
            self.5.unc_sub(self_val, other.5, other_val),
            self.6.unc_sub(self_val, other.6, other_val),
            self.7.unc_sub(self_val, other.7, other_val),
        )
    }
}

impl<V: Copy, U0: UncAdd<V>, U1: UncAdd<V>, U2: UncAdd<V>, U3: UncAdd<V>, U4: UncAdd<V>, U5: UncAdd<V>, U6: UncAdd<V>, U7: UncAdd<V>, U8: UncAdd<V>> UncAdd<V> for (U0, U1, U2, U3, U4, U5, U6, U7, U8) {
    open spec fn spec_unc_add(self, self_val: V, other: Self, other_val: V) -> Self {
        (
            self.0.spec_unc_add(self_val, other.0, other_val),
            self.1.spec_unc_add(self_val, other.1, other_val),
            self.2.spec_unc_add(self_val, other.2, other_val),
            self.3.spec_unc_add(self_val, other.3, other_val),
            self.4.spec_unc_add(self_val, other.4, other_val),
            self.5.spec_unc_add(self_val, other.5, other_val),
            self.6.spec_unc_add(self_val, other.6, other_val),
            self.7.spec_unc_add(self_val, other.7, other_val),
            self.8.spec_unc_add(self_val, other.8, other_val),
        )
    }

    fn unc_add(self, self_val: V, other: Self, other_val: V) -> (r: Self) {
        (
            self.0.unc_add(self_val, other.0, other_val),
            self.1.unc_add(self_val, other.1, other_val),
            self.2.unc_add(self_val, other.2, other_val),
            self.3.unc_add(self_val, other.3, other_val),
            self.4.unc_add(self_val, other.4, other_val),
            self.5.unc_add(self_val, other.5, other_val),
            self.6.unc_add(self_val, other.6, other_val),
            self.7.unc_add(self_val, other.7, other_val),
            self.8.unc_add(self_val, other.8, other_val),
        )
    }
}

impl<V: Copy, U0: UncDiv<V>, U1: UncDiv<V>, U2: UncDiv<V>, U3: UncDiv<V>, U4: UncDiv<V>, U5: UncDiv<V>, U6: UncDiv<V>, U7: UncDiv<V>, U8: UncDiv<V>> UncDiv<V> for (U0, U1, U2, U3, U4, U5, U6, U7, U8) {
    open spec fn spec_unc_div(self, self_val: V, other: Self, other_val: V) -> Self {
        (
            self.0.spec_unc_div(self_val, other.0, other_val),
            self.1.spec_unc_div(self_val, other.1, other_val),
            self.2.spec_unc_div(self_val, other.2, other_val),
            self.3.spec_unc_div(self_val, other.3, other_val),
            self.4.spec_unc_div(self_val, other.4, other_val),
            self.5.spec_unc_div(self_val, other.5, other_val),
            self.6.spec_unc_div(self_val, other.6, other_val),
            self.7.spec_unc_div(self_val, other.7, other_val),
            self.8.spec_unc_div(self_val, other.8, other_val),
        )
    }

    fn unc_div(self, self_val: V, other: Self, other_val: V) -> (r: Self) {
        (
            self.0.unc_div(self_val, other.0, other_val),
            self.1.unc_div(self_val, other.1, other_val),
            self.2.unc_div(self_val, other.2, other_val),
            self.3.unc_div(self_val, other.3, other_val),
            self.4.unc_div(self_val, other.4, other_val),
            self.5.unc_div(self_val, other.5, other_val),
            self.6.unc_div(self_val, other.6, other_val),
            self.7.unc_div(self_val, other.7, other_val),
            self.8.unc_div(self_val, other.8, other_val),
        )
    }
}

impl<V: Copy, U0: UncMul<V>, U1: UncMul<V>, U2: UncMul<V>, U3: UncMul<V>, U4: UncMul<V>, U5: UncMul<V>, U6: UncMul<V>, U7: UncMul<V>, U8: UncMul<V>> UncMul<V> for (U0, U1, U2, U3, U4, U5, U6, U7, U8) {
    open spec fn spec_unc_mul(self, self_val: V, other: Self, other_val: V) -> Self {
        (
            self.0.spec_unc_mul(self_val, other.0, other_val),
            self.1.spec_unc_mul(self_val, other.1, other_val),
            self.2.spec_unc_mul(self_val, other.2, other_val),
            self.3.spec_unc_mul(self_val, other.3, other_val),
            self.4.spec_unc_mul(self_val, other.4, other_val),
            self.5.spec_unc_mul(self_val, other.5, other_val),
            self.6.spec_unc_mul(self_val, other.6, other_val),
            self.7.spec_unc_mul(self_val, other.7, other_val),
            self.8.spec_unc_mul(self_val, other.8, other_val),
        )
    }

    fn unc_mul(self, self_val: V, other: Self, other_val: V) -> (r: Self) {
        (
            self.0.unc_mul(self_val, other.0, other_val),
            self.1.unc_mul(self_val, other.1, other_val),
            self.2.unc_mul(self_val, other.2, other_val),
            self.3.unc_mul(self_val, other.3, other_val),
            self.4.unc_mul(self_val, other.4, other_val),
            self.5.unc_mul(self_val, other.5, other_val),
            self.6.unc_mul(self_val, other.6, other_val),
            self.7.unc_mul(self_val, other.7, other_val),
            self.8.unc_mul(self_val, other.8, other_val),
        )
    }
}

impl<V: Copy, U0: UncNeg<V>, U1: UncNeg<V>, U2: UncNeg<V>, U3: UncNeg<V>, U4: UncNeg<V>, U5: UncNeg<V>, U6: UncNeg<V>, U7: UncNeg<V>, U8: UncNeg<V>> UncNeg<V> for (U0, U1, U2, U3, U4, U5, U6, U7, U8) {
    open spec fn spec_unc_neg(self, self_val: V) -> Self {
        (
            self.0.spec_unc_neg(self_val),
            self.1.spec_unc_neg(self_val),
            self.2.spec_unc_neg(self_val),
            self.3.spec_unc_neg(self_val),
            self.4.spec_unc_neg(self_val),
            self.5.spec_unc_neg(self_val),
            self.6.spec_unc_neg(self_val),
            self.7.spec_unc_neg(self_val),
            self.8.spec_unc_neg(self_val),
        )
    }

    fn unc_neg(self, self_val: V) -> (r: Self) {
        (
            self.0.unc_neg(self_val),
            self.1.unc_neg(self_val),
            self.2.unc_neg(self_val),
            self.3.unc_neg(self_val),
            self.4.unc_neg(self_val),
            self.5.unc_neg(self_val),
            self.6.unc_neg(self_val),
            self.7.unc_neg(self_val),
            self.8.unc_neg(self_val),
        )
    }
}

impl<V: Copy, U0: UncSub<V>, U1: UncSub<V>, U2: UncSub<V>, U3: UncSub<V>, U4: UncSub<V>, U5: UncSub<V>, U6: UncSub<V>, U7: UncSub<V>, U8: UncSub<V>> UncSub<V> for (U0, U1, U2, U3, U4, U5, U6, U7, U8) {
    open spec fn spec_unc_sub(self, self_val: V, other: Self, other_val: V) -> Self {
        (
            self.0.spec_unc_sub(self_val, other.0, other_val),
            self.1.spec_unc_sub(self_val, other.1, other_val),
            self.2.spec_unc_sub(self_val, other.2, other_val),
            self.3.spec_unc_sub(self_val, other.3, other_val),
            self.4.spec_unc_sub(self_val, other.4, other_val),
            self.5.spec_unc_sub(self_val, other.5, other_val),
            self.6.spec_unc_sub(self_val, other.6, other_val),
            self.7.spec_unc_sub(self_val, other.7, other_val),
            self.8.spec_unc_sub(self_val, other.8, other_val),
        )
    }

    fn unc_sub(self, self_val: V, other: Self, other_val: V) -> (r: Self) {
        (
            self.0.unc_sub(self_val, other.0, other_val),
            self.1.unc_sub(self_val, other.1, other_val),
            self.2.unc_sub(self_val, other.2, other_val),
            self.3.unc_sub(self_val, other.3, other_val),
            self.4.unc_sub(self_val, other.4, other_val),
            self.5.unc_sub(self_val, other.5, other_val),
            self.6.unc_sub(self_val, other.6, other_val),
            self.7.unc_sub(self_val, other.7, other_val),
            self.8.unc_sub(self_val, other.8, other_val),
        )
    }
}

impl<V: Copy, U0: UncAdd<V>, U1: UncAdd<V>, U2: UncAdd<V>, U3: UncAdd<V>, U4: UncAdd<V>, U5: UncAdd<V>, U6: UncAdd<V>, U7: UncAdd<V>, U8: UncAdd<V>, U9: UncAdd<V>> UncAdd<V> for (U0, U1, U2, U3, U4, U5, U6, U7, U8, U9) {
    open spec fn spec_unc_add(self, self_val: V, other: Self, other_val: V) -> Self {
        (
            self.0.spec_unc_add(self_val, other.0, other_val),
            self.1.spec_unc_add(self_val, other.1, other_val),
            self.2.spec_unc_add(self_val, other.2, other_val),
            self.3.spec_unc_add(self_val, other.3, other_val),
            self.4.spec_unc_add(self_val, other.4, other_val),
            self.5.spec_unc_add(self_val, other.5, other_val),
            self.6.spec_unc_add(self_val, other.6, other_val),
            self.7.spec_unc_add(self_val, other.7, other_val),
            self.8.spec_unc_add(self_val, other.8, other_val),
            self.9.spec_unc_add(self_val, other.9, other_val),
        )
    }

    fn unc_add(self, self_val: V, other: Self, other_val: V) -> (r: Self) {
        (
            self.0.unc_add(self_val, other.0, other_val),
            self.1.unc_add(self_val, other.1, other_val),
            self.2.unc_add(self_val, other.2, other_val),
            self.3.unc_add(self_val, other.3, other_val),
            self.4.unc_add(self_val, other.4, other_val),
            self.5.unc_add(self_val, other.5, other_val),
            self.6.unc_add(self_val, other.6, other_val),
            self.7.unc_add(self_val, other.7, other_val),
            self.8.unc_add(self_val, other.8, other_val),
            self.9.unc_add(self_val, other.9, other_val),
        )
    }
}

impl<V: Copy, U0: UncDiv<V>, U1: UncDiv<V>, U2: UncDiv<V>, U3: UncDiv<V>, U4: UncDiv<V>, U5: UncDiv<V>, U6: UncDiv<V>, U7: UncDiv<V>, U8: UncDiv<V>, U9: UncDiv<V>> UncDiv<V> for (U0, U1, U2, U3, U4, U5, U6, U7, U8, U9) {
    open spec fn spec_unc_div(self, self_val: V, other: Self, other_val: V) -> Self {
        (
            self.0.spec_unc_div(self_val, other.0, other_val),
            self.1.spec_unc_div(self_val, other.1, other_val),
            self.2.spec_unc_div(self_val, other.2, other_val),
            self.3.spec_unc_div(self_val, other.3, other_val),
            self.4.spec_unc_div(self_val, other.4, other_val),
            self.5.spec_unc_div(self_val, other.5, other_val),
            self.6.spec_unc_div(self_val, other.6, other_val),
            self.7.spec_unc_div(self_val, other.7, other_val),
            self.8.spec_unc_div(self_val, other.8, other_val),
            self.9.spec_unc_div(self_val, other.9, other_val),
        )
    }

    fn unc_div(self, self_val: V, other: Self, other_val: V) -> (r: Self) {
        (
            self.0.unc_div(self_val, other.0, other_val),
            self.1.unc_div(self_val, other.1, other_val),
            self.2.unc_div(self_val, other.2, other_val),
            self.3.unc_div(self_val, other.3, other_val),
            self.4.unc_div(self_val, other.4, other_val),
            self.5.unc_div(self_val, other.5, other_val),
            self.6.unc_div(self_val, other.6, other_val),
            self.7.unc_div(self_val, other.7, other_val),
            self.8.unc_div(self_val, other.8, other_val),
            self.9.unc_div(self_val, other.9, other_val),
        )
    }
}

impl<V: Copy, U0: UncMul<V>, U1: UncMul<V>, U2: UncMul<V>, U3: UncMul<V>, U4: UncMul<V>, U5: UncMul<V>, U6: UncMul<V>, U7: UncMul<V>, U8: UncMul<V>, U9: UncMul<V>> UncMul<V> for (U0, U1, U2, U3, U4, U5, U6, U7, U8, U9) {
    open spec fn spec_unc_mul(self, self_val: V, other: Self, other_val: V) -> Self {
        (
            self.0.spec_unc_mul(self_val, other.0, other_val),
            self.1.spec_unc_mul(self_val, other.1, other_val),
            self.2.spec_unc_mul(self_val, other.2, other_val),
            self.3.spec_unc_mul(self_val, other.3, other_val),
            self.4.spec_unc_mul(self_val, other.4, other_val),
            self.5.spec_unc_mul(self_val, other.5, other_val),
            self.6.spec_unc_mul(self_val, other.6, other_val),
            self.7.spec_unc_mul(self_val, other.7, other_val),
            self.8.spec_unc_mul(self_val, other.8, other_val),
            self.9.spec_unc_mul(self_val, other.9, other_val),
        )
    }

    fn unc_mul(self, self_val: V, other: Self, other_val: V) -> (r: Self) {
        (
            self.0.unc_mul(self_val, other.0, other_val),
            self.1.unc_mul(self_val, other.1, other_val),
            self.2.unc_mul(self_val, other.2, other_val),
            self.3.unc_mul(self_val, other.3, other_val),
            self.4.unc_mul(self_val, other.4, other_val),
            self.5.unc_mul(self_val, other.5, other_val),
            self.6.unc_mul(self_val, other.6, other_val),
            self.7.unc_mul(self_val, other.7, other_val),
            self.8.unc_mul(self_val, other.8, other_val),
            self.9.unc_mul(self_val, other.9, other_val),
        )
    }
}

impl<V: Copy, U0: UncNeg<V>, U1: UncNeg<V>, U2: UncNeg<V>, U3: UncNeg<V>, U4: UncNeg<V>, U5: UncNeg<V>, U6: UncNeg<V>, U7: UncNeg<V>, U8: UncNeg<V>, U9: UncNeg<V>> UncNeg<V> for (U0, U1, U2, U3, U4, U5, U6, U7, U8, U9) {
    open spec fn spec_unc_neg(self, self_val: V) -> Self {
        (
            self.0.spec_unc_neg(self_val),
            self.1.spec_unc_neg(self_val),
            self.2.spec_unc_neg(self_val),
            self.3.spec_unc_neg(self_val),
            self.4.spec_unc_neg(self_val),
            self.5.spec_unc_neg(self_val),
            self.6.spec_unc_neg(self_val),
            self.7.spec_unc_neg(self_val),
            self.8.spec_unc_neg(self_val),
            self.9.spec_unc_neg(self_val),
        )
    }

    fn unc_neg(self, self_val: V) -> (r: Self) {
        (
            self.0.unc_neg(self_val),
            self.1.unc_neg(self_val),
            self.2.unc_neg(self_val),
            self.3.unc_neg(self_val),
            self.4.unc_neg(self_val),
            self.5.unc_neg(self_val),
            self.6.unc_neg(self_val),
            self.7.unc_neg(self_val),
            self.8.unc_neg(self_val),
            self.9.unc_neg(self_val),
        )
    }
}

impl<V: Copy, U0: UncSub<V>, U1: UncSub<V>, U2: UncSub<V>, U3: UncSub<V>, U4: UncSub<V>, U5: UncSub<V>, U6: UncSub<V>, U7: UncSub<V>, U8: UncSub<V>, U9: UncSub<V>> UncSub<V> for (U0, U1, U2, U3, U4, U5, U6, U7, U8, U9) {
    open spec fn spec_unc_sub(self, self_val: V, other: Self, other_val: V) -> Self {
        (
            self.0.spec_unc_sub(self_val, other.0, other_val),
            self.1.spec_unc_sub(self_val, other.1, other_val),
            self.2.spec_unc_sub(self_val, other.2, other_val),
            self.3.spec_unc_sub(self_val, other.3, other_val),
            self.4.spec_unc_sub(self_val, other.4, other_val),
            self.5.spec_unc_sub(self_val, other.5, other_val),
            self.6.spec_unc_sub(self_val, other.6, other_val),
            self.7.spec_unc_sub(self_val, other.7, other_val),
            self.8.spec_unc_sub(self_val, other.8, other_val),
            self.9.spec_unc_sub(self_val, other.9, other_val),
        )
    }

    fn unc_sub(self, self_val: V, other: Self, other_val: V) -> (r: Self) {
        (
            self.0.unc_sub(self_val, other.0, other_val),
            self.1.unc_sub(self_val, other.1, other_val),
            self.2.unc_sub(self_val, other.2, other_val),
            self.3.unc_sub(self_val, other.3, other_val),
            self.4.unc_sub(self_val, other.4, other_val),
            self.5.unc_sub(self_val, other.5, other_val),
            self.6.unc_sub(self_val, other.6, other_val),
            self.7.unc_sub(self_val, other.7, other_val),
            self.8.unc_sub(self_val, other.8, other_val),
            self.9.unc_sub(self_val, other.9, other_val),
        )
    }
}

impl<V: Copy, U0: UncAdd<V>, U1: UncAdd<V>, U2: UncAdd<V>, U3: UncAdd<V>, U4: UncAdd<V>, U5: UncAdd<V>, U6: UncAdd<V>, U7: UncAdd<V>, U8: UncAdd<V>, U9: UncAdd<V>, U10: UncAdd<V>> UncAdd<V> for (U0, U1, U2, U3, U4, U5, U6, U7, U8, U9, U10) {
    open spec fn spec_unc_add(self, self_val: V, other: Self, other_val: V) -> Self {
        (
            self.0.spec_unc_add(self_val, other.0, other_val),
            self.1.spec_unc_add(self_val, other.1, other_val),
            self.2.spec_unc_add(self_val, other.2, other_val),
            self.3.spec_unc_add(self_val, other.3, other_val),
            self.4.spec_unc_add(self_val, other.4, other_val),
            self.5.spec_unc_add(self_val, other.5, other_val),
            self.6.spec_unc_add(self_val, other.6, other_val),
            self.7.spec_unc_add(self_val, other.7, other_val),
            self.8.spec_unc_add(self_val, other.8, other_val),
            self.9.spec_unc_add(self_val, other.9, other_val),
            self.10.spec_unc_add(self_val, other.10, other_val),
        )
    }

    fn unc_add(self, self_val: V, other: Self, other_val: V) -> (r: Self) {
        (
            self.0.unc_add(self_val, other.0, other_val),
            self.1.unc_add(self_val, other.1, other_val),
            self.2.unc_add(self_val, other.2, other_val),
            self.3.unc_add(self_val, other.3, other_val),
            self.4.unc_add(self_val, other.4, other_val),
            self.5.unc_add(self_val, other.5, other_val),
            self.6.unc_add(self_val, other.6, other_val),
            self.7.unc_add(self_val, other.7, other_val),
            self.8.unc_add(self_val, other.8, other_val),
            self.9.unc_add(self_val, other.9, other_val),
            self.10.unc_add(self_val, other.10, other_val),
        )
    }
}

impl<V: Copy, U0: UncDiv<V>, U1: UncDiv<V>, U2: UncDiv<V>, U3: UncDiv<V>, U4: UncDiv<V>, U5: UncDiv<V>, U6: UncDiv<V>, U7: UncDiv<V>, U8: UncDiv<V>, U9: UncDiv<V>, U10: UncDiv<V>> UncDiv<V> for (U0, U1, U2, U3, U4, U5, U6, U7, U8, U9, U10) {
    open spec fn spec_unc_div(self, self_val: V, other: Self, other_val: V) -> Self {
        (
            self.0.spec_unc_div(self_val, other.0, other_val),
            self.1.spec_unc_div(self_val, other.1, other_val),
            self.2.spec_unc_div(self_val, other.2, other_val),
            self.3.spec_unc_div(self_val, other.3, other_val),
            self.4.spec_unc_div(self_val, other.4, other_val),
            self.5.spec_unc_div(self_val, other.5, other_val),
            self.6.spec_unc_div(self_val, other.6, other_val),
            self.7.spec_unc_div(self_val, other.7, other_val),
            self.8.spec_unc_div(self_val, other.8, other_val),
            self.9.spec_unc_div(self_val, other.9, other_val),
            self.10.spec_unc_div(self_val, other.10, other_val),
        )
    }

    fn unc_div(self, self_val: V, other: Self, other_val: V) -> (r: Self) {
        (
            self.0.unc_div(self_val, other.0, other_val),
            self.1.unc_div(self_val, other.1, other_val),
            self.2.unc_div(self_val, other.2, other_val),
            self.3.unc_div(self_val, other.3, other_val),
            self.4.unc_div(self_val, other.4, other_val),
            self.5.unc_div(self_val, other.5, other_val),
            self.6.unc_div(self_val, other.6, other_val),
            self.7.unc_div(self_val, other.7, other_val),
            self.8.unc_div(self_val, other.8, other_val),
            self.9.unc_div(self_val, other.9, other_val),
            self.10.unc_div(self_val, other.10, other_val),
        )
    }
}

impl<V: Copy, U0: UncMul<V>, U1: UncMul<V>, U2: UncMul<V>, U3: UncMul<V>, U4: UncMul<V>, U5: UncMul<V>, U6: UncMul<V>, U7: UncMul<V>, U8: UncMul<V>, U9: UncMul<V>, U10: UncMul<V>> UncMul<V> for (U0, U1, U2, U3, U4, U5, U6, U7, U8, U9, U10) {
    open spec fn spec_unc_mul(self, self_val: V, other: Self, other_val: V) -> Self {
        (
            self.0.spec_unc_mul(self_val, other.0, other_val),
            self.1.spec_unc_mul(self_val, other.1, other_val),
            self.2.spec_unc_mul(self_val, other.2, other_val),
            self.3.spec_unc_mul(self_val, other.3, other_val),
            self.4.spec_unc_mul(self_val, other.4, other_val),
            self.5.spec_unc_mul(self_val, other.5, other_val),
            self.6.spec_unc_mul(self_val, other.6, other_val),
            self.7.spec_unc_mul(self_val, other.7, other_val),
            self.8.spec_unc_mul(self_val, other.8, other_val),
            self.9.spec_unc_mul(self_val, other.9, other_val),
            self.10.spec_unc_mul(self_val, other.10, other_val),
        )
    }

    fn unc_mul(self, self_val: V, other: Self, other_val: V) -> (r: Self) {
        (
            self.0.unc_mul(self_val, other.0, other_val),
            self.1.unc_mul(self_val, other.1, other_val),
            self.2.unc_mul(self_val, other.2, other_val),
            self.3.unc_mul(self_val, other.3, other_val),
            self.4.unc_mul(self_val, other.4, other_val),
            self.5.unc_mul(self_val, other.5, other_val),
            self.6.unc_mul(self_val, other.6, other_val),
            self.7.unc_mul(self_val, other.7, other_val),
            self.8.unc_mul(self_val, other.8, other_val),
            self.9.unc_mul(self_val, other.9, other_val),
            self.10.unc_mul(self_val, other.10, other_val),
        )
    }
}

impl<V: Copy, U0: UncNeg<V>, U1: UncNeg<V>, U2: UncNeg<V>, U3: UncNeg<V>, U4: UncNeg<V>, U5: UncNeg<V>, U6: UncNeg<V>, U7: UncNeg<V>, U8: UncNeg<V>, U9: UncNeg<V>, U10: UncNeg<V>> UncNeg<V> for (U0, U1, U2, U3, U4, U5, U6, U7, U8, U9, U10) {
    open spec fn spec_unc_neg(self, self_val: V) -> Self {
        (
            self.0.spec_unc_neg(self_val),
            self.1.spec_unc_neg(self_val),
            self.2.spec_unc_neg(self_val),
            self.3.spec_unc_neg(self_val),
            self.4.spec_unc_neg(self_val),
            self.5.spec_unc_neg(self_val),
            self.6.spec_unc_neg(self_val),
            self.7.spec_unc_neg(self_val),
            self.8.spec_unc_neg(self_val),
            self.9.spec_unc_neg(self_val),
            self.10.spec_unc_neg(self_val),
        )
    }

    fn unc_neg(self, self_val: V) -> (r: Self) {
        (
            self.0.unc_neg(self_val),
            self.1.unc_neg(self_val),
            self.2.unc_neg(self_val),
            self.3.unc_neg(self_val),
            self.4.unc_neg(self_val),
            self.5.unc_neg(self_val),
            self.6.unc_neg(self_val),
            self.7.unc_neg(self_val),
            self.8.unc_neg(self_val),
            self.9.unc_neg(self_val),
            self.10.unc_neg(self_val),
        )
    }
}

impl<V: Copy, U0: UncSub<V>, U1: UncSub<V>, U2: UncSub<V>, U3: UncSub<V>, U4: UncSub<V>, U5: UncSub<V>, U6: UncSub<V>, U7: UncSub<V>, U8: UncSub<V>, U9: UncSub<V>, U10: UncSub<V>> UncSub<V> for (U0, U1, U2, U3, U4, U5, U6, U7, U8, U9, U10) {
    open spec fn spec_unc_sub(self, self_val: V, other: Self, other_val: V) -> Self {
        (
            self.0.spec_unc_sub(self_val, other.0, other_val),
            self.1.spec_unc_sub(self_val, other.1, other_val),
            self.2.spec_unc_sub(self_val, other.2, other_val),
            self.3.spec_unc_sub(self_val, other.3, other_val),
            self.4.spec_unc_sub(self_val, other.4, other_val),
            self.5.spec_unc_sub(self_val, other.5, other_val),
            self.6.spec_unc_sub(self_val, other.6, other_val),
            self.7.spec_unc_sub(self_val, other.7, other_val),
            self.8.spec_unc_sub(self_val, other.8, other_val),
            self.9.spec_unc_sub(self_val, other.9, other_val),
            self.10.spec_unc_sub(self_val, other.10, other_val),
        )
    }

    fn unc_sub(self, self_val: V, other: Self, other_val: V) -> (r: Self) {
        (
            self.0.unc_sub(self_val, other.0, other_val),
            self.1.unc_sub(self_val, other.1, other_val),
            self.2.unc_sub(self_val, other.2, other_val),
            self.3.unc_sub(self_val, other.3, other_val),
            self.4.unc_sub(self_val, other.4, other_val),
            self.5.unc_sub(self_val, other.5, other_val),
            self.6.unc_sub(self_val, other.6, other_val),
            self.7.unc_sub(self_val, other.7, other_val),
            self.8.unc_sub(self_val, other.8, other_val),
            self.9.unc_sub(self_val, other.9, other_val),
            self.10.unc_sub(self_val, other.10, other_val),
        )
    }
}

impl<V: Copy, U0: UncAdd<V>, U1: UncAdd<V>, U2: UncAdd<V>, U3: UncAdd<V>, U4: UncAdd<V>, U5: UncAdd<V>, U6: UncAdd<V>, U7: UncAdd<V>, U8: UncAdd<V>, U9: UncAdd<V>, U10: UncAdd<V>, U11: UncAdd<V>> UncAdd<V> for (U0, U1, U2, U3, U4, U5, U6, U7, U8, U9, U10, U11) {
    open spec fn spec_unc_add(self, self_val: V, other: Self, other_val: V) -> Self {
        (
            self.0.spec_unc_add(self_val, other.0, other_val),
            self.1.spec_unc_add(self_val, other.1, other_val),
            self.2.spec_unc_add(self_val, other.2, other_val),
            self.3.spec_unc_add(self_val, other.3, other_val),
            self.4.spec_unc_add(self_val, other.4, other_val),
            self.5.spec_unc_add(self_val, other.5, other_val),
            self.6.spec_unc_add(self_val, other.6, other_val),
            self.7.spec_unc_add(self_val, other.7, other_val),
            self.8.spec_unc_add(self_val, other.8, other_val),
            self.9.spec_unc_add(self_val, other.9, other_val),
            self.10.spec_unc_add(self_val, other.10, other_val),
            self.11.spec_unc_add(self_val, other.11, other_val),
        )
    }

    fn unc_add(self, self_val: V, other: Self, other_val: V) -> (r: Self) {
        (
            self.0.unc_add(self_val, other.0, other_val),
            self.1.unc_add(self_val, other.1, other_val),
            self.2.unc_add(self_val, other.2, other_val),
            self.3.unc_add(self_val, other.3, other_val),
            self.4.unc_add(self_val, other.4, other_val),
            self.5.unc_add(self_val, other.5, other_val),
            self.6.unc_add(self_val, other.6, other_val),
            self.7.unc_add(self_val, other.7, other_val),
            self.8.unc_add(self_val, other.8, other_val),
            self.9.unc_add(self_val, other.9, other_val),
            self.10.unc_add(self_val, other.10, other_val),
            self.11.unc_add(self_val, other.11, other_val),
        )
    }
}

impl<V: Copy, U0: UncDiv<V>, U1: UncDiv<V>, U2: UncDiv<V>, U3: UncDiv<V>, U4: UncDiv<V>, U5: UncDiv<V>, U6: UncDiv<V>, U7: UncDiv<V>, U8: UncDiv<V>, U9: UncDiv<V>, U10: UncDiv<V>, U11: UncDiv<V>> UncDiv<V> for (U0, U1, U2, U3, U4, U5, U6, U7, U8, U9, U10, U11) {
    open spec fn spec_unc_div(self, self_val: V, other: Self, other_val: V) -> Self {
        (
            self.0.spec_unc_div(self_val, other.0, other_val),
            self.1.spec_unc_div(self_val, other.1, other_val),
            self.2.spec_unc_div(self_val, other.2, other_val),
            self.3.spec_unc_div(self_val, other.3, other_val),
            self.4.spec_unc_div(self_val, other.4, other_val),
            self.5.spec_unc_div(self_val, other.5, other_val),
            self.6.spec_unc_div(self_val, other.6, other_val),
            self.7.spec_unc_div(self_val, other.7, other_val),
            self.8.spec_unc_div(self_val, other.8, other_val),
            self.9.spec_unc_div(self_val, other.9, other_val),
            self.10.spec_unc_div(self_val, other.10, other_val),
            self.11.spec_unc_div(self_val, other.11, other_val),
        )
    }

    fn unc_div(self, self_val: V, other: Self, other_val: V) -> (r: Self) {
        (
            self.0.unc_div(self_val, other.0, other_val),
            self.1.unc_div(self_val, other.1, other_val),
            self.2.unc_div(self_val, other.2, other_val),
            self.3.unc_div(self_val, other.3, other_val),
            self.4.unc_div(self_val, other.4, other_val),
            self.5.unc_div(self_val, other.5, other_val),
            self.6.unc_div(self_val, other.6, other_val),
            self.7.unc_div(self_val, other.7, other_val),
            self.8.unc_div(self_val, other.8, other_val),
            self.9.unc_div(self_val, other.9, other_val),
            self.10.unc_div(self_val, other.10, other_val),
            self.11.unc_div(self_val, other.11, other_val),
        )
    }
}

impl<V: Copy, U0: UncMul<V>, U1: UncMul<V>, U2: UncMul<V>, U3: UncMul<V>, U4: UncMul<V>, U5: UncMul<V>, U6: UncMul<V>, U7: UncMul<V>, U8: UncMul<V>, U9: UncMul<V>, U10: UncMul<V>, U11: UncMul<V>> UncMul<V> for (U0, U1, U2, U3, U4, U5, U6, U7, U8, U9, U10, U11) {
    open spec fn spec_unc_mul(self, self_val: V, other: Self, other_val: V) -> Self {
        (
            self.0.spec_unc_mul(self_val, other.0, other_val),
            self.1.spec_unc_mul(self_val, other.1, other_val),
            self.2.spec_unc_mul(self_val, other.2, other_val),
            self.3.spec_unc_mul(self_val, other.3, other_val),
            self.4.spec_unc_mul(self_val, other.4, other_val),
            self.5.spec_unc_mul(self_val, other.5, other_val),
            self.6.spec_unc_mul(self_val, other.6, other_val),
            self.7.spec_unc_mul(self_val, other.7, other_val),
            self.8.spec_unc_mul(self_val, other.8, other_val),
            self.9.spec_unc_mul(self_val, other.9, other_val),
            self.10.spec_unc_mul(self_val, other.10, other_val),
            self.11.spec_unc_mul(self_val, other.11, other_val),
        )
    }

    fn unc_mul(self, self_val: V, other: Self, other_val: V) -> (r: Self) {
        (
            self.0.unc_mul(self_val, other.0, other_val),
            self.1.unc_mul(self_val, other.1, other_val),
            self.2.unc_mul(self_val, other.2, other_val),
            self.3.unc_mul(self_val, other.3, other_val),
            self.4.unc_mul(self_val, other.4, other_val),
            self.5.unc_mul(self_val, other.5, other_val),
            self.6.unc_mul(self_val, other.6, other_val),
            self.7.unc_mul(self_val, other.7, other_val),
            self.8.unc_mul(self_val, other.8, other_val),
            self.9.unc_mul(self_val, other.9, other_val),
            self.10.unc_mul(self_val, other.10, other_val),
            self.11.unc_mul(self_val, other.11, other_val),
        )
    }
}

impl<V: Copy, U0: UncNeg<V>, U1: UncNeg<V>, U2: UncNeg<V>, U3: UncNeg<V>, U4: UncNeg<V>, U5: UncNeg<V>, U6: UncNeg<V>, U7: UncNeg<V>, U8: UncNeg<V>, U9: UncNeg<V>, U10: UncNeg<V>, U11: UncNeg<V>> UncNeg<V> for (U0, U1, U2, U3, U4, U5, U6, U7, U8, U9, U10, U11) {
    open spec fn spec_unc_neg(self, self_val: V) -> Self {
        (
            self.0.spec_unc_neg(self_val),
            self.1.spec_unc_neg(self_val),
            self.2.spec_unc_neg(self_val),
            self.3.spec_unc_neg(self_val),
            self.4.spec_unc_neg(self_val),
            self.5.spec_unc_neg(self_val),
            self.6.spec_unc_neg(self_val),
            self.7.spec_unc_neg(self_val),
            self.8.spec_unc_neg(self_val),
            self.9.spec_unc_neg(self_val),
            self.10.spec_unc_neg(self_val),
            self.11.spec_unc_neg(self_val),
        )
    }

    fn unc_neg(self, self_val: V) -> (r: Self) {
        (
            self.0.unc_neg(self_val),
            self.1.unc_neg(self_val),
            self.2.unc_neg(self_val),
            self.3.unc_neg(self_val),
            self.4.unc_neg(self_val),
            self.5.unc_neg(self_val),
            self.6.unc_neg(self_val),
            self.7.unc_neg(self_val),
            self.8.unc_neg(self_val),
            self.9.unc_neg(self_val),
            self.10.unc_neg(self_val),
            self.11.unc_neg(self_val),
        )
    }
}

impl<V: Copy, U0: UncSub<V>, U1: UncSub<V>, U2: UncSub<V>, U3: UncSub<V>, U4: UncSub<V>, U5: UncSub<V>, U6: UncSub<V>, U7: UncSub<V>, U8: UncSub<V>, U9: UncSub<V>, U10: UncSub<V>, U11: UncSub<V>> UncSub<V> for (U0, U1, U2, U3, U4, U5, U6, U7, U8, U9, U10, U11) {
    open spec fn spec_unc_sub(self, self_val: V, other: Self, other_val: V) -> Self {
        (
            self.0.spec_unc_sub(self_val, other.0, other_val),
            self.1.spec_unc_sub(self_val, other.1, other_val),
            self.2.spec_unc_sub(self_val, other.2, other_val),
            self.3.spec_unc_sub(self_val, other.3, other_val),
            self.4.spec_unc_sub(self_val, other.4, other_val),
            self.5.spec_unc_sub(self_val, other.5, other_val),
            self.6.spec_unc_sub(self_val, other.6, other_val),
            self.7.spec_unc_sub(self_val, other.7, other_val),
            self.8.spec_unc_sub(self_val, other.8, other_val),
            self.9.spec_unc_sub(self_val, other.9, other_val),
            self.10.spec_unc_sub(self_val, other.10, other_val),
            self.11.spec_unc_sub(self_val, other.11, other_val),
        )
    }

    fn unc_sub(self, self_val: V, other: Self, other_val: V) -> (r: Self) {
        (
            self.0.unc_sub(self_val, other.0, other_val),
            self.1.unc_sub(self_val, other.1, other_val),
            self.2.unc_sub(self_val, other.2, other_val),
            self.3.unc_sub(self_val, other.3, other_val),
            self.4.unc_sub(self_val, other.4, other_val),
            self.5.unc_sub(self_val, other.5, other_val),
            self.6.unc_sub(self_val, other.6, other_val),
            self.7.unc_sub(self_val, other.7, other_val),
            self.8.unc_sub(self_val, other.8, other_val),
            self.9.unc_sub(self_val, other.9, other_val),
            self.10.unc_sub(self_val, other.10, other_val),
            self.11.unc_sub(self_val, other.11, other_val),
        )
    }
}

} // verus!
