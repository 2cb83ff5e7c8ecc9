//! The general laws of the crate, stated over the spec functions that the
//! executable contracts use.
use vstd::prelude::*;

verus! {

use crate::codec::spec_decode;
use crate::codec::spec_encode;
use crate::num::UncZero;
use crate::ops::UncAdd;
use crate::ops::UncNeg;
use crate::val_unc::ValUnc;

/// Zero round-trip: for every zero-testable payload type, the constructed
/// zero instance reports itself as zero.
pub fn zero_round_trip<U: UncZero>() -> (r: bool)
    ensures
        r,
{
    let z = U::zero();
    z.is_zero()
}

/// Resetting a payload makes it report zero, and resetting is idempotent: the
/// first `set_zero` lands on the zero instance, `is_zero` then returns true,
/// and a second `set_zero` does not change the value again.
pub fn set_zero_round_trip<U: UncZero>(u: &mut U) -> (r: bool)
    ensures
        r,
        *final(u) == U::spec_zero(),
{
    u.set_zero();
    let ghost once = *u;
    u.set_zero();
    proof {
        assert(*u == once);
    }
    u.is_zero()
}

/// Serialization round-trip at the two-shape level: encoding then decoding a
/// quantity with zero payload yields the original value with the payload
/// reset to zero; encoding then decoding a quantity with nonzero payload
/// yields the original exactly.
pub proof fn lemma_encode_decode_round_trip<V, U: UncZero>(e: ValUnc<V, U>)
    ensures
        e.unc.spec_is_zero() ==> spec_decode(spec_encode(e)) == (ValUnc {
            val: e.val,
            unc: U::spec_zero(),
        }),
        !e.unc.spec_is_zero() ==> spec_decode(spec_encode(e)) == e,
{
}

/// For a payload type whose negation rule leaves the payload unchanged —
/// such as any magnitude-only policy — negating a quantity keeps the payload
/// exactly as it was.
pub proof fn lemma_neg_keeps_unc<V, U: UncNeg<V>>(a: ValUnc<V, U>)
    requires
        forall|u: U, v: V| u.spec_unc_neg(v) == u,
    ensures
        a.unc.spec_unc_neg(a.val) == a.unc,
{
}

/// Position preservation at arity zero: the empty tuple combines to itself.
pub proof fn lemma_tuple0_add_position_preserving<V: Copy>(a: (), av: V, b: (), bv: V)
    ensures
        a.spec_unc_add(av, b, bv) == (),
{
}

/// Position preservation at arity one: combining two tuples under the
/// addition capability combines each position only with the same position of
/// the other operand.
pub proof fn lemma_tuple1_add_position_preserving<V: Copy, T0: UncAdd<V>>(
    a: (T0,),
    av: V,
    b: (T0,),
    bv: V,
)
    ensures
        a.spec_unc_add(av, b, bv).0 == a.0.spec_unc_add(av, b.0, bv),
{
}

/// Position preservation at arity two: combining two tuples under the
/// addition capability combines each position only with the same position of
/// the other operand.
pub proof fn lemma_tuple2_add_position_preserving<V: Copy, T0: UncAdd<V>, T1: UncAdd<V>>(
    a: (T0, T1),
    av: V,
    b: (T0, T1),
    bv: V,
)
    ensures
        a.spec_unc_add(av, b, bv).0 == a.0.spec_unc_add(av, b.0, bv),
        a.spec_unc_add(av, b, bv).1 == a.1.spec_unc_add(av, b.1, bv),
{
}

/// Position preservation at arity three: combining two tuples under the
/// addition capability combines each position only with the same position of
/// the other operand.
pub proof fn lemma_tuple3_add_position_preserving<V: Copy, T0: UncAdd<V>, T1: UncAdd<V>, T2: UncAdd<V>>(
    a: (T0, T1, T2),
    av: V,
    b: (T0, T1, T2),
    bv: V,
)
    ensures
        a.spec_unc_add(av, b, bv).0 == a.0.spec_unc_add(av, b.0, bv),
        a.spec_unc_add(av, b, bv).1 == a.1.spec_unc_add(av, b.1, bv),
        a.spec_unc_add(av, b, bv).2 == a.2.spec_unc_add(av, b.2, bv),
{
}

/// Position preservation at arity four: combining two tuples under the
/// addition capability combines each position only with the same position of
/// the other operand.
pub proof fn lemma_tuple4_add_position_preserving<V: Copy, T0: UncAdd<V>, T1: UncAdd<V>, T2: UncAdd<V>, T3: UncAdd<V>>(
    a: (T0, T1, T2, T3),
    av: V,
    b: (T0, T1, T2, T3),
    bv: V,
)
    ensures
        a.spec_unc_add(av, b, bv).0 == a.0.spec_unc_add(av, b.0, bv),
        a.spec_unc_add(av, b, bv).1 == a.1.spec_unc_add(av, b.1, bv),
        a.spec_unc_add(av, b, bv).2 == a.2.spec_unc_add(av, b.2, bv),
        a.spec_unc_add(av, b, bv).3 == a.3.spec_unc_add(av, b.3, bv),
{
}

/// Position preservation at arity five: combining two tuples under the
/// addition capability combines each position only with the same position of
/// the other operand.
pub proof fn lemma_tuple5_add_position_preserving<V: Copy, T0: UncAdd<V>, T1: UncAdd<V>, T2: UncAdd<V>, T3: UncAdd<V>, T4: UncAdd<V>>(
    a: (T0, T1, T2, T3, T4),
    av: V,
    b: (T0, T1, T2, T3, T4),
    bv: V,
)
    ensures
        a.spec_unc_add(av, b, bv).0 == a.0.spec_unc_add(av, b.0, bv),
        a.spec_unc_add(av, b, bv).1 == a.1.spec_unc_add(av, b.1, bv),
        a.spec_unc_add(av, b, bv).2 == a.2.spec_unc_add(av, b.2, bv),
        a.spec_unc_add(av, b, bv).3 == a.3.spec_unc_add(av, b.3, bv),
        a.spec_unc_add(av, b, bv).4 == a.4.spec_unc_add(av, b.4, bv),
{
}

/// Position preservation at arity six: combining two tuples under the
/// addition capability combines each position only with the same position of
/// the other operand.
pub proof fn lemma_tuple6_add_position_preserving<V: Copy, T0: UncAdd<V>, T1: UncAdd<V>, T2: UncAdd<V>, T3: UncAdd<V>, T4: UncAdd<V>, T5: UncAdd<V>>(
    a: (T0, T1, T2, T3, T4, T5),
    av: V,
    b: (T0, T1, T2, T3, T4, T5),
    bv: V,
)
    ensures
        a.spec_unc_add(av, b, bv).0 == a.0.spec_unc_add(av, b.0, bv),
        a.spec_unc_add(av, b, bv).1 == a.1.spec_unc_add(av, b.1, bv),
        a.spec_unc_add(av, b, bv).2 == a.2.spec_unc_add(av, b.2, bv),
        a.spec_unc_add(av, b, bv).3 == a.3.spec_unc_add(av, b.3, bv),
        a.spec_unc_add(av, b, bv).4 == a.4.spec_unc_add(av, b.4, bv),
        a.spec_unc_add(av, b, bv).5 == a.5.spec_unc_add(av, b.5, bv),
{
}

/// Position preservation at arity seven: combining two tuples under the
/// addition capability combines each position only with the same position of
/// the other operand.
pub proof fn lemma_tuple7_add_position_preserving<V: Copy, T0: UncAdd<V>, T1: UncAdd<V>, T2: UncAdd<V>, T3: UncAdd<V>, T4: UncAdd<V>, T5: UncAdd<V>, T6: UncAdd<V>>(
    a: (T0, T1, T2, T3, T4, T5, T6),
    av: V,
    b: (T0, T1, T2, T3, T4, T5, T6),
    bv: V,
)
    ensures
        a.spec_unc_add(av, b, bv).0 == a.0.spec_unc_add(av, b.0, bv),
        a.spec_unc_add(av, b, bv).1 == a.1.spec_unc_add(av, b.1, bv),
        a.spec_unc_add(av, b, bv).2 == a.2.spec_unc_add(av, b.2, bv),
        a.spec_unc_add(av, b, bv).3 == a.3.spec_unc_add(av, b.3, bv),
        a.spec_unc_add(av, b, bv).4 == a.4.spec_unc_add(av, b.4, bv),
        a.spec_unc_add(av, b, bv).5 == a.5.spec_unc_add(av, b.5, bv),
        a.spec_unc_add(av, b, bv).6 == a.6.spec_unc_add(av, b.6, bv),
{
}

/// Position preservation at arity eight: combining two tuples under the
/// addition capability combines each position only with the same position of
/// the other operand.
pub proof fn lemma_tuple8_add_position_preserving<V: Copy, T0: UncAdd<V>, T1: UncAdd<V>, T2: UncAdd<V>, T3: UncAdd<V>, T4: UncAdd<V>, T5: UncAdd<V>, T6: UncAdd<V>, T7: UncAdd<V>>(
    a: (T0, T1, T2, T3, T4, T5, T6, T7),
    av: V,
    b: (T0, T1, T2, T3, T4, T5, T6, T7),
    bv: V,
)
    ensures
        a.spec_unc_add(av, b, bv).0 == a.0.spec_unc_add(av, b.0, bv),
        a.spec_unc_add(av, b, bv).1 == a.1.spec_unc_add(av, b.1, bv),
        a.spec_unc_add(av, b, bv).2 == a.2.spec_unc_add(av, b.2, bv),
        a.spec_unc_add(av, b, bv).3 == a.3.spec_unc_add(av, b.3, bv),
        a.spec_unc_add(av, b, bv).4 == a.4.spec_unc_add(av, b.4, bv),
        a.spec_unc_add(av, b, bv).5 == a.5.spec_unc_add(av, b.5, bv),
        a.spec_unc_add(av, b, bv).6 == a.6.spec_unc_add(av, b.6, bv),
        a.spec_unc_add(av, b, bv).7 == a.7.spec_unc_add(av, b.7, bv),
{
}

/// Position preservation at arity nine: combining two tuples under the
/// addition capability combines each position only with the same position of
/// the other operand.
pub proof fn lemma_tuple9_add_position_preserving<V: Copy, T0: UncAdd<V>, T1: UncAdd<V>, T2: UncAdd<V>, T3: UncAdd<V>, T4: UncAdd<V>, T5: UncAdd<V>, T6: UncAdd<V>, T7: UncAdd<V>, T8: UncAdd<V>>(
    a: (T0, T1, T2, T3, T4, T5, T6, T7, T8),
    av: V,
    b: (T0, T1, T2, T3, T4, T5, T6, T7, T8),
    bv: V,
)
    ensures
        a.spec_unc_add(av, b, bv).0 == a.0.spec_unc_add(av, b.0, bv),
        a.spec_unc_add(av, b, bv).1 == a.1.spec_unc_add(av, b.1, bv),
        a.spec_unc_add(av, b, bv).2 == a.2.spec_unc_add(av, b.2, bv),
        a.spec_unc_add(av, b, bv).3 == a.3.spec_unc_add(av, b.3, bv),
        a.spec_unc_add(av, b, bv).4 == a.4.spec_unc_add(av, b.4, bv),
        a.spec_unc_add(av, b, bv).5 == a.5.spec_unc_add(av, b.5, bv),
        a.spec_unc_add(av, b, bv).6 == a.6.spec_unc_add(av, b.6, bv),
        a.spec_unc_add(av, b, bv).7 == a.7.spec_unc_add(av, b.7, bv),
        a.spec_unc_add(av, b, bv).8 == a.8.spec_unc_add(av, b.8, bv),
{
}

/// Position preservation at arity ten: combining two tuples under the
/// addition capability combines each position only with the same position of
/// the other operand.
pub proof fn lemma_tuple10_add_position_preserving<V: Copy, T0: UncAdd<V>, T1: UncAdd<V>, T2: UncAdd<V>, T3: UncAdd<V>, T4: UncAdd<V>, T5: UncAdd<V>, T6: UncAdd<V>, T7: UncAdd<V>, T8: UncAdd<V>, T9: UncAdd<V>>(
    a: (T0, T1, T2, T3, T4, T5, T6, T7, T8, T9),
    av: V,
    b: (T0, T1, T2, T3, T4, T5, T6, T7, T8, T9),
    bv: V,
)
    ensures
        a.spec_unc_add(av, b, bv).0 == a.0.spec_unc_add(av, b.0, bv),
        a.spec_unc_add(av, b, bv).1 == a.1.spec_unc_add(av, b.1, bv),
        a.spec_unc_add(av, b, bv).2 == a.2.spec_unc_add(av, b.2, bv),
        a.spec_unc_add(av, b, bv).3 == a.3.spec_unc_add(av, b.3, bv),
        a.spec_unc_add(av, b, bv).4 == a.4.spec_unc_add(av, b.4, bv),
        a.spec_unc_add(av, b, bv).5 == a.5.spec_unc_add(av, b.5, bv),
        a.spec_unc_add(av, b, bv).6 == a.6.spec_unc_add(av, b.6, bv),
        a.spec_unc_add(av, b, bv).7 == a.7.spec_unc_add(av, b.7, bv),
        a.spec_unc_add(av, b, bv).8 == a.8.spec_unc_add(av, b.8, bv),
        a.spec_unc_add(av, b, bv).9 == a.9.spec_unc_add(av, b.9, bv),
{
}

/// Position preservation at arity eleven: combining two tuples under the
/// addition capability combines each position only with the same position of
/// the other operand.
pub proof fn lemma_tuple11_add_position_preserving<V: Copy, T0: UncAdd<V>, T1: UncAdd<V>, T2: UncAdd<V>, T3: UncAdd<V>, T4: UncAdd<V>, T5: UncAdd<V>, T6: UncAdd<V>, T7: UncAdd<V>, T8: UncAdd<V>, T9: UncAdd<V>, T10: UncAdd<V>>(
    a: (T0, T1, T2, T3, T4, T5, T6, T7, T8, T9, T10),
    av: V,
    b: (T0, T1, T2, T3, T4, T5, T6, T7, T8, T9, T10),
    bv: V,
)
    ensures
        a.spec_unc_add(av, b, bv).0 == a.0.spec_unc_add(av, b.0, bv),
        a.spec_unc_add(av, b, bv).1 == a.1.spec_unc_add(av, b.1, bv),
        a.spec_unc_add(av, b, bv).2 == a.2.spec_unc_add(av, b.2, bv),
        a.spec_unc_add(av, b, bv).3 == a.3.spec_unc_add(av, b.3, bv),
        a.spec_unc_add(av, b, bv).4 == a.4.spec_unc_add(av, b.4, bv),
        a.spec_unc_add(av, b, bv).5 == a.5.spec_unc_add(av, b.5, bv),
        a.spec_unc_add(av, b, bv).6 == a.6.spec_unc_add(av, b.6, bv),
        a.spec_unc_add(av, b, bv).7 == a.7.spec_unc_add(av, b.7, bv),
        a.spec_unc_add(av, b, bv).8 == a.8.spec_unc_add(av, b.8, bv),
        a.spec_unc_add(av, b, bv).9 == a.9.spec_unc_add(av, b.9, bv),
        a.spec_unc_add(av, b, bv).10 == a.10.spec_unc_add(av, b.10, bv),
{
}

/// Position preservation at arity twelve: combining two tuples under the
/// addition capability combines each position only with the same position of
/// the other operand.
pub proof fn lemma_tuple12_add_position_preserving<V: Copy, T0: UncAdd<V>, T1: UncAdd<V>, T2: UncAdd<V>, T3: UncAdd<V>, T4: UncAdd<V>, T5: UncAdd<V>, T6: UncAdd<V>, T7: UncAdd<V>, T8: UncAdd<V>, T9: UncAdd<V>, T10: UncAdd<V>, T11: UncAdd<V>>(
    a: (T0, T1, T2, T3, T4, T5, T6, T7, T8, T9, T10, T11),
    av: V,
    b: (T0, T1, T2, T3, T4, T5, T6, T7, T8, T9, T10, T11),
    bv: V,
)
    ensures
        a.spec_unc_add(av, b, bv).0 == a.0.spec_unc_add(av, b.0, bv),
        a.spec_unc_add(av, b, bv).1 == a.1.spec_unc_add(av, b.1, bv),
        a.spec_unc_add(av, b, bv).2 == a.2.spec_unc_add(av, b.2, bv),
        a.spec_unc_add(av, b, bv).3 == a.3.spec_unc_add(av, b.3, bv),
        a.spec_unc_add(av, b, bv).4 == a.4.spec_unc_add(av, b.4, bv),
        a.spec_unc_add(av, b, bv).5 == a.5.spec_unc_add(av, b.5, bv),
        a.spec_unc_add(av, b, bv).6 == a.6.spec_unc_add(av, b.6, bv),
        a.spec_unc_add(av, b, bv).7 == a.7.spec_unc_add(av, b.7, bv),
        a.spec_unc_add(av, b, bv).8 == a.8.spec_unc_add(av, b.8, bv),
        a.spec_unc_add(av, b, bv).9 == a.9.spec_unc_add(av, b.9, bv),
        a.spec_unc_add(av, b, bv).10 == a.10.spec_unc_add(av, b.10, bv),
        a.spec_unc_add(av, b, bv).11 == a.11.spec_unc_add(av, b.11, bv),
{
}

} // verus!
