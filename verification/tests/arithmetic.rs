use val_unc::{Unc, UncAdd, ValUnc};

// A type for statistical uncertainties: adding combines as the square root
// of the sum of the squares.
#[derive(Debug, Clone, Copy, PartialEq, PartialOrd, Default)]
struct StatUnc(pub f64);

impl<T> UncAdd<T> for StatUnc {
    fn unc_add(self, _self_val: T, other: Self, _other_val: T) -> Self {
        Self(f64::sqrt(f64::powi(self.0, 2) + f64::powi(other.0, 2)))
    }
}

// A type for systematic uncertainties: adding combines as the plain sum.
#[derive(Debug, Clone, Copy, PartialEq, PartialOrd, Default)]
struct SysUnc(pub f64);

impl<T> UncAdd<T> for SysUnc {
    fn unc_add(self, _self_val: T, other: Self, _other_val: T) -> Self {
        Self(self.0 + other.0)
    }
}

#[test]
fn add() {
    // Create two values and add them together
    let v1 = ValUnc::new(10.2, (StatUnc(4.0), SysUnc(1.25)));
    let v2 = ValUnc::new(8.5, (StatUnc(3.0), SysUnc(1.25)));
    // You can use destructuring to unpack the results
    let ValUnc {
        val,
        unc: (stat, sys),
    } = v1.add(v2);

    assert!(f64::abs(val - 18.7) <= std::f64::EPSILON);
    assert!(f64::abs(stat.0 - 5.0) <= std::f64::EPSILON);
    assert!(f64::abs(sys.0 - 2.5) <= std::f64::EPSILON);
}

// A policy that tracks the largest uncertainty seen under addition.
#[derive(Debug, Clone, Copy, PartialEq, PartialOrd, Default)]
struct MaxUnc(pub f64);

impl<T> UncAdd<T> for MaxUnc {
    fn unc_add(self, _self_val: T, other: Self, _other_val: T) -> Self {
        Self(f64::max(self.0, other.0))
    }
}

// A payload whose negation rule leaves the magnitude unchanged.
#[derive(Debug, Clone, Copy, PartialEq, PartialOrd, Default)]
struct MagUnc(pub f64);

impl<T> val_unc::UncNeg<T> for MagUnc {
    fn unc_neg(self, _self_val: T) -> Self {
        self
    }
}

// A magnitude over f64 for the root-sum-square rules of Unc.
#[derive(Debug, Clone, Copy, PartialEq, PartialOrd, Default)]
struct Mag(pub f64);

impl val_unc::UncZero for Mag {
    fn zero() -> Self {
        Mag(0.0)
    }

    fn is_zero(&self) -> bool {
        self.0 == 0.0
    }

    fn set_zero(&mut self) {
        self.0 = 0.0;
    }
}

impl val_unc::Magnitude<f64> for Mag {
    fn sq(self) -> Self {
        Mag(self.0 * self.0)
    }

    fn plus(self, other: Self) -> Self {
        Mag(self.0 + other.0)
    }

    fn sqrt(self) -> Self {
        Mag(f64::sqrt(self.0))
    }

    fn scale_mul(self, factor: f64) -> Self {
        Mag(self.0 * factor)
    }

    fn scale_div(self, divisor: f64) -> Self {
        Mag(self.0 / divisor)
    }
}

#[test]
fn add_val_follows_scalar_add() {
    let a = ValUnc::new(3u32, ());
    let b = ValUnc::new(4u32, ());
    assert_eq!(a.add(b).val, 7u32);
    let c = ValUnc::new(10.25f64, ());
    let d = ValUnc::new(8.5f64, ());
    assert_eq!(c.add(d).val, 18.75);
}

#[test]
fn sub_mul_div_follow_scalar_ops() {
    let a = ValUnc::new(10u32, ());
    let b = ValUnc::new(4u32, ());
    assert_eq!(a.sub(b).val, 6u32);
    assert_eq!(a.mul(b).val, 40u32);
    assert_eq!(a.div(b).val, 2u32);
}

#[test]
fn rss_add_scenario() {
    let e1 = ValUnc::new(10.2f64, StatUnc(4.0));
    let e2 = ValUnc::new(8.5f64, StatUnc(3.0));
    let s = e1.add(e2);
    assert!(f64::abs(s.val - 18.7) <= 1e-9);
    assert!(f64::abs(s.unc.0 - 5.0) <= 1e-9);
}

#[test]
fn two_kinds_tuple_scenario() {
    let e1 = ValUnc::new(10.2f64, (StatUnc(4.0), SysUnc(1.25)));
    let e2 = ValUnc::new(8.5f64, (StatUnc(3.0), SysUnc(1.25)));
    let s = e1.add(e2);
    assert!(f64::abs(s.val - 18.7) <= 1e-9);
    assert!(f64::abs(s.unc.0 .0 - 5.0) <= 1e-9);
    assert!(f64::abs(s.unc.1 .0 - 2.5) <= 1e-9);
}

#[test]
fn tuple_add_is_position_preserving() {
    let a = ValUnc::new(1.0f64, (StatUnc(3.0), SysUnc(1.0), MaxUnc(2.0)));
    let b = ValUnc::new(2.0f64, (StatUnc(4.0), SysUnc(0.5), MaxUnc(7.0)));
    let s = a.add(b);
    // Each position combines only with the same position of the other operand,
    // by its own rule.
    assert!(f64::abs(s.unc.0 .0 - 5.0) <= 1e-9);
    assert!(f64::abs(s.unc.1 .0 - 1.5) <= 1e-9);
    assert!(f64::abs(s.unc.2 .0 - 7.0) <= 1e-9);
}

#[test]
fn empty_tuple_satisfies_every_capability() {
    let a = ValUnc::new(6i64, ());
    let b = ValUnc::new(2i64, ());
    assert_eq!(a.add(b).unc, ());
    assert_eq!(a.sub(b).unc, ());
    assert_eq!(a.mul(b).unc, ());
    assert_eq!(a.div(b).unc, ());
    assert_eq!(a.neg().unc, ());
}

#[test]
fn neg_negates_val_and_keeps_magnitude() {
    let a = ValUnc::new(10.5f64, MagUnc(2.0));
    let n = a.neg();
    assert_eq!(n.val, -10.5);
    assert_eq!(n.unc, MagUnc(2.0));
}

#[test]
fn unc_f64() {
    let unc_1 = Unc(Mag(3.0f64));
    let unc_2 = Unc(Mag(4.0f64));

    assert!(
        f64::abs(val_unc::UncAdd::<f64>::unc_add(unc_1, 1.0, unc_2, 1.0).0 .0 - 5.0)
            <= std::f64::EPSILON
    );
    assert!(
        f64::abs(val_unc::UncDiv::<f64>::unc_div(unc_1, 1.0, unc_2, 1.0).0 .0 - 5.0)
            <= std::f64::EPSILON
    );
    assert!(
        f64::abs(val_unc::UncMul::<f64>::unc_mul(unc_1, 1.0, unc_2, 1.0).0 .0 - 5.0)
            <= std::f64::EPSILON
    );
    assert!(
        f64::abs(val_unc::UncSub::<f64>::unc_sub(unc_1, 1.0, unc_2, 1.0).0 .0 - 5.0)
            <= std::f64::EPSILON
    );
    assert!(f64::abs(<Unc<Mag> as val_unc::UncZero>::zero().0 .0 - 0.0) <= std::f64::EPSILON);
}

#[test]
fn unc_scaling() {
    let u = Unc(6.0f64);
    assert_eq!(u.mul(2.0), Unc(12.0));
    assert_eq!(u.div(3.0), Unc(2.0));
    let v = Unc(6u32);
    assert_eq!(v.mul(2u32), Unc(12u32));
    assert_eq!(v.div(3u32), Unc(2u32));
}
