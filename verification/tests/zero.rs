use val_unc::{set_zero_round_trip, zero_round_trip, Unc, UncZero};

#[test]
fn zero_is_zero_for_primitives() {
    let a = <u8 as UncZero>::zero();
    assert!(UncZero::is_zero(&a));
    let b = <u64 as UncZero>::zero();
    assert!(UncZero::is_zero(&b));
    let c = <i32 as UncZero>::zero();
    assert!(UncZero::is_zero(&c));
    let d = <i128 as UncZero>::zero();
    assert!(UncZero::is_zero(&d));
    let e = <usize as UncZero>::zero();
    assert!(UncZero::is_zero(&e));
    assert!(!UncZero::is_zero(&3u8));
    assert!(!UncZero::is_zero(&-1i64));
}

#[test]
fn zero_is_zero_for_unit_and_tuples() {
    let unit = <() as UncZero>::zero();
    assert!(UncZero::is_zero(&unit));
    let pair = <(u8, u16) as UncZero>::zero();
    assert!(UncZero::is_zero(&pair));
    assert_eq!(pair, (0u8, 0u16));
    let triple = <(u8, (), i64) as UncZero>::zero();
    assert!(UncZero::is_zero(&triple));
    let twelve = <(u8, u8, u8, u8, u8, u8, u8, u8, u8, u8, u8, u8) as UncZero>::zero();
    assert!(UncZero::is_zero(&twelve));
    assert!(!UncZero::is_zero(&(1u8, 0u16)));
    assert!(!UncZero::is_zero(&(0u8, 0u8, 0u8, 0u8, 0u8, 0u8, 0u8, 0u8, 0u8, 0u8, 0u8, 7u8)));
}

#[test]
fn zero_is_zero_for_unc() {
    let z = <Unc<u64> as UncZero>::zero();
    assert_eq!(z, Unc(0u64));
    assert!(UncZero::is_zero(&z));
    assert!(!UncZero::is_zero(&Unc(5u64)));
}

#[test]
fn zero_round_trip_law() {
    assert!(zero_round_trip::<u32>());
    assert!(zero_round_trip::<()>());
    assert!(zero_round_trip::<(u8, (u16, i32))>());
    assert!(zero_round_trip::<Unc<i16>>());
    assert!(zero_round_trip::<(u8, u8, u8, u8, u8, u8, u8, u8, u8, u8, u8, u8)>());
}

#[test]
fn set_zero_then_is_zero() {
    let mut x = 41u32;
    x.set_zero();
    assert!(UncZero::is_zero(&x));
    assert_eq!(x, 0);

    let mut t = (3u8, Unc(7u64));
    t.set_zero();
    assert!(UncZero::is_zero(&t));
    assert_eq!(t, (0u8, Unc(0u64)));
}

#[test]
fn set_zero_is_idempotent() {
    let mut x = 9i64;
    x.set_zero();
    let once = x;
    x.set_zero();
    assert_eq!(x, once);
    assert!(UncZero::is_zero(&x));
}

#[test]
fn set_zero_round_trip_law() {
    let mut x = 17u64;
    assert!(set_zero_round_trip(&mut x));
    assert_eq!(x, 0);
    let mut t = (2u8, 3u16, 4u32);
    assert!(set_zero_round_trip(&mut t));
    assert_eq!(t, (0u8, 0u16, 0u32));
}
