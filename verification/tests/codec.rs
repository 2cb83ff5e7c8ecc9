use val_unc::{decode_raw, DecodeError, RawValue, UncZero, ValUnc, ValUncTuple};

// A floating-point uncertainty scalar: zero exactly when the magnitude is 0.0.
#[derive(Debug, Clone, Copy, PartialEq, Default)]
struct FloatUnc(f64);

impl UncZero for FloatUnc {
    fn zero() -> Self {
        FloatUnc(0.0)
    }

    fn is_zero(&self) -> bool {
        self.0 == 0.0
    }

    fn set_zero(&mut self) {
        self.0 = 0.0;
    }
}

#[test]
fn encode_zero_uncertainty_is_bare() {
    let e = ValUnc::new(7u32, 0u64);
    let t = ValUncTuple::from(e);
    assert_eq!(t, ValUncTuple::NoUnc(7u32));
}

#[test]
fn encode_nonzero_uncertainty_is_pair() {
    let e = ValUnc::new(7u32, 5u64);
    let t = ValUncTuple::from(e);
    assert_eq!(t, ValUncTuple::Unc(7u32, 5u64));
}

#[test]
fn decode_bare_resets_uncertainty() {
    let d: ValUnc<u32, u64> = ValUnc::from(ValUncTuple::NoUnc(7u32));
    assert_eq!(d, ValUnc::new(7u32, 0u64));
}

#[test]
fn decode_pair_is_positional() {
    let d: ValUnc<u32, u64> = ValUnc::from(ValUncTuple::Unc(7u32, 5u64));
    assert_eq!(d, ValUnc::new(7u32, 5u64));
}

#[test]
fn round_trip_zero_uncertainty() {
    let e = ValUnc::new(42u32, (0u8, 0u16));
    let back: ValUnc<u32, (u8, u16)> = ValUnc::from(ValUncTuple::from(e));
    assert_eq!(back, e);
}

#[test]
fn round_trip_nonzero_uncertainty() {
    let e = ValUnc::new(42u32, (1u8, 0u16));
    let back: ValUnc<u32, (u8, u16)> = ValUnc::from(ValUncTuple::from(e));
    assert_eq!(back, e);
}

#[test]
fn from_scalar_sets_zero_uncertainty() {
    let e: ValUnc<u32, u64> = ValUnc::from(5u32);
    assert_eq!(e, ValUnc::new(5u32, 0u64));
}

#[test]
fn decode_raw_bare_scalar_into_float() {
    let r: Result<ValUnc<f64, FloatUnc>, DecodeError> = decode_raw(RawValue::Scalar(5.0));
    let e = r.unwrap();
    assert_eq!(e.val, 5.0);
    assert_eq!(e.unc, FloatUnc(0.0));
}

#[test]
fn decode_raw_pair() {
    let r: Result<ValUnc<u32, u64>, DecodeError> = decode_raw(RawValue::Pair(3u32, 9u64));
    assert_eq!(r, Ok(ValUnc::new(3u32, 9u64)));
}

#[test]
fn decode_raw_three_elements_is_length_mismatch() {
    let r: Result<ValUnc<u32, u64>, DecodeError> = decode_raw(RawValue::BadLength(3));
    assert_eq!(
        r,
        Err(DecodeError::LengthMismatch {
            expected: 2,
            found: 3
        })
    );
}

#[test]
fn decode_raw_one_element_is_length_mismatch() {
    let r: Result<ValUnc<u32, u64>, DecodeError> = decode_raw(RawValue::BadLength(1));
    assert_eq!(
        r,
        Err(DecodeError::LengthMismatch {
            expected: 2,
            found: 1
        })
    );
}

#[test]
fn decode_raw_bad_element_is_type_mismatch() {
    let r: Result<ValUnc<u32, u64>, DecodeError> = decode_raw(RawValue::BadElement(1));
    assert_eq!(r, Err(DecodeError::TypeMismatch { field: 1 }));
    let r0: Result<ValUnc<u32, u64>, DecodeError> = decode_raw(RawValue::BadElement(0));
    assert_eq!(r0, Err(DecodeError::TypeMismatch { field: 0 }));
}
