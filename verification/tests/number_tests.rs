use lunify::number::Number;
use lunify::LunifyError;

#[test]
fn integer_as_integer() {
    let number = Number::Integer(10);
    assert_eq!(number.as_integer(), Ok(10));
}

#[test]
fn integer_as_float() {
    let number = Number::Integer(10);
    assert_eq!(number.as_float(), Ok(10.0f64.to_bits()));
}

#[test]
fn float_as_float() {
    let number = Number::Float(10.0f64.to_bits());
    assert_eq!(number.as_float(), Ok(10.0f64.to_bits()));
}

#[test]
fn float_as_integer() {
    let number = Number::Float(10.0f64.to_bits());
    assert_eq!(number.as_integer(), Ok(10));
}

#[test]
fn fraction_as_integer() {
    let number = Number::Float(10.5f64.to_bits());
    assert_eq!(number.as_integer(), Err(LunifyError::FloatPrecisionLoss));
}

#[test]
fn i64_max_as_float() {
    let number = Number::Integer(i64::MAX);
    assert_eq!(number.as_float(), Err(LunifyError::IntegerOverflow));
}

#[test]
fn negative_integer_as_float() {
    let number = Number::Integer(-3);
    assert_eq!(number.as_float(), Ok((-3.0f64).to_bits()));
}

#[test]
fn large_integer_as_float_rounds() {
    // 2^53 + 1 is not representable; conversion rounds to the nearest
    // even, exactly as an `as f64` cast does.
    let value = 9007199254740993i64;
    let number = Number::Integer(value);
    assert_eq!(number.as_float(), Ok((value as f64).to_bits()));
}

#[test]
fn negative_float_as_integer() {
    let number = Number::Float((-42.0f64).to_bits());
    assert_eq!(number.as_integer(), Ok(-42));
}

#[test]
fn nan_as_integer() {
    let number = Number::Float(f64::NAN.to_bits());
    assert_eq!(number.as_integer(), Err(LunifyError::FloatPrecisionLoss));
}

#[test]
fn infinity_as_integer_saturates() {
    let number = Number::Float(f64::INFINITY.to_bits());
    assert_eq!(number.as_integer(), Ok(i64::MAX));
    let number = Number::Float(f64::NEG_INFINITY.to_bits());
    assert_eq!(number.as_integer(), Ok(i64::MIN));
}

#[test]
fn huge_float_as_integer_saturates() {
    let number = Number::Float(1.0e300f64.to_bits());
    assert_eq!(number.as_integer(), Ok(i64::MAX));
}
