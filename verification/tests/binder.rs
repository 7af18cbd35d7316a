use scalar_udf::binder::BoundBinary;
use scalar_udf::binder::BoundTernary;
use scalar_udf::binder::BoundUnary;
use scalar_udf::error::ExecutionError;
use scalar_udf::types::ScalarType;
use scalar_udf::value::Float32Bits;
use scalar_udf::value::NativeScalar;
use scalar_udf::value::TaggedScalarValue;

fn adds_ten(x: u32) -> u32 {
    x + 10
}

fn minus(a: i64, b: i64) -> i64 {
    a - b
}

#[test]
fn unary_binding_adds_ten() {
    let bound = BoundUnary::bind(adds_ten);
    assert_eq!(bound.arity(), 1);
    assert_eq!(bound.call(&[TaggedScalarValue::UInt32(20)]), Ok(TaggedScalarValue::UInt32(30)));
    assert_eq!(
        bound.call(&[]),
        Err(ExecutionError::Arity { expected_count: 1, found_count: 0 })
    );
}

#[test]
fn binary_binding_needs_both_arguments() {
    let bound = BoundBinary::bind(minus);
    assert_eq!(
        bound.call(&[TaggedScalarValue::Int64(5)]),
        Err(ExecutionError::Arity { expected_count: 2, found_count: 1 })
    );
    assert_eq!(
        bound.call(&[TaggedScalarValue::Int64(5), TaggedScalarValue::Int64(7)]),
        Ok(TaggedScalarValue::Int64(-2))
    );
}

#[test]
fn extra_arguments_are_never_looked_at() {
    let bound = BoundUnary::bind(adds_ten);
    let args = [
        TaggedScalarValue::UInt32(1),
        TaggedScalarValue::Null,
        TaggedScalarValue::Utf8("ignored".to_string()),
    ];
    assert_eq!(bound.call(&args), Ok(TaggedScalarValue::UInt32(11)));
}

#[test]
fn arguments_are_bound_from_the_left() {
    let bound = BoundBinary::bind(minus);
    assert_eq!(
        bound.call(&[TaggedScalarValue::Null]),
        Err(ExecutionError::NullValue { position: 0 })
    );
    assert_eq!(
        bound.call(&[TaggedScalarValue::UInt8(1), TaggedScalarValue::Null]),
        Err(ExecutionError::TypeMismatch {
            position: 0,
            expected: ScalarType::Int64,
            actual: ScalarType::UInt8
        })
    );
    assert_eq!(
        bound.call(&[TaggedScalarValue::Int64(1), TaggedScalarValue::Null]),
        Err(ExecutionError::NullValue { position: 1 })
    );
    assert_eq!(
        bound.call(&[TaggedScalarValue::Int64(1), TaggedScalarValue::Utf8("x".to_string())]),
        Err(ExecutionError::TypeMismatch {
            position: 1,
            expected: ScalarType::Int64,
            actual: ScalarType::Utf8
        })
    );
}

#[test]
fn ternary_binding_over_text_and_floats() {
    let bound = BoundTernary::bind(|s: String, n: u16, x: Float32Bits| {
        format!("{}:{}:{}", s, n, f32::from_bits(x.0))
    });
    assert_eq!(bound.arity(), 3);
    let args = [
        TaggedScalarValue::Utf8("k".to_string()),
        TaggedScalarValue::UInt16(7),
        TaggedScalarValue::Float32(1.5f32.to_bits()),
    ];
    assert_eq!(bound.call(&args), Ok(TaggedScalarValue::Utf8("k:7:1.5".to_string())));
    assert_eq!(
        bound.call(&args[..2]),
        Err(ExecutionError::Arity { expected_count: 3, found_count: 2 })
    );
}

#[test]
fn convert_then_wrap_gives_the_value_back() {
    let values = vec![
        TaggedScalarValue::UInt8(200),
        TaggedScalarValue::Int64(-9),
        TaggedScalarValue::Utf8("text".to_string()),
    ];
    assert_eq!(u8::convert(&values[0], 0).unwrap().wrap(), values[0]);
    assert_eq!(i64::convert(&values[1], 0).unwrap().wrap(), values[1]);
    assert_eq!(String::convert(&values[2], 0).unwrap().wrap(), values[2]);
    let bits = TaggedScalarValue::Float32(0x7fc0_0001);
    assert_eq!(Float32Bits::convert(&bits, 0).unwrap().wrap(), bits);
}

#[test]
fn convert_refuses_other_tags_and_the_absent_value() {
    assert_eq!(
        u8::convert(&TaggedScalarValue::UInt16(1), 4),
        Err(ExecutionError::TypeMismatch {
            position: 4,
            expected: ScalarType::UInt8,
            actual: ScalarType::UInt16
        })
    );
    assert_eq!(
        String::convert(&TaggedScalarValue::Null, 2),
        Err(ExecutionError::NullValue { position: 2 })
    );
    assert_eq!(u32::kind(), ScalarType::UInt32);
    assert_eq!(String::kind(), ScalarType::Utf8);
    assert_eq!(TaggedScalarValue::Null.scalar_type(), None);
    assert_eq!(TaggedScalarValue::Int8(-1).scalar_type(), Some(ScalarType::Int8));
}
