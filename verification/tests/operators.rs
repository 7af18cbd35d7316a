use arrow::array::Array;
use arrow::array::Int64Array;
use arrow::array::StringArray;
use arrow::array::UInt32Array;
use arrow::array::UInt8Array;
use scalar_udf::column::Column;
use scalar_udf::error::ConfigurationError;
use scalar_udf::error::ExecutionError;
use scalar_udf::operator::udf_name;
use scalar_udf::operator::BinaryOperator;
use scalar_udf::operator::TernaryOperator;
use scalar_udf::operator::UnaryOperator;
use scalar_udf::signature::DeclaredParam;
use scalar_udf::signature::DeclaredPattern;
use scalar_udf::signature::DeclaredSignature;
use scalar_udf::signature::DeclaredType;
use scalar_udf::signature::Parameter;
use scalar_udf::signature::SignatureDescriptor;
use scalar_udf::types::ArrayType;
use scalar_udf::types::ScalarType;
use scalar_udf::value::Float64Bits;
use scalar_udf::value::TaggedScalarValue;

fn plus(a: u32, b: u32) -> u32 {
    a + b
}

fn mul(a: u32, b: u32) -> u32 {
    a * b
}

fn param(name: &str, ty: ScalarType) -> Parameter {
    Parameter { name: name.to_string(), ty }
}

fn typed(name: &str, ty: &str) -> DeclaredParam {
    DeclaredParam::Typed {
        pattern: DeclaredPattern::Ident(name.to_string()),
        ty: DeclaredType::Ident(ty.to_string()),
    }
}

fn declared(name: &str, inputs: Vec<DeclaredParam>, output: &str) -> DeclaredSignature {
    DeclaredSignature {
        name: name.to_string(),
        inputs,
        output: Some(DeclaredType::Ident(output.to_string())),
    }
}

fn u32_pair_sig() -> SignatureDescriptor {
    SignatureDescriptor::new(
        vec![param("a", ScalarType::UInt32), param("b", ScalarType::UInt32)],
        ScalarType::UInt32,
    )
    .unwrap()
}

fn u32_column(values: Vec<u32>) -> Column {
    Column::from_data(UInt32Array::from(values).into_data()).unwrap()
}

fn u32_values(col: &Column) -> Vec<u32> {
    let array = UInt32Array::from(col.to_data());
    array.values().to_vec()
}

#[test]
fn plus_over_two_columns() {
    let op = BinaryOperator::register(u32_pair_sig(), plus).unwrap();
    let a = u32_column(vec![1, 2, 3]);
    let b = u32_column(vec![1, 2, 3]);
    let out = op.invoke(&[a, b]).unwrap();
    assert_eq!(out.array_type(), ArrayType::UInt32Array);
    assert_eq!(u32_values(&out), vec![2, 4, 6]);
}

#[test]
fn mul_composed_over_two_columns() {
    let decl = declared("mul", vec![typed("a", "u32"), typed("b", "u32")], "u32");
    let op = BinaryOperator::compose_udf(&decl, mul).unwrap();
    let a = u32_column(vec![1, 2, 3]);
    let b = u32_column(vec![1, 2, 3]);
    let out = op.invoke(&[a, b]).unwrap();
    assert_eq!(u32_values(&out), vec![1, 4, 9]);
    assert_eq!(op.signature().arity(), 2);
    assert_eq!(op.signature().param_name(1), Some("b"));
}

#[test]
fn derived_operator_is_named_after_the_function() {
    let decl = declared("plus", vec![typed("a", "u32"), typed("b", "u32")], "u32");
    let (name, op) = BinaryOperator::derive_udf(&decl, plus).unwrap();
    assert_eq!(name, "plus_udf");
    let out = op.invoke(&[u32_column(vec![10, 20]), u32_column(vec![1, 2])]).unwrap();
    assert_eq!(u32_values(&out), vec![11, 22]);
    assert_eq!(udf_name("f"), "f_udf");
    assert_eq!(udf_name(""), "_udf");
}

#[test]
fn operator_is_reusable_and_deterministic() {
    let op = BinaryOperator::register(u32_pair_sig(), plus).unwrap();
    let a = u32_column(vec![5, 6]);
    let b = u32_column(vec![7, 8]);
    let batch = [a, b];
    let first = op.invoke(&batch).unwrap();
    let second = op.invoke(&batch).unwrap();
    assert_eq!(u32_values(&first), vec![12, 14]);
    assert_eq!(u32_values(&first), u32_values(&second));
    assert_eq!(u32_values(&batch[0]), vec![5, 6]);
}

#[test]
fn empty_batch_gives_empty_column_of_the_return_kind() {
    let sig = SignatureDescriptor::new(vec![param("x", ScalarType::UInt32)], ScalarType::Int64).unwrap();
    let op = UnaryOperator::register(sig, |x: u32| x as i64 - 1).unwrap();
    let out = op.invoke(&[u32_column(vec![])]).unwrap();
    assert_eq!(out.len(), 0);
    assert_eq!(out.array_type(), ArrayType::Int64Array);
    let array = Int64Array::from(out.to_data());
    assert_eq!(array.len(), 0);
}

#[test]
fn output_has_as_many_rows_as_the_input() {
    let sig = SignatureDescriptor::new(vec![param("x", ScalarType::UInt32)], ScalarType::Int64).unwrap();
    let op = UnaryOperator::register(sig, |x: u32| -(x as i64)).unwrap();
    for k in [1usize, 2, 7, 100] {
        let values: Vec<u32> = (0..k as u32).collect();
        let out = op.invoke(&[u32_column(values.clone())]).unwrap();
        assert_eq!(out.len(), k);
        let array = Int64Array::from(out.to_data());
        for i in 0..k {
            assert_eq!(array.value(i), -(values[i] as i64));
        }
    }
}

#[test]
fn unequal_lengths_are_refused() {
    let op = BinaryOperator::register(u32_pair_sig(), plus).unwrap();
    let r = op.invoke(&[u32_column(vec![1, 2, 3]), u32_column(vec![1, 2])]);
    assert_eq!(
        r.err(),
        Some(ExecutionError::LengthMismatch { position: 1, expected_len: 3, found_len: 2 })
    );
}

#[test]
fn wrong_array_kind_is_refused_with_its_position() {
    let op = BinaryOperator::register(u32_pair_sig(), plus).unwrap();
    let wrong = Column::from_values(vec![1i64, 2, 3]).unwrap();
    let r = op.invoke(&[u32_column(vec![1, 2, 3]), wrong]);
    assert_eq!(
        r.err(),
        Some(ExecutionError::TypeMismatch {
            position: 1,
            expected: ScalarType::UInt32,
            actual: ScalarType::Int64
        })
    );
    let wrong_first = Column::from_values(vec![1u8]).unwrap();
    let r = op.invoke(&[wrong_first, Column::from_values(vec![1i64, 2]).unwrap()]);
    assert_eq!(
        r.err(),
        Some(ExecutionError::TypeMismatch {
            position: 0,
            expected: ScalarType::UInt32,
            actual: ScalarType::UInt8
        })
    );
}

#[test]
fn wrong_number_of_columns_is_refused() {
    let op = BinaryOperator::register(u32_pair_sig(), plus).unwrap();
    let r = op.invoke(&[u32_column(vec![1])]);
    assert_eq!(r.err(), Some(ExecutionError::Arity { expected_count: 2, found_count: 1 }));
    let r = op.invoke(&[]);
    assert_eq!(r.err(), Some(ExecutionError::Arity { expected_count: 2, found_count: 0 }));
    let r = op.invoke(&[u32_column(vec![1]), u32_column(vec![1]), u32_column(vec![1])]);
    assert_eq!(r.err(), Some(ExecutionError::Arity { expected_count: 2, found_count: 3 }));
}

#[test]
fn kind_is_checked_before_length_and_length_before_nulls() {
    let op = BinaryOperator::register(u32_pair_sig(), plus).unwrap();
    let short_wrong = Column::from_values(vec![1i64]).unwrap();
    let r = op.invoke(&[u32_column(vec![1, 2]), short_wrong]);
    assert!(matches!(r.err(), Some(ExecutionError::TypeMismatch { position: 1, .. })));
    let with_null = u32_column(vec![1, 2]).with_nulls(vec![true, false]).unwrap();
    let r = op.invoke(&[with_null, u32_column(vec![1])]);
    assert_eq!(
        r.err(),
        Some(ExecutionError::LengthMismatch { position: 1, expected_len: 2, found_len: 1 })
    );
}

#[test]
fn absent_cells_are_refused() {
    let op = BinaryOperator::register(u32_pair_sig(), plus).unwrap();
    let nulls = UInt32Array::from(vec![Some(1), None, Some(3)]);
    let b = Column::from_data(nulls.into_data()).unwrap();
    assert_eq!(b.null_count(), 1);
    let r = op.invoke(&[u32_column(vec![1, 2, 3]), b]);
    assert_eq!(r.err(), Some(ExecutionError::NullValue { position: 1 }));
    let a = u32_column(vec![1, 2, 3]).with_nulls(vec![false, false, true]).unwrap();
    let r = op.invoke(&[a, u32_column(vec![1, 2, 3])]);
    assert_eq!(r.err(), Some(ExecutionError::NullValue { position: 0 }));
}

#[test]
fn text_columns_in_and_out() {
    let sig = SignatureDescriptor::new(
        vec![param("s", ScalarType::Utf8), param("n", ScalarType::UInt8)],
        ScalarType::Utf8,
    )
    .unwrap();
    let op = BinaryOperator::register(sig, |s: String, n: u8| s.repeat(n as usize)).unwrap();
    let s = Column::from_data(StringArray::from(vec!["ab", "", "héllo"]).into_data()).unwrap();
    let n = Column::from_data(UInt8Array::from(vec![2u8, 5, 1]).into_data()).unwrap();
    let out = op.invoke(&[s, n]).unwrap();
    assert_eq!(out.array_type(), ArrayType::StringArray);
    let array = StringArray::from(out.to_data());
    assert_eq!(array.len(), 3);
    assert_eq!(array.value(0), "abab");
    assert_eq!(array.value(1), "");
    assert_eq!(array.value(2), "héllo");
}

#[test]
fn ternary_operator_over_mixed_kinds() {
    let sig = SignatureDescriptor::new(
        vec![
            param("a", ScalarType::Int64),
            param("b", ScalarType::UInt8),
            param("c", ScalarType::Float64),
        ],
        ScalarType::Float64,
    )
    .unwrap();
    let op = TernaryOperator::register(sig, |a: i64, b: u8, c: Float64Bits| {
        Float64Bits((a as f64 * b as f64 + f64::from_bits(c.0)).to_bits())
    })
    .unwrap();
    let a = Column::from_values(vec![2i64, -3]).unwrap();
    let b = Column::from_values(vec![4u8, 2]).unwrap();
    let c = Column::from_values(vec![Float64Bits(0.5f64.to_bits()), Float64Bits(1.0f64.to_bits())])
        .unwrap();
    let out = op.invoke(&[a, b, c]).unwrap();
    assert_eq!(out.array_type(), ArrayType::Float64Array);
    assert_eq!(out.get(0), Some(TaggedScalarValue::Float64(8.5f64.to_bits())));
    assert_eq!(out.get(1), Some(TaggedScalarValue::Float64((-5.0f64).to_bits())));
    let array = arrow::array::Float64Array::from(out.to_data());
    assert_eq!(array.value(0), 8.5);
    assert_eq!(array.value(1), -5.0);
}

#[test]
fn registration_holds_the_descriptor_against_the_function() {
    let one = SignatureDescriptor::new(vec![param("a", ScalarType::UInt32)], ScalarType::UInt32).unwrap();
    let r = BinaryOperator::register(one, plus);
    assert_eq!(
        r.err(),
        Some(ConfigurationError::ArityMismatch { expected_count: 2, found_count: 1 })
    );
    let wrong_param = SignatureDescriptor::new(
        vec![param("a", ScalarType::UInt32), param("b", ScalarType::Int32)],
        ScalarType::UInt32,
    )
    .unwrap();
    let r = BinaryOperator::register(wrong_param, plus);
    assert_eq!(
        r.err(),
        Some(ConfigurationError::ParameterTypeMismatch {
            position: 1,
            expected: ScalarType::UInt32,
            found: ScalarType::Int32
        })
    );
    let wrong_ret = SignatureDescriptor::new(
        vec![param("a", ScalarType::UInt32), param("b", ScalarType::UInt32)],
        ScalarType::UInt64,
    )
    .unwrap();
    let r = BinaryOperator::register(wrong_ret, plus);
    assert_eq!(
        r.err(),
        Some(ConfigurationError::ReturnTypeMismatch {
            expected: ScalarType::UInt32,
            found: ScalarType::UInt64
        })
    );
}

#[test]
fn composing_reports_extraction_faults_first() {
    let decl = declared("plus", vec![typed("a", "u32"), typed("b", "bool")], "u32");
    let r = BinaryOperator::compose_udf(&decl, plus);
    assert_eq!(r.err(), Some(ConfigurationError::UnsupportedParameterType { position: 1 }));
    let decl = declared("plus", vec![typed("a", "u32"), typed("b", "u16")], "u32");
    let r = BinaryOperator::compose_udf(&decl, plus);
    assert_eq!(
        r.err(),
        Some(ConfigurationError::ParameterTypeMismatch {
            position: 1,
            expected: ScalarType::UInt32,
            found: ScalarType::UInt16
        })
    );
}
