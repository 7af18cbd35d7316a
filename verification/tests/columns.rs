use arrow::array::Array;
use arrow::array::BooleanArray;
use arrow::array::Float32Array;
use arrow::array::Int16Array;
use arrow::array::StringArray;
use arrow::array::UInt64Array;
use scalar_udf::column::Column;
use scalar_udf::types::ArrayType;
use scalar_udf::value::Float32Bits;
use scalar_udf::value::Float64Bits;
use scalar_udf::value::TaggedScalarValue;

#[test]
fn columns_of_every_integer_kind() {
    let c = Column::from_values(vec![0u8, 255]).unwrap();
    assert_eq!(c.array_type(), ArrayType::UInt8Array);
    assert_eq!(c.get(1), Some(TaggedScalarValue::UInt8(255)));
    let c = Column::from_values(vec![7u16, 65535]).unwrap();
    assert_eq!(c.array_type(), ArrayType::UInt16Array);
    assert_eq!(c.get(1), Some(TaggedScalarValue::UInt16(65535)));
    let c = Column::from_values(vec![7u32, u32::MAX]).unwrap();
    assert_eq!(c.array_type(), ArrayType::UInt32Array);
    assert_eq!(c.get(1), Some(TaggedScalarValue::UInt32(u32::MAX)));
    let c = Column::from_values(vec![7u64, u64::MAX]).unwrap();
    assert_eq!(c.array_type(), ArrayType::UInt64Array);
    assert_eq!(c.get(1), Some(TaggedScalarValue::UInt64(u64::MAX)));
    let c = Column::from_values(vec![-128i8, 127]).unwrap();
    assert_eq!(c.array_type(), ArrayType::Int8Array);
    assert_eq!(c.get(0), Some(TaggedScalarValue::Int8(-128)));
    let c = Column::from_values(vec![i16::MIN, 5]).unwrap();
    assert_eq!(c.array_type(), ArrayType::Int16Array);
    assert_eq!(c.get(0), Some(TaggedScalarValue::Int16(i16::MIN)));
    let c = Column::from_values(vec![i32::MIN, 5]).unwrap();
    assert_eq!(c.array_type(), ArrayType::Int32Array);
    assert_eq!(c.get(0), Some(TaggedScalarValue::Int32(i32::MIN)));
    let c = Column::from_values(vec![i64::MIN, 5]).unwrap();
    assert_eq!(c.array_type(), ArrayType::Int64Array);
    assert_eq!(c.get(0), Some(TaggedScalarValue::Int64(i64::MIN)));
    assert_eq!(c.get(1), Some(TaggedScalarValue::Int64(5)));
    assert_eq!(c.get(2), None);
    assert_eq!(c.len(), 2);
    assert_eq!(c.null_count(), 0);
}

#[test]
fn float_columns_carry_bit_patterns() {
    let bits = vec![1.5f32.to_bits(), (-0.0f32).to_bits(), 0x7fc0_1234];
    let c = Column::from_values(bits.iter().map(|b| Float32Bits(*b)).collect::<Vec<Float32Bits>>()).unwrap();
    assert_eq!(c.array_type(), ArrayType::Float32Array);
    for (i, b) in bits.iter().enumerate() {
        assert_eq!(c.get(i), Some(TaggedScalarValue::Float32(*b)));
    }
    let array = Float32Array::from(c.to_data());
    assert_eq!(array.value(0), 1.5);
    assert!(array.value(2).is_nan());
    let c = Column::from_values(vec![Float64Bits(2.25f64.to_bits())]).unwrap();
    assert_eq!(c.array_type(), ArrayType::Float64Array);
    assert_eq!(c.get(0), Some(TaggedScalarValue::Float64(2.25f64.to_bits())));
}

#[test]
fn text_columns() {
    let c = Column::from_values(vec!["one".to_string(), String::new(), "drei".to_string()]).unwrap();
    assert_eq!(c.array_type(), ArrayType::StringArray);
    assert_eq!(c.len(), 3);
    assert_eq!(c.get(0), Some(TaggedScalarValue::Utf8("one".to_string())));
    assert_eq!(c.get(1), Some(TaggedScalarValue::Utf8(String::new())));
    assert_eq!(c.get(2), Some(TaggedScalarValue::Utf8("drei".to_string())));
    let array = StringArray::from(c.to_data());
    assert_eq!(array.value(2), "drei");
    let empty = Column::from_values(Vec::<String>::new()).unwrap();
    assert_eq!(empty.len(), 0);
    assert_eq!(empty.array_type(), ArrayType::StringArray);
}

#[test]
fn columns_share_arrow_arrays() {
    let array = UInt64Array::from(vec![Some(3), None, Some(5)]);
    let c = Column::from_data(array.into_data()).unwrap();
    assert_eq!(c.array_type(), ArrayType::UInt64Array);
    assert_eq!(c.len(), 3);
    assert_eq!(c.null_count(), 1);
    assert_eq!(c.get(0), Some(TaggedScalarValue::UInt64(3)));
    assert_eq!(c.get(1), Some(TaggedScalarValue::Null));
    assert_eq!(c.get(2), Some(TaggedScalarValue::UInt64(5)));
    let back = UInt64Array::from(c.to_data());
    assert_eq!(back, UInt64Array::from(vec![Some(3), None, Some(5)]));
    let sliced = Int16Array::from(vec![1, 2, 3, 4]).slice(1, 2);
    let c = Column::from_data(sliced.into_data()).unwrap();
    assert_eq!(c.len(), 2);
    assert_eq!(c.get(0), Some(TaggedScalarValue::Int16(2)));
    assert_eq!(c.get(1), Some(TaggedScalarValue::Int16(3)));
}

#[test]
fn arrays_outside_the_table_are_no_columns() {
    let array = BooleanArray::from(vec![true, false]);
    assert!(Column::from_data(array.into_data()).is_none());
    let array = arrow::array::LargeStringArray::from(vec!["a"]);
    assert!(Column::from_data(array.into_data()).is_none());
}

#[test]
fn cells_made_absent() {
    let c = Column::from_values(vec![1u8, 2, 3]).unwrap();
    let masked = c.with_nulls(vec![false, true, false]).unwrap();
    assert_eq!(masked.array_type(), ArrayType::UInt8Array);
    assert_eq!(masked.len(), 3);
    assert_eq!(masked.null_count(), 1);
    assert_eq!(masked.get(0), Some(TaggedScalarValue::UInt8(1)));
    assert_eq!(masked.get(1), Some(TaggedScalarValue::Null));
    assert_eq!(masked.get(2), Some(TaggedScalarValue::UInt8(3)));
    assert_eq!(c.null_count(), 0);
    assert!(c.with_nulls(vec![true]).is_none());
    assert!(c.with_nulls(vec![]).is_none());
    let again = masked.with_nulls(vec![true, false, false]).unwrap();
    assert_eq!(again.null_count(), 2);
    assert_eq!(again.get(2), Some(TaggedScalarValue::UInt8(3)));
    let empty = Column::from_values(Vec::<u8>::new()).unwrap();
    assert_eq!(empty.with_nulls(vec![]).unwrap().len(), 0);
}
