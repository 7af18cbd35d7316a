use scalar_udf::error::ConfigurationError;
use scalar_udf::types::ty_to_arr_type;
use scalar_udf::types::ArrayType;
use scalar_udf::types::ScalarType;

fn all_scalar_types() -> Vec<ScalarType> {
    vec![
        ScalarType::UInt8,
        ScalarType::UInt16,
        ScalarType::UInt32,
        ScalarType::UInt64,
        ScalarType::Int8,
        ScalarType::Int16,
        ScalarType::Int32,
        ScalarType::Int64,
        ScalarType::Float32,
        ScalarType::Float64,
        ScalarType::Utf8,
    ]
}

#[test]
fn every_scalar_type_has_its_array_type() {
    assert_eq!(ScalarType::UInt8.to_array_type(), ArrayType::UInt8Array);
    assert_eq!(ScalarType::UInt16.to_array_type(), ArrayType::UInt16Array);
    assert_eq!(ScalarType::UInt32.to_array_type(), ArrayType::UInt32Array);
    assert_eq!(ScalarType::UInt64.to_array_type(), ArrayType::UInt64Array);
    assert_eq!(ScalarType::Int8.to_array_type(), ArrayType::Int8Array);
    assert_eq!(ScalarType::Int16.to_array_type(), ArrayType::Int16Array);
    assert_eq!(ScalarType::Int32.to_array_type(), ArrayType::Int32Array);
    assert_eq!(ScalarType::Int64.to_array_type(), ArrayType::Int64Array);
    assert_eq!(ScalarType::Float32.to_array_type(), ArrayType::Float32Array);
    assert_eq!(ScalarType::Float64.to_array_type(), ArrayType::Float64Array);
    assert_eq!(ScalarType::Utf8.to_array_type(), ArrayType::StringArray);
}

#[test]
fn the_table_is_a_bijection() {
    let all = all_scalar_types();
    for (i, s) in all.iter().enumerate() {
        assert_eq!(s.to_array_type().to_scalar_type(), *s);
        for (j, t) in all.iter().enumerate() {
            assert_eq!(s.to_array_type() == t.to_array_type(), i == j);
        }
    }
    assert_eq!(ArrayType::StringArray.to_scalar_type().to_array_type(), ArrayType::StringArray);
}

#[test]
fn type_names_are_those_of_the_primitives() {
    let names = ["u8", "u16", "u32", "u64", "i8", "i16", "i32", "i64", "f32", "f64", "String"];
    let all = all_scalar_types();
    for (name, t) in names.iter().zip(all.iter()) {
        assert_eq!(ScalarType::from_name(name), Some(*t));
    }
    assert_eq!(ScalarType::from_name("bool"), None);
    assert_eq!(ScalarType::from_name(""), None);
    assert_eq!(ScalarType::from_name("U32"), None);
    assert_eq!(ScalarType::from_name("string"), None);
    assert_eq!(ScalarType::from_name("u32 "), None);
    assert_eq!(ScalarType::from_name("usize"), None);
}

#[test]
fn array_type_for_a_type_name() {
    assert_eq!(ty_to_arr_type("u8"), Ok(ArrayType::UInt8Array));
    assert_eq!(ty_to_arr_type("i64"), Ok(ArrayType::Int64Array));
    assert_eq!(ty_to_arr_type("f32"), Ok(ArrayType::Float32Array));
    assert_eq!(ty_to_arr_type("String"), Ok(ArrayType::StringArray));
    assert_eq!(ty_to_arr_type("char"), Err(ConfigurationError::UnsupportedScalarType));
    assert_eq!(ty_to_arr_type("Vec"), Err(ConfigurationError::UnsupportedScalarType));
}
