use scalar_udf::error::ConfigurationError;
use scalar_udf::params::Field;
use scalar_udf::params::Params;
use scalar_udf::signature::extract;
use scalar_udf::signature::DeclaredParam;
use scalar_udf::signature::DeclaredPattern;
use scalar_udf::signature::DeclaredSignature;
use scalar_udf::signature::DeclaredType;
use scalar_udf::signature::Parameter;
use scalar_udf::signature::SignatureDescriptor;
use scalar_udf::types::ScalarType;

fn typed(name: &str, ty: &str) -> DeclaredParam {
    DeclaredParam::Typed {
        pattern: DeclaredPattern::Ident(name.to_string()),
        ty: DeclaredType::Ident(ty.to_string()),
    }
}

fn declared(inputs: Vec<DeclaredParam>, output: Option<DeclaredType>) -> DeclaredSignature {
    DeclaredSignature { name: "f".to_string(), inputs, output }
}

fn returning(ty: &str) -> Option<DeclaredType> {
    Some(DeclaredType::Ident(ty.to_string()))
}

fn param(name: &str, ty: ScalarType) -> Parameter {
    Parameter { name: name.to_string(), ty }
}

fn field(name: &str, data_type: ScalarType) -> Field {
    Field { name: name.to_string(), data_type, nullable: false }
}

#[test]
fn extraction_keeps_names_kinds_and_order() {
    let decl = declared(
        vec![typed("first", "u8"), typed("second", "String"), typed("third", "f64")],
        returning("i32"),
    );
    let sig = extract(&decl).ok().unwrap();
    assert_eq!(sig.arity(), 3);
    assert_eq!(sig.param_name(0), Some("first"));
    assert_eq!(sig.param_name(1), Some("second"));
    assert_eq!(sig.param_name(2), Some("third"));
    assert_eq!(sig.param_name(3), None);
    assert_eq!(sig.param_type(0), Some(ScalarType::UInt8));
    assert_eq!(sig.param_type(1), Some(ScalarType::Utf8));
    assert_eq!(sig.param_type(2), Some(ScalarType::Float64));
    assert_eq!(sig.param_type(3), None);
    assert_eq!(sig.return_type(), ScalarType::Int32);
}

#[test]
fn extraction_refuses_what_is_not_a_plain_scalar_parameter() {
    let decl = declared(vec![typed("a", "u8"), typed("b", "Vec")], returning("u8"));
    assert_eq!(extract(&decl).err(), Some(ConfigurationError::UnsupportedParameterType { position: 1 }));
    let decl = declared(vec![DeclaredParam::Receiver, typed("b", "u8")], returning("u8"));
    assert_eq!(extract(&decl).err(), Some(ConfigurationError::UnsupportedParameterType { position: 0 }));
    let other_type = DeclaredParam::Typed {
        pattern: DeclaredPattern::Ident("a".to_string()),
        ty: DeclaredType::Other,
    };
    let decl = declared(vec![typed("x", "u8"), typed("y", "u8"), other_type], returning("u8"));
    assert_eq!(extract(&decl).err(), Some(ConfigurationError::UnsupportedParameterType { position: 2 }));
    let other_pattern = DeclaredParam::Typed {
        pattern: DeclaredPattern::Other,
        ty: DeclaredType::Ident("u8".to_string()),
    };
    let decl = declared(vec![other_pattern], returning("u8"));
    assert_eq!(extract(&decl).err(), Some(ConfigurationError::UnsupportedParameterType { position: 0 }));
}

#[test]
fn extraction_needs_a_supported_return_type() {
    let decl = declared(vec![typed("a", "u8")], None);
    assert_eq!(extract(&decl).err(), Some(ConfigurationError::MissingReturnType));
    let decl = declared(vec![typed("a", "u8")], returning("bool"));
    assert_eq!(extract(&decl).err(), Some(ConfigurationError::UnsupportedReturnType));
    let decl = declared(vec![typed("a", "u8")], Some(DeclaredType::Other));
    assert_eq!(extract(&decl).err(), Some(ConfigurationError::UnsupportedReturnType));
}

#[test]
fn extraction_needs_a_parameter_and_distinct_names() {
    let decl = declared(vec![], returning("u8"));
    assert_eq!(extract(&decl).err(), Some(ConfigurationError::NoParameters));
    let decl = declared(vec![typed("a", "u8"), typed("b", "u8"), typed("a", "u16")], returning("u8"));
    assert_eq!(extract(&decl).err(), Some(ConfigurationError::DuplicateParameterName { position: 2 }));
    let decl = declared(vec![], None);
    assert_eq!(extract(&decl).err(), Some(ConfigurationError::MissingReturnType));
    let decl = declared(vec![typed("a", "u8"), typed("a", "none")], returning("u8"));
    assert_eq!(extract(&decl).err(), Some(ConfigurationError::UnsupportedParameterType { position: 1 }));
}

#[test]
fn descriptor_needs_a_parameter_and_distinct_names() {
    let r = SignatureDescriptor::new(vec![], ScalarType::UInt8);
    assert_eq!(r.err(), Some(ConfigurationError::NoParameters));
    let r = SignatureDescriptor::new(
        vec![
            param("x", ScalarType::UInt8),
            param("y", ScalarType::UInt8),
            param("y", ScalarType::UInt8),
            param("x", ScalarType::UInt8),
        ],
        ScalarType::UInt8,
    );
    assert_eq!(r.err(), Some(ConfigurationError::DuplicateParameterName { position: 2 }));
    let sig = SignatureDescriptor::new(vec![param("x", ScalarType::Utf8)], ScalarType::Float32)
        .ok()
        .unwrap();
    assert_eq!(sig.arity(), 1);
    assert_eq!(sig.param_type(0), Some(ScalarType::Utf8));
    assert_eq!(sig.return_type(), ScalarType::Float32);
}

#[test]
fn params_find_fields_by_position_and_name() {
    let params = Params::new(vec![
        field("a", ScalarType::UInt8),
        field("b", ScalarType::Utf8),
        field("a", ScalarType::Int64),
    ]);
    assert_eq!(params.len(), 3);
    assert_eq!(params.index_of("a"), Some(2));
    assert_eq!(params.index_of("b"), Some(1));
    assert_eq!(params.index_of("c"), None);
    assert_eq!(params.field(1).map(|f| f.data_type), Some(ScalarType::Utf8));
    assert_eq!(params.field(2).map(|f| f.name.as_str()), Some("a"));
    assert!(params.field(3).is_none());
    let empty = Params::new(vec![]);
    assert_eq!(empty.len(), 0);
    assert_eq!(empty.index_of("a"), None);
}
