//! The scalar element kinds, the array kinds that hold them, and the table
//! between the two.

use vstd::prelude::*;
use crate::error::ConfigurationError;

verus! {

/// The element kinds a scalar function may take or return.
#[derive(Clone, Copy, Debug, PartialEq, Eq, Structural)]
pub enum ScalarType {
    UInt8,
    UInt16,
    UInt32,
    UInt64,
    Int8,
    Int16,
    Int32,
    Int64,
    Float32,
    Float64,
    Utf8,
}

/// The columnar containers, one for each element kind.
#[derive(Clone, Copy, Debug, PartialEq, Eq, Structural)]
pub enum ArrayType {
    UInt8Array,
    UInt16Array,
    UInt32Array,
    UInt64Array,
    Int8Array,
    Int16Array,
    Int32Array,
    Int64Array,
    Float32Array,
    Float64Array,
    StringArray,
}

/// The array kind that holds elements of kind `t`.
pub open spec fn array_type_of(t: ScalarType) -> ArrayType {
    match t {
        ScalarType::UInt8 => ArrayType::UInt8Array,
        ScalarType::UInt16 => ArrayType::UInt16Array,
        ScalarType::UInt32 => ArrayType::UInt32Array,
        ScalarType::UInt64 => ArrayType::UInt64Array,
        ScalarType::Int8 => ArrayType::Int8Array,
        ScalarType::Int16 => ArrayType::Int16Array,
        ScalarType::Int32 => ArrayType::Int32Array,
        ScalarType::Int64 => ArrayType::Int64Array,
        ScalarType::Float32 => ArrayType::Float32Array,
        ScalarType::Float64 => ArrayType::Float64Array,
        ScalarType::Utf8 => ArrayType::StringArray,
    }
}

/// The element kind that arrays of kind `a` hold.
pub open spec fn scalar_type_of(a: ArrayType) -> ScalarType {
    match a {
        ArrayType::UInt8Array => ScalarType::UInt8,
        ArrayType::UInt16Array => ScalarType::UInt16,
        ArrayType::UInt32Array => ScalarType::UInt32,
        ArrayType::UInt64Array => ScalarType::UInt64,
        ArrayType::Int8Array => ScalarType::Int8,
        ArrayType::Int16Array => ScalarType::Int16,
        ArrayType::Int32Array => ScalarType::Int32,
        ArrayType::Int64Array => ScalarType::Int64,
        ArrayType::Float32Array => ScalarType::Float32,
        ArrayType::Float64Array => ScalarType::Float64,
        ArrayType::StringArray => ScalarType::Utf8,
    }
}

/// The element kind that a declared type name stands for, if any.
pub open spec fn scalar_type_named(name: Seq<char>) -> Option<ScalarType> {
    if name == "u8"@ {
        Some(ScalarType::UInt8)
    } else if name == "u16"@ {
        Some(ScalarType::UInt16)
    } else if name == "u32"@ {
        Some(ScalarType::UInt32)
    } else if name == "u64"@ {
        Some(ScalarType::UInt64)
    } else if name == "i8"@ {
        Some(ScalarType::Int8)
    } else if name == "i16"@ {
        Some(ScalarType::Int16)
    } else if name == "i32"@ {
        Some(ScalarType::Int32)
    } else if name == "i64"@ {
        Some(ScalarType::Int64)
    } else if name == "f32"@ {
        Some(ScalarType::Float32)
    } else if name == "f64"@ {
        Some(ScalarType::Float64)
    } else if name == "String"@ {
        Some(ScalarType::Utf8)
    } else {
        None
    }
}

/// `str::eq`: whether two string slices hold the same characters.
#[verifier::external_body]
pub(crate) fn str_eq(a: &str, b: &str) -> (same: bool)
    ensures
        same == (a@ == b@),
{
    a == b
}

impl ScalarType {
    /// The array kind that holds elements of this kind.
    pub fn to_array_type(self) -> (a: ArrayType)
        ensures
            a == array_type_of(self),
    {
        match self {
            ScalarType::UInt8 => ArrayType::UInt8Array,
            ScalarType::UInt16 => ArrayType::UInt16Array,
            ScalarType::UInt32 => ArrayType::UInt32Array,
            ScalarType::UInt64 => ArrayType::UInt64Array,
            ScalarType::Int8 => ArrayType::Int8Array,
            ScalarType::Int16 => ArrayType::Int16Array,
            ScalarType::Int32 => ArrayType::Int32Array,
            ScalarType::Int64 => ArrayType::Int64Array,
            ScalarType::Float32 => ArrayType::Float32Array,
            ScalarType::Float64 => ArrayType::Float64Array,
            ScalarType::Utf8 => ArrayType::StringArray,
        }
    }

    /// The element kind that a declared type name stands for: the names of the
    /// integer and float primitives, and `String` for text.
    pub fn from_name(name: &str) -> (t: Option<ScalarType>)
        ensures
            t == scalar_type_named(name@),
    {
        if str_eq(name, "u8") {
            Some(ScalarType::UInt8)
        } else if str_eq(name, "u16") {
            Some(ScalarType::UInt16)
        } else if str_eq(name, "u32") {
            Some(ScalarType::UInt32)
        } else if str_eq(name, "u64") {
            Some(ScalarType::UInt64)
        } else if str_eq(name, "i8") {
            Some(ScalarType::Int8)
        } else if str_eq(name, "i16") {
            Some(ScalarType::Int16)
        } else if str_eq(name, "i32") {
            Some(ScalarType::Int32)
        } else if str_eq(name, "i64") {
            Some(ScalarType::Int64)
        } else if str_eq(name, "f32") {
            Some(ScalarType::Float32)
        } else if str_eq(name, "f64") {
            Some(ScalarType::Float64)
        } else if str_eq(name, "String") {
            Some(ScalarType::Utf8)
        } else {
            None
        }
    }
}

impl ArrayType {
    /// The element kind that arrays of this kind hold.
    pub fn to_scalar_type(self) -> (t: ScalarType)
        ensures
            t == scalar_type_of(self),
    {
        match self {
            ArrayType::UInt8Array => ScalarType::UInt8,
            ArrayType::UInt16Array => ScalarType::UInt16,
            ArrayType::UInt32Array => ScalarType::UInt32,
            ArrayType::UInt64Array => ScalarType::UInt64,
            ArrayType::Int8Array => ScalarType::Int8,
            ArrayType::Int16Array => ScalarType::Int16,
            ArrayType::Int32Array => ScalarType::Int32,
            ArrayType::Int64Array => ScalarType::Int64,
            ArrayType::Float32Array => ScalarType::Float32,
            ArrayType::Float64Array => ScalarType::Float64,
            ArrayType::StringArray => ScalarType::Utf8,
        }
    }
}

/// The array kind for a declared type name; a name outside the table is a
/// configuration error.
pub fn ty_to_arr_type(ty: &str) -> (r: Result<ArrayType, ConfigurationError>)
    ensures
        r == match scalar_type_named(ty@) {
            Some(t) => Ok::<ArrayType, ConfigurationError>(array_type_of(t)),
            None => Err::<ArrayType, ConfigurationError>(ConfigurationError::UnsupportedScalarType),
        },
{
    match ScalarType::from_name(ty) {
        Some(t) => Ok(t.to_array_type()),
        None => Err(ConfigurationError::UnsupportedScalarType),
    }
}

/// Going to the array kind and back gives the element kind again.
pub proof fn lemma_scalar_type_round_trip(t: ScalarType)
    ensures
        scalar_type_of(array_type_of(t)) == t,
{
}

/// Going to the element kind and back gives the array kind again.
pub proof fn lemma_array_type_round_trip(a: ArrayType)
    ensures
        array_type_of(scalar_type_of(a)) == a,
{
}

/// Different element kinds are held by different array kinds.
pub proof fn lemma_array_type_injective(s: ScalarType, t: ScalarType)
    requires
        array_type_of(s) == array_type_of(t),
    ensures
        s == t,
{
}

} // verus!
