//! Failures reported while registering a function and while running one.

use vstd::prelude::*;
use crate::types::ScalarType;

verus! {

/// Why a function could not be registered. Always fatal to the registration.
#[derive(Clone, Copy, Debug, PartialEq, Eq, Structural)]
pub enum ConfigurationError {
    /// A type name that the type table does not know.
    UnsupportedScalarType,
    /// The declared function takes no parameter at all.
    NoParameters,
    /// The parameter at `position` is not a plain binding of a supported scalar type.
    UnsupportedParameterType { position: usize },
    /// The parameter at `position` repeats the name of an earlier parameter.
    DuplicateParameterName { position: usize },
    /// The declared function returns nothing.
    MissingReturnType,
    /// The declared return type is not a supported scalar type.
    UnsupportedReturnType,
    /// The descriptor declares `found_count` parameters, the function takes
    /// `expected_count`.
    ArityMismatch { expected_count: usize, found_count: usize },
    /// The descriptor's parameter at `position` is `found`, the function takes `expected`.
    ParameterTypeMismatch { position: usize, expected: ScalarType, found: ScalarType },
    /// The descriptor's return type is `found`, the function returns `expected`.
    ReturnTypeMismatch { expected: ScalarType, found: ScalarType },
}

/// Why one call of an operator or of a bound callable failed.
#[derive(Clone, Copy, Debug, PartialEq, Eq, Structural)]
pub enum ExecutionError {
    /// `expected_count` arguments are needed and `found_count` were supplied.
    Arity { expected_count: usize, found_count: usize },
    /// The argument at `position` holds `actual` where `expected` is needed.
    TypeMismatch { position: usize, expected: ScalarType, actual: ScalarType },
    /// The argument at `position` is absent, or holds an absent value.
    NullValue { position: usize },
    /// The array at `position` has `found_len` rows where the first array has
    /// `expected_len`.
    LengthMismatch { position: usize, expected_len: usize, found_len: usize },
    /// The text results together hold more bytes than one text array can address.
    OutputTooLarge,
}

} // verus!
