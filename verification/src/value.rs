//! Dynamically tagged scalar values, the native types behind the tags, and
//! the conversions between the two.

use vstd::prelude::*;
use crate::error::ExecutionError;
use crate::types::ScalarType;

verus! {

/// What a tagged value is, as a mathematical value: the tag, and the payload
/// with text as a sequence of characters and a float as its bit pattern.
pub enum ScalarView {
    Null,
    UInt8(u8),
    UInt16(u16),
    UInt32(u32),
    UInt64(u64),
    Int8(i8),
    Int16(i16),
    Int32(i32),
    Int64(i64),
    Float32(u32),
    Float64(u64),
    Utf8(Seq<char>),
}

impl ScalarView {
    /// The tag of the value; an absent value has none.
    pub open spec fn scalar_type(self) -> Option<ScalarType> {
        match self {
            ScalarView::Null => None,
            ScalarView::UInt8(_) => Some(ScalarType::UInt8),
            ScalarView::UInt16(_) => Some(ScalarType::UInt16),
            ScalarView::UInt32(_) => Some(ScalarType::UInt32),
            ScalarView::UInt64(_) => Some(ScalarType::UInt64),
            ScalarView::Int8(_) => Some(ScalarType::Int8),
            ScalarView::Int16(_) => Some(ScalarType::Int16),
            ScalarView::Int32(_) => Some(ScalarType::Int32),
            ScalarView::Int64(_) => Some(ScalarType::Int64),
            ScalarView::Float32(_) => Some(ScalarType::Float32),
            ScalarView::Float64(_) => Some(ScalarType::Float64),
            ScalarView::Utf8(_) => Some(ScalarType::Utf8),
        }
    }
}

/// A 32-bit float, carried as its IEEE-754 bit pattern.
#[derive(Clone, Copy, Debug, PartialEq, Eq, Structural)]
pub struct Float32Bits(pub u32);

/// A 64-bit float, carried as its IEEE-754 bit pattern.
#[derive(Clone, Copy, Debug, PartialEq, Eq, Structural)]
pub struct Float64Bits(pub u64);

/// A single value with its runtime type tag, or the marker of an absent value.
/// Floats are carried as their IEEE-754 bit patterns.
#[derive(Clone, Debug, PartialEq, Eq)]
pub enum TaggedScalarValue {
    Null,
    UInt8(u8),
    UInt16(u16),
    UInt32(u32),
    UInt64(u64),
    Int8(i8),
    Int16(i16),
    Int32(i32),
    Int64(i64),
    Float32(u32),
    Float64(u64),
    Utf8(String),
}

impl View for TaggedScalarValue {
    type V = ScalarView;

    open spec fn view(&self) -> ScalarView {
        match *self {
            TaggedScalarValue::Null => ScalarView::Null,
            TaggedScalarValue::UInt8(x) => ScalarView::UInt8(x),
            TaggedScalarValue::UInt16(x) => ScalarView::UInt16(x),
            TaggedScalarValue::UInt32(x) => ScalarView::UInt32(x),
            TaggedScalarValue::UInt64(x) => ScalarView::UInt64(x),
            TaggedScalarValue::Int8(x) => ScalarView::Int8(x),
            TaggedScalarValue::Int16(x) => ScalarView::Int16(x),
            TaggedScalarValue::Int32(x) => ScalarView::Int32(x),
            TaggedScalarValue::Int64(x) => ScalarView::Int64(x),
            TaggedScalarValue::Float32(x) => ScalarView::Float32(x),
            TaggedScalarValue::Float64(x) => ScalarView::Float64(x),
            TaggedScalarValue::Utf8(s) => ScalarView::Utf8(s@),
        }
    }
}

impl TaggedScalarValue {
    /// The tag of the value; `None` for the absent value.
    pub fn scalar_type(&self) -> (t: Option<ScalarType>)
        ensures
            t == self@.scalar_type(),
    {
        match self {
            TaggedScalarValue::Null => None,
            TaggedScalarValue::UInt8(_) => Some(ScalarType::UInt8),
            TaggedScalarValue::UInt16(_) => Some(ScalarType::UInt16),
            TaggedScalarValue::UInt32(_) => Some(ScalarType::UInt32),
            TaggedScalarValue::UInt64(_) => Some(ScalarType::UInt64),
            TaggedScalarValue::Int8(_) => Some(ScalarType::Int8),
            TaggedScalarValue::Int16(_) => Some(ScalarType::Int16),
            TaggedScalarValue::Int32(_) => Some(ScalarType::Int32),
            TaggedScalarValue::Int64(_) => Some(ScalarType::Int64),
            TaggedScalarValue::Float32(_) => Some(ScalarType::Float32),
            TaggedScalarValue::Float64(_) => Some(ScalarType::Float64),
            TaggedScalarValue::Utf8(_) => Some(ScalarType::Utf8),
        }
    }
}

/// The error that converting `v` to a native value of kind `expected` gives
/// for the argument at `position`, or `None` where the conversion succeeds:
/// an absent value is a missing value, another tag is a type mismatch.
pub open spec fn conversion_error(v: ScalarView, expected: ScalarType, position: usize) -> Option<
    ExecutionError,
> {
    match v.scalar_type() {
        None => Some(ExecutionError::NullValue { position }),
        Some(actual) => if actual == expected {
            None
        } else {
            Some(ExecutionError::TypeMismatch { position, expected, actual })
        },
    }
}

/// What `convert` returns for `v`: the error of the conversion, or a native
/// value that `v` is the tagged form of.
pub open spec fn is_conversion<T: NativeScalar>(
    v: ScalarView,
    position: usize,
    r: Result<T, ExecutionError>,
) -> bool {
    match conversion_error(v, T::scalar_type(), position) {
        Some(e) => r == Err::<T, ExecutionError>(e),
        None => r is Ok && r->Ok_0.tagged() == v,
    }
}

/// A native type that stands behind one tag of `TaggedScalarValue`.
pub trait NativeScalar: Sized {
    /// The tag of this native type.
    spec fn scalar_type() -> ScalarType;

    /// The tagged form of a native value.
    spec fn tagged(&self) -> ScalarView;

    /// The tagged form carries the tag of the native type.
    proof fn lemma_tagged_type(&self)
        ensures
            self.tagged().scalar_type() == Some(Self::scalar_type()),
    ;

    /// The tag of this native type.
    fn kind() -> (t: ScalarType)
        ensures
            t == Self::scalar_type(),
    ;

    /// Tags a native value. Total.
    fn wrap(self) -> (v: TaggedScalarValue)
        ensures
            v@ == self.tagged(),
    ;

    /// The native value inside `v`, the argument at `position`. Fails with
    /// `NullValue` on the absent value and with `TypeMismatch` on another tag;
    /// no default is ever substituted.
    fn convert(v: &TaggedScalarValue, position: usize) -> (r: Result<Self, ExecutionError>)
        ensures
            match conversion_error(v@, Self::scalar_type(), position) {
                Some(e) => r == Err::<Self, ExecutionError>(e),
                None => r is Ok && r->Ok_0.tagged() == v@,
            },
    ;
}

/// The error for a value that does not hold a native value of kind
/// `expected`.
fn mismatch(v: &TaggedScalarValue, expected: ScalarType, position: usize) -> (e: ExecutionError)
    requires
        v@.scalar_type() != Some(expected),
    ensures
        conversion_error(v@, expected, position) == Some(e),
{
    match v.scalar_type() {
        None => ExecutionError::NullValue { position },
        Some(actual) => ExecutionError::TypeMismatch { position, expected, actual },
    }
}

impl NativeScalar for u8 {
    open spec fn scalar_type() -> ScalarType {
        ScalarType::UInt8
    }

    open spec fn tagged(&self) -> ScalarView {
        ScalarView::UInt8(*self)
    }

    proof fn lemma_tagged_type(&self) {
    }

    fn kind() -> (t: ScalarType) {
        ScalarType::UInt8
    }

    fn wrap(self) -> (v: TaggedScalarValue) {
        TaggedScalarValue::UInt8(self)
    }

    fn convert(v: &TaggedScalarValue, position: usize) -> (r: Result<Self, ExecutionError>) {
        match v {
            TaggedScalarValue::UInt8(x) => Ok(*x),
            other => Err(mismatch(other, ScalarType::UInt8, position)),
        }
    }
}

impl NativeScalar for u16 {
    open spec fn scalar_type() -> ScalarType {
        ScalarType::UInt16
    }

    open spec fn tagged(&self) -> ScalarView {
        ScalarView::UInt16(*self)
    }

    proof fn lemma_tagged_type(&self) {
    }

    fn kind() -> (t: ScalarType) {
        ScalarType::UInt16
    }

    fn wrap(self) -> (v: TaggedScalarValue) {
        TaggedScalarValue::UInt16(self)
    }

    fn convert(v: &TaggedScalarValue, position: usize) -> (r: Result<Self, ExecutionError>) {
        match v {
            TaggedScalarValue::UInt16(x) => Ok(*x),
            other => Err(mismatch(other, ScalarType::UInt16, position)),
        }
    }
}

impl NativeScalar for u32 {
    open spec fn scalar_type() -> ScalarType {
        ScalarType::UInt32
    }

    open spec fn tagged(&self) -> ScalarView {
        ScalarView::UInt32(*self)
    }

    proof fn lemma_tagged_type(&self) {
    }

    fn kind() -> (t: ScalarType) {
        ScalarType::UInt32
    }

    fn wrap(self) -> (v: TaggedScalarValue) {
        TaggedScalarValue::UInt32(self)
    }

    fn convert(v: &TaggedScalarValue, position: usize) -> (r: Result<Self, ExecutionError>) {
        match v {
            TaggedScalarValue::UInt32(x) => Ok(*x),
            other => Err(mismatch(other, ScalarType::UInt32, position)),
        }
    }
}

impl NativeScalar for u64 {
    open spec fn scalar_type() -> ScalarType {
        ScalarType::UInt64
    }

    open spec fn tagged(&self) -> ScalarView {
        ScalarView::UInt64(*self)
    }

    proof fn lemma_tagged_type(&self) {
    }

    fn kind() -> (t: ScalarType) {
        ScalarType::UInt64
    }

    fn wrap(self) -> (v: TaggedScalarValue) {
        TaggedScalarValue::UInt64(self)
    }

    fn convert(v: &TaggedScalarValue, position: usize) -> (r: Result<Self, ExecutionError>) {
        match v {
            TaggedScalarValue::UInt64(x) => Ok(*x),
            other => Err(mismatch(other, ScalarType::UInt64, position)),
        }
    }
}

impl NativeScalar for i8 {
    open spec fn scalar_type() -> ScalarType {
        ScalarType::Int8
    }

    open spec fn tagged(&self) -> ScalarView {
        ScalarView::Int8(*self)
    }

    proof fn lemma_tagged_type(&self) {
    }

    fn kind() -> (t: ScalarType) {
        ScalarType::Int8
    }

    fn wrap(self) -> (v: TaggedScalarValue) {
        TaggedScalarValue::Int8(self)
    }

    fn convert(v: &TaggedScalarValue, position: usize) -> (r: Result<Self, ExecutionError>) {
        match v {
            TaggedScalarValue::Int8(x) => Ok(*x),
            other => Err(mismatch(other, ScalarType::Int8, position)),
        }
    }
}

impl NativeScalar for i16 {
    open spec fn scalar_type() -> ScalarType {
        ScalarType::Int16
    }

    open spec fn tagged(&self) -> ScalarView {
        ScalarView::Int16(*self)
    }

    proof fn lemma_tagged_type(&self) {
    }

    fn kind() -> (t: ScalarType) {
        ScalarType::Int16
    }

    fn wrap(self) -> (v: TaggedScalarValue) {
        TaggedScalarValue::Int16(self)
    }

    fn convert(v: &TaggedScalarValue, position: usize) -> (r: Result<Self, ExecutionError>) {
        match v {
            TaggedScalarValue::Int16(x) => Ok(*x),
            other => Err(mismatch(other, ScalarType::Int16, position)),
        }
    }
}

impl NativeScalar for i32 {
    open spec fn scalar_type() -> ScalarType {
        ScalarType::Int32
    }

    open spec fn tagged(&self) -> ScalarView {
        ScalarView::Int32(*self)
    }

    proof fn lemma_tagged_type(&self) {
    }

    fn kind() -> (t: ScalarType) {
        ScalarType::Int32
    }

    fn wrap(self) -> (v: TaggedScalarValue) {
        TaggedScalarValue::Int32(self)
    }

    fn convert(v: &TaggedScalarValue, position: usize) -> (r: Result<Self, ExecutionError>) {
        match v {
            TaggedScalarValue::Int32(x) => Ok(*x),
            other => Err(mismatch(other, ScalarType::Int32, position)),
        }
    }
}

impl NativeScalar for i64 {
    open spec fn scalar_type() -> ScalarType {
        ScalarType::Int64
    }

    open spec fn tagged(&self) -> ScalarView {
        ScalarView::Int64(*self)
    }

    proof fn lemma_tagged_type(&self) {
    }

    fn kind() -> (t: ScalarType) {
        ScalarType::Int64
    }

    fn wrap(self) -> (v: TaggedScalarValue) {
        TaggedScalarValue::Int64(self)
    }

    fn convert(v: &TaggedScalarValue, position: usize) -> (r: Result<Self, ExecutionError>) {
        match v {
            TaggedScalarValue::Int64(x) => Ok(*x),
            other => Err(mismatch(other, ScalarType::Int64, position)),
        }
    }
}

impl NativeScalar for Float32Bits {
    open spec fn scalar_type() -> ScalarType {
        ScalarType::Float32
    }

    open spec fn tagged(&self) -> ScalarView {
        ScalarView::Float32(self.0)
    }

    proof fn lemma_tagged_type(&self) {
    }

    fn kind() -> (t: ScalarType) {
        ScalarType::Float32
    }

    fn wrap(self) -> (v: TaggedScalarValue) {
        TaggedScalarValue::Float32(self.0)
    }

    fn convert(v: &TaggedScalarValue, position: usize) -> (r: Result<Self, ExecutionError>) {
        match v {
            TaggedScalarValue::Float32(x) => Ok(Float32Bits(*x)),
            other => Err(mismatch(other, ScalarType::Float32, position)),
        }
    }
}

impl NativeScalar for Float64Bits {
    open spec fn scalar_type() -> ScalarType {
        ScalarType::Float64
    }

    open spec fn tagged(&self) -> ScalarView {
        ScalarView::Float64(self.0)
    }

    proof fn lemma_tagged_type(&self) {
    }

    fn kind() -> (t: ScalarType) {
        ScalarType::Float64
    }

    fn wrap(self) -> (v: TaggedScalarValue) {
        TaggedScalarValue::Float64(self.0)
    }

    fn convert(v: &TaggedScalarValue, position: usize) -> (r: Result<Self, ExecutionError>) {
        match v {
            TaggedScalarValue::Float64(x) => Ok(Float64Bits(*x)),
            other => Err(mismatch(other, ScalarType::Float64, position)),
        }
    }
}

impl NativeScalar for String {
    open spec fn scalar_type() -> ScalarType {
        ScalarType::Utf8
    }

    open spec fn tagged(&self) -> ScalarView {
        ScalarView::Utf8(self@)
    }

    proof fn lemma_tagged_type(&self) {
    }

    fn kind() -> (t: ScalarType) {
        ScalarType::Utf8
    }

    fn wrap(self) -> (v: TaggedScalarValue) {
        TaggedScalarValue::Utf8(self)
    }

    fn convert(v: &TaggedScalarValue, position: usize) -> (r: Result<Self, ExecutionError>) {
        match v {
            TaggedScalarValue::Utf8(s) => Ok(s.clone()),
            other => Err(mismatch(other, ScalarType::Utf8, position)),
        }
    }
}

/// Converting a value whose tag is the tag of `T`, and tagging the result
/// again, is sure to succeed and gives the value back.
pub proof fn lemma_wrap_convert_round_trip<T: NativeScalar>(
    v: TaggedScalarValue,
    position: usize,
    converted: Result<T, ExecutionError>,
    wrapped: TaggedScalarValue,
)
    requires
        v@.scalar_type() == Some(T::scalar_type()),
        is_conversion::<T>(v@, position, converted),
        converted is Ok ==> wrapped@ == converted->Ok_0.tagged(),
    ensures
        converted is Ok,
        wrapped@ == v@,
{
}

} // verus!
