//! The arrays that operators read and produce. The arrays themselves are
//! Arrow's; every read and every construction goes through the few functions
//! of this file whose contracts are stated without proof.

use vstd::prelude::*;
use arrow::array::Array;
use arrow::array::ArrayData;
use arrow::array::ArrayRef;
use arrow::array::BooleanArray;
use arrow::array::Float32Array;
use arrow::array::Float64Array;
use arrow::array::Int16Array;
use arrow::array::Int32Array;
use arrow::array::Int64Array;
use arrow::array::Int8Array;
use arrow::array::StringArray;
use arrow::array::UInt16Array;
use arrow::array::UInt32Array;
use arrow::array::UInt64Array;
use arrow::array::UInt8Array;
use arrow::datatypes::ArrowPrimitiveType;
use arrow::datatypes::DataType;
use arrow::datatypes::Float32Type;
use arrow::datatypes::Float64Type;
use std::sync::Arc;
use crate::types::ArrayType;
use crate::value::ScalarView;

verus! {

/// A shared handle to one Arrow array (`arrow::array::ArrayRef`). Only the
/// functions of this file make one, so the array behind it is always of one
/// of the kinds of `ArrayType`.
#[verifier::external_body]
pub struct ArrayHandle {
    inner: ArrayRef,
}

/// The kind of the array behind a handle.
pub uninterp spec fn handle_type(h: ArrayHandle) -> ArrayType;

/// The slots of the array behind a handle, in order: `Null` for a slot that is
/// not valid, else the slot's value under the tag of the array's element kind.
pub uninterp spec fn handle_cells(h: ArrayHandle) -> Seq<ScalarView>;

/// Arrow's untyped description of one array (`arrow::array::ArrayData`): the
/// form in which arrays pass between this library and its callers.
#[verifier::external_type_specification]
#[verifier::external_body]
pub struct ExArrayData(ArrayData);

/// The kind of the array that a description describes; `None` for a kind
/// outside `ArrayType`.
pub uninterp spec fn data_type_of(d: ArrayData) -> Option<ArrayType>;

/// The slots of the array that a description describes, as `handle_cells`
/// gives them for the array itself.
pub uninterp spec fn data_cells(d: ArrayData) -> Seq<ScalarView>;

/// How many of the cells are absent.
pub open spec fn null_cells(cells: Seq<ScalarView>) -> nat {
    cells.filter(|c: ScalarView| c is Null).len()
}

/// The cells of an array without absent slots that holds `values`.
pub open spec fn cells_of<T>(values: Seq<T>, tag: spec_fn(T) -> ScalarView) -> Seq<ScalarView> {
    values.map_values(tag)
}

/// The number of bytes that the texts take together in UTF-8.
pub open spec fn text_bytes(texts: Seq<String>) -> nat
    decreases texts.len(),
{
    if texts.len() == 0 {
        0
    } else {
        text_bytes(texts.drop_last()) + vstd::utf8::encode_utf8(texts.last()@).len()
    }
}

/// The most bytes that the texts of one text array can take together: the
/// largest offset that the array can store.
pub const MAX_TEXT_BYTES: usize = 0x7fff_ffff;

/// `ArrayData::data_type`, told apart by variant: the kind of the described
/// array, `None` for every data type outside `ArrayType`.
#[verifier::external_body]
pub(crate) fn data_array_type(d: &ArrayData) -> (kind: Option<ArrayType>)
    ensures
        kind == data_type_of(*d),
{
    match d.data_type() {
        DataType::UInt8 => Some(ArrayType::UInt8Array),
        DataType::UInt16 => Some(ArrayType::UInt16Array),
        DataType::UInt32 => Some(ArrayType::UInt32Array),
        DataType::UInt64 => Some(ArrayType::UInt64Array),
        DataType::Int8 => Some(ArrayType::Int8Array),
        DataType::Int16 => Some(ArrayType::Int16Array),
        DataType::Int32 => Some(ArrayType::Int32Array),
        DataType::Int64 => Some(ArrayType::Int64Array),
        DataType::Float32 => Some(ArrayType::Float32Array),
        DataType::Float64 => Some(ArrayType::Float64Array),
        DataType::Utf8 => Some(ArrayType::StringArray),
        _ => None,
    }
}

/// `arrow::array::make_array`: the array that a description describes. Only
/// descriptions of a kind in `ArrayType` are handed to it.
#[verifier::external_body]
pub(crate) fn handle_from_data(d: ArrayData) -> (h: ArrayHandle)
    requires
        data_type_of(d) is Some,
    ensures
        Some(handle_type(h)) == data_type_of(d),
        handle_cells(h) == data_cells(d),
{
    ArrayHandle { inner: arrow::array::make_array(d) }
}

/// `Array::to_data`: the description of the array.
#[verifier::external_body]
pub(crate) fn handle_to_data(h: &ArrayHandle) -> (d: ArrayData)
    ensures
        data_type_of(d) == Some(handle_type(*h)),
        data_cells(d) == handle_cells(*h),
{
    h.inner.to_data()
}

/// `Array::len`: the number of slots of the array.
#[verifier::external_body]
pub(crate) fn handle_len(h: &ArrayHandle) -> (n: usize)
    ensures
        n == handle_cells(*h).len(),
{
    h.inner.len()
}

/// `Array::null_count`: the number of slots that are not valid.
#[verifier::external_body]
pub(crate) fn handle_null_count(h: &ArrayHandle) -> (n: usize)
    ensures
        n == null_cells(handle_cells(*h)),
{
    h.inner.null_count()
}

/// `Array::is_null`: whether the slot at `i` is not valid. Arrow panics on an
/// index past the end where the array has a validity mask.
#[verifier::external_body]
pub(crate) fn handle_is_null(h: &ArrayHandle, i: usize) -> (absent: bool)
    requires
        i < handle_cells(*h).len(),
    ensures
        absent == (handle_cells(*h)[i as int] is Null),
{
    h.inner.is_null(i)
}

/// `arrow::compute::nullif` with a mask made by `BooleanArray::from`: an array
/// of the same kind and values whose slot `i` is no longer valid where
/// `absent[i]` holds. Arrow refuses a mask of another length.
#[verifier::external_body]
pub(crate) fn handle_nullif(h: &ArrayHandle, absent: Vec<bool>) -> (r: Option<ArrayHandle>)
    ensures
        r is Some <==> absent@.len() == handle_cells(*h).len(),
        r is Some ==> handle_type(r->0) == handle_type(*h),
        r is Some ==> handle_cells(r->0) == Seq::new(
            absent@.len(),
            |i: int| if absent@[i] { ScalarView::Null } else { handle_cells(*h)[i] },
        ),
{
    let mask = BooleanArray::from(absent);
    match arrow::compute::nullif(&h.inner, &mask) {
        Ok(inner) => Some(ArrayHandle { inner }),
        Err(_) => None,
    }
}

/// `From<Vec<u8>>` of `UInt8Array`: an array of these values, every slot valid.
#[verifier::external_body]
pub(crate) fn handle_from_u8(values: Vec<u8>) -> (h: ArrayHandle)
    ensures
        handle_type(h) == ArrayType::UInt8Array,
        handle_cells(h) == cells_of(values@, |x: u8| ScalarView::UInt8(x)),
{
    ArrayHandle { inner: Arc::new(UInt8Array::from(values)) }
}

/// `PrimitiveArray::value` on a `UInt8Array`: the value of the slot at `i`.
/// Arrow panics on an index past the end, and leaves open what an absent slot
/// gives.
#[verifier::external_body]
pub(crate) fn handle_u8_at(h: &ArrayHandle, i: usize) -> (x: u8)
    requires
        handle_type(*h) == ArrayType::UInt8Array,
        i < handle_cells(*h).len(),
    ensures
        !(handle_cells(*h)[i as int] is Null) ==> handle_cells(*h)[i as int] == ScalarView::UInt8(x),
{
    h.inner.as_any().downcast_ref::<UInt8Array>().unwrap().value(i)
}

/// `From<Vec<u16>>` of `UInt16Array`: an array of these values, every slot valid.
#[verifier::external_body]
pub(crate) fn handle_from_u16(values: Vec<u16>) -> (h: ArrayHandle)
    ensures
        handle_type(h) == ArrayType::UInt16Array,
        handle_cells(h) == cells_of(values@, |x: u16| ScalarView::UInt16(x)),
{
    ArrayHandle { inner: Arc::new(UInt16Array::from(values)) }
}

/// `PrimitiveArray::value` on a `UInt16Array`: the value of the slot at `i`.
/// Arrow panics on an index past the end, and leaves open what an absent slot
/// gives.
#[verifier::external_body]
pub(crate) fn handle_u16_at(h: &ArrayHandle, i: usize) -> (x: u16)
    requires
        handle_type(*h) == ArrayType::UInt16Array,
        i < handle_cells(*h).len(),
    ensures
        !(handle_cells(*h)[i as int] is Null) ==> handle_cells(*h)[i as int] == ScalarView::UInt16(x),
{
    h.inner.as_any().downcast_ref::<UInt16Array>().unwrap().value(i)
}

/// `From<Vec<u32>>` of `UInt32Array`: an array of these values, every slot valid.
#[verifier::external_body]
pub(crate) fn handle_from_u32(values: Vec<u32>) -> (h: ArrayHandle)
    ensures
        handle_type(h) == ArrayType::UInt32Array,
        handle_cells(h) == cells_of(values@, |x: u32| ScalarView::UInt32(x)),
{
    ArrayHandle { inner: Arc::new(UInt32Array::from(values)) }
}

/// `PrimitiveArray::value` on a `UInt32Array`: the value of the slot at `i`.
/// Arrow panics on an index past the end, and leaves open what an absent slot
/// gives.
#[verifier::external_body]
pub(crate) fn handle_u32_at(h: &ArrayHandle, i: usize) -> (x: u32)
    requires
        handle_type(*h) == ArrayType::UInt32Array,
        i < handle_cells(*h).len(),
    ensures
        !(handle_cells(*h)[i as int] is Null) ==> handle_cells(*h)[i as int] == ScalarView::UInt32(x),
{
    h.inner.as_any().downcast_ref::<UInt32Array>().unwrap().value(i)
}

/// `From<Vec<u64>>` of `UInt64Array`: an array of these values, every slot valid.
#[verifier::external_body]
pub(crate) fn handle_from_u64(values: Vec<u64>) -> (h: ArrayHandle)
    ensures
        handle_type(h) == ArrayType::UInt64Array,
        handle_cells(h) == cells_of(values@, |x: u64| ScalarView::UInt64(x)),
{
    ArrayHandle { inner: Arc::new(UInt64Array::from(values)) }
}

/// `PrimitiveArray::value` on a `UInt64Array`: the value of the slot at `i`.
/// Arrow panics on an index past the end, and leaves open what an absent slot
/// gives.
#[verifier::external_body]
pub(crate) fn handle_u64_at(h: &ArrayHandle, i: usize) -> (x: u64)
    requires
        handle_type(*h) == ArrayType::UInt64Array,
        i < handle_cells(*h).len(),
    ensures
        !(handle_cells(*h)[i as int] is Null) ==> handle_cells(*h)[i as int] == ScalarView::UInt64(x),
{
    h.inner.as_any().downcast_ref::<UInt64Array>().unwrap().value(i)
}

/// `From<Vec<i8>>` of `Int8Array`: an array of these values, every slot valid.
#[verifier::external_body]
pub(crate) fn handle_from_i8(values: Vec<i8>) -> (h: ArrayHandle)
    ensures
        handle_type(h) == ArrayType::Int8Array,
        handle_cells(h) == cells_of(values@, |x: i8| ScalarView::Int8(x)),
{
    ArrayHandle { inner: Arc::new(Int8Array::from(values)) }
}

/// `PrimitiveArray::value` on a `Int8Array`: the value of the slot at `i`.
/// Arrow panics on an index past the end, and leaves open what an absent slot
/// gives.
#[verifier::external_body]
pub(crate) fn handle_i8_at(h: &ArrayHandle, i: usize) -> (x: i8)
    requires
        handle_type(*h) == ArrayType::Int8Array,
        i < handle_cells(*h).len(),
    ensures
        !(handle_cells(*h)[i as int] is Null) ==> handle_cells(*h)[i as int] == ScalarView::Int8(x),
{
    h.inner.as_any().downcast_ref::<Int8Array>().unwrap().value(i)
}

/// `From<Vec<i16>>` of `Int16Array`: an array of these values, every slot valid.
#[verifier::external_body]
pub(crate) fn handle_from_i16(values: Vec<i16>) -> (h: ArrayHandle)
    ensures
        handle_type(h) == ArrayType::Int16Array,
        handle_cells(h) == cells_of(values@, |x: i16| ScalarView::Int16(x)),
{
    ArrayHandle { inner: Arc::new(Int16Array::from(values)) }
}

/// `PrimitiveArray::value` on a `Int16Array`: the value of the slot at `i`.
/// Arrow panics on an index past the end, and leaves open what an absent slot
/// gives.
#[verifier::external_body]
pub(crate) fn handle_i16_at(h: &ArrayHandle, i: usize) -> (x: i16)
    requires
        handle_type(*h) == ArrayType::Int16Array,
        i < handle_cells(*h).len(),
    ensures
        !(handle_cells(*h)[i as int] is Null) ==> handle_cells(*h)[i as int] == ScalarView::Int16(x),
{
    h.inner.as_any().downcast_ref::<Int16Array>().unwrap().value(i)
}

/// `From<Vec<i32>>` of `Int32Array`: an array of these values, every slot valid.
#[verifier::external_body]
pub(crate) fn handle_from_i32(values: Vec<i32>) -> (h: ArrayHandle)
    ensures
        handle_type(h) == ArrayType::Int32Array,
        handle_cells(h) == cells_of(values@, |x: i32| ScalarView::Int32(x)),
{
    ArrayHandle { inner: Arc::new(Int32Array::from(values)) }
}

/// `PrimitiveArray::value` on a `Int32Array`: the value of the slot at `i`.
/// Arrow panics on an index past the end, and leaves open what an absent slot
/// gives.
#[verifier::external_body]
pub(crate) fn handle_i32_at(h: &ArrayHandle, i: usize) -> (x: i32)
    requires
        handle_type(*h) == ArrayType::Int32Array,
        i < handle_cells(*h).len(),
    ensures
        !(handle_cells(*h)[i as int] is Null) ==> handle_cells(*h)[i as int] == ScalarView::Int32(x),
{
    h.inner.as_any().downcast_ref::<Int32Array>().unwrap().value(i)
}

/// `From<Vec<i64>>` of `Int64Array`: an array of these values, every slot valid.
#[verifier::external_body]
pub(crate) fn handle_from_i64(values: Vec<i64>) -> (h: ArrayHandle)
    ensures
        handle_type(h) == ArrayType::Int64Array,
        handle_cells(h) == cells_of(values@, |x: i64| ScalarView::Int64(x)),
{
    ArrayHandle { inner: Arc::new(Int64Array::from(values)) }
}

/// `PrimitiveArray::value` on a `Int64Array`: the value of the slot at `i`.
/// Arrow panics on an index past the end, and leaves open what an absent slot
/// gives.
#[verifier::external_body]
pub(crate) fn handle_i64_at(h: &ArrayHandle, i: usize) -> (x: i64)
    requires
        handle_type(*h) == ArrayType::Int64Array,
        i < handle_cells(*h).len(),
    ensures
        !(handle_cells(*h)[i as int] is Null) ==> handle_cells(*h)[i as int] == ScalarView::Int64(x),
{
    h.inner.as_any().downcast_ref::<Int64Array>().unwrap().value(i)
}

/// `PrimitiveArray::from_iter_values` of `Float32Array`, on the floats that
/// `from_bits` gives: an array of the floats with these bit patterns, every
/// slot valid.
#[verifier::external_body]
pub(crate) fn handle_from_float32_bits(bits: Vec<u32>) -> (h: ArrayHandle)
    ensures
        handle_type(h) == ArrayType::Float32Array,
        handle_cells(h) == cells_of(bits@, |x: u32| ScalarView::Float32(x)),
{
    let floats = bits.into_iter().map(<Float32Type as ArrowPrimitiveType>::Native::from_bits);
    ArrayHandle { inner: Arc::new(Float32Array::from_iter_values(floats)) }
}

/// `PrimitiveArray::value` on a `Float32Array`, then `to_bits`: the bit pattern of
/// the float in the slot at `i`. Arrow panics on an index past the end, and
/// leaves open what an absent slot gives.
#[verifier::external_body]
pub(crate) fn handle_float32_bits_at(h: &ArrayHandle, i: usize) -> (x: u32)
    requires
        handle_type(*h) == ArrayType::Float32Array,
        i < handle_cells(*h).len(),
    ensures
        !(handle_cells(*h)[i as int] is Null) ==> handle_cells(*h)[i as int] == ScalarView::Float32(x),
{
    h.inner.as_any().downcast_ref::<Float32Array>().unwrap().value(i).to_bits()
}

/// `PrimitiveArray::from_iter_values` of `Float64Array`, on the floats that
/// `from_bits` gives: an array of the floats with these bit patterns, every
/// slot valid.
#[verifier::external_body]
pub(crate) fn handle_from_float64_bits(bits: Vec<u64>) -> (h: ArrayHandle)
    ensures
        handle_type(h) == ArrayType::Float64Array,
        handle_cells(h) == cells_of(bits@, |x: u64| ScalarView::Float64(x)),
{
    let floats = bits.into_iter().map(<Float64Type as ArrowPrimitiveType>::Native::from_bits);
    ArrayHandle { inner: Arc::new(Float64Array::from_iter_values(floats)) }
}

/// `PrimitiveArray::value` on a `Float64Array`, then `to_bits`: the bit pattern of
/// the float in the slot at `i`. Arrow panics on an index past the end, and
/// leaves open what an absent slot gives.
#[verifier::external_body]
pub(crate) fn handle_float64_bits_at(h: &ArrayHandle, i: usize) -> (x: u64)
    requires
        handle_type(*h) == ArrayType::Float64Array,
        i < handle_cells(*h).len(),
    ensures
        !(handle_cells(*h)[i as int] is Null) ==> handle_cells(*h)[i as int] == ScalarView::Float64(x),
{
    h.inner.as_any().downcast_ref::<Float64Array>().unwrap().value(i).to_bits()
}

/// `From<Vec<String>>` of `StringArray`: an array of these texts, every slot
/// valid. Arrow panics where the texts together take more bytes than the
/// largest offset.
#[verifier::external_body]
pub(crate) fn handle_from_strings(texts: Vec<String>) -> (h: ArrayHandle)
    requires
        text_bytes(texts@) <= MAX_TEXT_BYTES,
    ensures
        handle_type(h) == ArrayType::StringArray,
        handle_cells(h) == cells_of(texts@, |s: String| ScalarView::Utf8(s@)),
{
    ArrayHandle { inner: Arc::new(StringArray::from(texts)) }
}

/// `GenericByteArray::value` on a `StringArray`, copied into a `String`: the
/// text of the slot at `i`. Arrow panics on an index past the end, and leaves
/// open what an absent slot gives.
#[verifier::external_body]
pub(crate) fn handle_string_at(h: &ArrayHandle, i: usize) -> (s: String)
    requires
        handle_type(*h) == ArrayType::StringArray,
        i < handle_cells(*h).len(),
    ensures
        !(handle_cells(*h)[i as int] is Null) ==> handle_cells(*h)[i as int] == ScalarView::Utf8(s@),
{
    h.inner.as_any().downcast_ref::<StringArray>().unwrap().value(i).to_string()
}

} // verus!
