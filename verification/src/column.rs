//! Columns: array handles tagged with the kind of array behind them, and the
//! native element types that can be read from and packed into them.

use vstd::prelude::*;
use arrow::array::ArrayData;
use crate::handle::data_cells;
use crate::handle::data_type_of;
use crate::handle::handle_cells;
use crate::handle::handle_type;
use crate::handle::null_cells;
use crate::handle::text_bytes;
use crate::handle::ArrayHandle;
use crate::handle::MAX_TEXT_BYTES;
use crate::types::array_type_of;
use crate::types::ArrayType;
use crate::value::Float32Bits;
use crate::value::Float64Bits;
use crate::value::NativeScalar;
use crate::value::ScalarView;
use crate::value::TaggedScalarValue;

verus! {

/// One array of a batch: a handle to the array, tagged with its kind.
pub struct Column {
    kind: ArrayType,
    handle: ArrayHandle,
}

impl View for Column {
    type V = Seq<ScalarView>;

    /// The cells of the column, in row order; `Null` for an absent cell.
    closed spec fn view(&self) -> Seq<ScalarView> {
        handle_cells(self.handle)
    }
}

/// The cells that tag the values, in order.
pub open spec fn tagged_cells<T: NativeScalar>(values: Seq<T>) -> Seq<ScalarView> {
    Seq::new(values.len(), |i: int| values[i].tagged())
}

/// No cell is absent exactly where the count of absent cells is zero.
pub proof fn lemma_null_cells_zero(cells: Seq<ScalarView>)
    ensures
        null_cells(cells) == 0 <==> forall|i: int| 0 <= i < cells.len() ==> !(#[trigger] cells[i] is Null),
    decreases cells.len(),
{
    reveal(Seq::filter);
    let pred = |c: ScalarView| c is Null;
    if cells.len() > 0 {
        let front = cells.drop_last();
        lemma_null_cells_zero(front);
        assert(forall|i: int| 0 <= i < front.len() ==> front[i] == cells[i]);
        if null_cells(cells) == 0 {
            assert(!pred(cells.last()));
            assert(front.filter(pred) == cells.filter(pred));
            assert forall|i: int| 0 <= i < cells.len() implies !(#[trigger] cells[i] is Null) by {
                if i < front.len() {
                    assert(front[i] == cells[i]);
                }
            }
        }
        if forall|i: int| 0 <= i < cells.len() ==> !(#[trigger] cells[i] is Null) {
            assert(!(cells[cells.len() - 1] is Null));
            assert forall|i: int| 0 <= i < front.len() implies !(#[trigger] front[i] is Null) by {
                assert(front[i] == cells[i]);
            }
        }
    }
}

impl Column {
    #[verifier::type_invariant]
    spec fn well_formed(self) -> bool {
        handle_type(self.handle) == self.kind
    }

    /// The kind of array behind the column.
    pub closed spec fn spec_array_type(&self) -> ArrayType {
        self.kind
    }

    /// The kind of array behind the column.
    pub fn array_type(&self) -> (kind: ArrayType)
        ensures
            kind == self.spec_array_type(),
    {
        self.kind
    }

    /// The number of rows.
    pub fn len(&self) -> (n: usize)
        ensures
            n == self@.len(),
    {
        crate::handle::handle_len(&self.handle)
    }

    /// The number of absent cells.
    pub fn null_count(&self) -> (n: usize)
        ensures
            n == null_cells(self@),
            n == 0 <==> forall|i: int| 0 <= i < self@.len() ==> !(#[trigger] self@[i] is Null),
    {
        proof {
            lemma_null_cells_zero(self@);
        }
        crate::handle::handle_null_count(&self.handle)
    }

    /// A column of `values`, none absent; `None` where the values do not fit
    /// into one array (texts of more than `MAX_TEXT_BYTES` bytes together).
    pub fn from_values<T: ColumnElement>(values: Vec<T>) -> (r: Option<Column>)
        ensures
            r is Some <==> T::fits(values@),
            r is Some ==> r->0.spec_array_type() == array_type_of(T::scalar_type()),
            r is Some ==> r->0@ == tagged_cells(values@),
    {
        T::pack(values)
    }

    /// The column of the array that `data` describes; `None` where the array
    /// is of a kind outside `ArrayType`. The array is shared, not copied.
    pub fn from_data(data: ArrayData) -> (r: Option<Column>)
        ensures
            r is Some <==> data_type_of(data) is Some,
            r is Some ==> Some(r->0.spec_array_type()) == data_type_of(data),
            r is Some ==> r->0@ == data_cells(data),
    {
        match crate::handle::data_array_type(&data) {
            Some(kind) => Some(Column { kind, handle: crate::handle::handle_from_data(data) }),
            None => None,
        }
    }

    /// Arrow's description of the array behind the column. The array is
    /// shared, not copied.
    pub fn to_data(&self) -> (data: ArrayData)
        ensures
            data_type_of(data) == Some(self.spec_array_type()),
            data_cells(data) == self@,
    {
        proof {
            use_type_invariant(self);
        }
        crate::handle::handle_to_data(&self.handle)
    }

    /// The same column with the cell of row `i` made absent wherever
    /// `absent[i]` holds; `None` where `absent` has another length than the
    /// column.
    pub fn with_nulls(&self, absent: Vec<bool>) -> (r: Option<Column>)
        ensures
            r is Some <==> absent@.len() == self@.len(),
            r is Some ==> r->0.spec_array_type() == self.spec_array_type(),
            r is Some ==> r->0@ == Seq::new(
                absent@.len(),
                |i: int| if absent@[i] { ScalarView::Null } else { self@[i] },
            ),
    {
        proof {
            use_type_invariant(self);
        }
        match crate::handle::handle_nullif(&self.handle, absent) {
            Some(handle) => Some(Column { kind: self.kind, handle }),
            None => None,
        }
    }

    /// The cell of row `i` as a tagged value: `Null` for an absent cell, and
    /// `None` past the last row.
    pub fn get(&self, i: usize) -> (r: Option<TaggedScalarValue>)
        ensures
            r is Some <==> i < self@.len(),
            r is Some ==> r->0@ == self@[i as int],
    {
        proof {
            use_type_invariant(self);
        }
        if i >= self.len() {
            return None;
        }
        if crate::handle::handle_is_null(&self.handle, i) {
            return Some(TaggedScalarValue::Null);
        }
        let h = &self.handle;
        Some(
            match self.kind {
                ArrayType::UInt8Array => TaggedScalarValue::UInt8(crate::handle::handle_u8_at(h, i)),
                ArrayType::UInt16Array => TaggedScalarValue::UInt16(crate::handle::handle_u16_at(h, i)),
                ArrayType::UInt32Array => TaggedScalarValue::UInt32(crate::handle::handle_u32_at(h, i)),
                ArrayType::UInt64Array => TaggedScalarValue::UInt64(crate::handle::handle_u64_at(h, i)),
                ArrayType::Int8Array => TaggedScalarValue::Int8(crate::handle::handle_i8_at(h, i)),
                ArrayType::Int16Array => TaggedScalarValue::Int16(crate::handle::handle_i16_at(h, i)),
                ArrayType::Int32Array => TaggedScalarValue::Int32(crate::handle::handle_i32_at(h, i)),
                ArrayType::Int64Array => TaggedScalarValue::Int64(crate::handle::handle_i64_at(h, i)),
                ArrayType::Float32Array => TaggedScalarValue::Float32(
                    crate::handle::handle_float32_bits_at(h, i),
                ),
                ArrayType::Float64Array => TaggedScalarValue::Float64(
                    crate::handle::handle_float64_bits_at(h, i),
                ),
                ArrayType::StringArray => TaggedScalarValue::Utf8(
                    crate::handle::handle_string_at(h, i),
                ),
            },
        )
    }
}

/// A native type whose values an array holds.
pub trait ColumnElement: NativeScalar {
    /// Whether one array can hold the values.
    spec fn fits(values: Seq<Self>) -> bool;

    /// The value in row `i` of a column of this element kind. Of an absent
    /// cell nothing is known.
    fn read(col: &Column, i: usize) -> (v: Self)
        requires
            col.spec_array_type() == array_type_of(Self::scalar_type()),
            i < col@.len(),
        ensures
            !(col@[i as int] is Null) ==> v.tagged() == col@[i as int],
    ;

    /// A column of `values`, none absent; `None` where they do not fit.
    fn pack(values: Vec<Self>) -> (r: Option<Column>)
        ensures
            r is Some <==> Self::fits(values@),
            r is Some ==> r->0.spec_array_type() == array_type_of(Self::scalar_type()),
            r is Some ==> r->0@ == tagged_cells(values@),
    ;
}

impl ColumnElement for u8 {
    open spec fn fits(values: Seq<Self>) -> bool {
        true
    }

    fn read(col: &Column, i: usize) -> (v: Self) {
        proof {
            use_type_invariant(col);
        }
        crate::handle::handle_u8_at(&col.handle, i)
    }

    fn pack(values: Vec<Self>) -> (r: Option<Column>) {
        let handle = crate::handle::handle_from_u8(values);
        let col = Column { kind: ArrayType::UInt8Array, handle };
        assert(col@ =~= tagged_cells(values@));
        Some(col)
    }
}

impl ColumnElement for u16 {
    open spec fn fits(values: Seq<Self>) -> bool {
        true
    }

    fn read(col: &Column, i: usize) -> (v: Self) {
        proof {
            use_type_invariant(col);
        }
        crate::handle::handle_u16_at(&col.handle, i)
    }

    fn pack(values: Vec<Self>) -> (r: Option<Column>) {
        let handle = crate::handle::handle_from_u16(values);
        let col = Column { kind: ArrayType::UInt16Array, handle };
        assert(col@ =~= tagged_cells(values@));
        Some(col)
    }
}

impl ColumnElement for u32 {
    open spec fn fits(values: Seq<Self>) -> bool {
        true
    }

    fn read(col: &Column, i: usize) -> (v: Self) {
        proof {
            use_type_invariant(col);
        }
        crate::handle::handle_u32_at(&col.handle, i)
    }

    fn pack(values: Vec<Self>) -> (r: Option<Column>) {
        let handle = crate::handle::handle_from_u32(values);
        let col = Column { kind: ArrayType::UInt32Array, handle };
        assert(col@ =~= tagged_cells(values@));
        Some(col)
    }
}

impl ColumnElement for u64 {
    open spec fn fits(values: Seq<Self>) -> bool {
        true
    }

    fn read(col: &Column, i: usize) -> (v: Self) {
        proof {
            use_type_invariant(col);
        }
        crate::handle::handle_u64_at(&col.handle, i)
    }

    fn pack(values: Vec<Self>) -> (r: Option<Column>) {
        let handle = crate::handle::handle_from_u64(values);
        let col = Column { kind: ArrayType::UInt64Array, handle };
        assert(col@ =~= tagged_cells(values@));
        Some(col)
    }
}

impl ColumnElement for i8 {
    open spec fn fits(values: Seq<Self>) -> bool {
        true
    }

    fn read(col: &Column, i: usize) -> (v: Self) {
        proof {
            use_type_invariant(col);
        }
        crate::handle::handle_i8_at(&col.handle, i)
    }

    fn pack(values: Vec<Self>) -> (r: Option<Column>) {
        let handle = crate::handle::handle_from_i8(values);
        let col = Column { kind: ArrayType::Int8Array, handle };
        assert(col@ =~= tagged_cells(values@));
        Some(col)
    }
}

impl ColumnElement for i16 {
    open spec fn fits(values: Seq<Self>) -> bool {
        true
    }

    fn read(col: &Column, i: usize) -> (v: Self) {
        proof {
            use_type_invariant(col);
        }
        crate::handle::handle_i16_at(&col.handle, i)
    }

    fn pack(values: Vec<Self>) -> (r: Option<Column>) {
        let handle = crate::handle::handle_from_i16(values);
        let col = Column { kind: ArrayType::Int16Array, handle };
        assert(col@ =~= tagged_cells(values@));
        Some(col)
    }
}

impl ColumnElement for i32 {
    open spec fn fits(values: Seq<Self>) -> bool {
        true
    }

    fn read(col: &Column, i: usize) -> (v: Self) {
        proof {
            use_type_invariant(col);
        }
        crate::handle::handle_i32_at(&col.handle, i)
    }

    fn pack(values: Vec<Self>) -> (r: Option<Column>) {
        let handle = crate::handle::handle_from_i32(values);
        let col = Column { kind: ArrayType::Int32Array, handle };
        assert(col@ =~= tagged_cells(values@));
        Some(col)
    }
}

impl ColumnElement for i64 {
    open spec fn fits(values: Seq<Self>) -> bool {
        true
    }

    fn read(col: &Column, i: usize) -> (v: Self) {
        proof {
            use_type_invariant(col);
        }
        crate::handle::handle_i64_at(&col.handle, i)
    }

    fn pack(values: Vec<Self>) -> (r: Option<Column>) {
        let handle = crate::handle::handle_from_i64(values);
        let col = Column { kind: ArrayType::Int64Array, handle };
        assert(col@ =~= tagged_cells(values@));
        Some(col)
    }
}

impl ColumnElement for Float32Bits {
    open spec fn fits(values: Seq<Self>) -> bool {
        true
    }

    fn read(col: &Column, i: usize) -> (v: Self) {
        proof {
            use_type_invariant(col);
        }
        Float32Bits(crate::handle::handle_float32_bits_at(&col.handle, i))
    }

    fn pack(values: Vec<Self>) -> (r: Option<Column>) {
        let mut bits: Vec<u32> = Vec::with_capacity(values.len());
        let mut i: usize = 0;
        while i < values.len()
            invariant
                i <= values@.len(),
                bits@.len() == i,
                forall|k: int| 0 <= k < i ==> bits@[k] == values@[k].0,
            decreases values@.len() - i,
        {
            bits.push(values[i].0);
            i += 1;
        }
        let handle = crate::handle::handle_from_float32_bits(bits);
        let col = Column { kind: ArrayType::Float32Array, handle };
        assert(col@ =~= tagged_cells(values@));
        Some(col)
    }
}

impl ColumnElement for Float64Bits {
    open spec fn fits(values: Seq<Self>) -> bool {
        true
    }

    fn read(col: &Column, i: usize) -> (v: Self) {
        proof {
            use_type_invariant(col);
        }
        Float64Bits(crate::handle::handle_float64_bits_at(&col.handle, i))
    }

    fn pack(values: Vec<Self>) -> (r: Option<Column>) {
        let mut bits: Vec<u64> = Vec::with_capacity(values.len());
        let mut i: usize = 0;
        while i < values.len()
            invariant
                i <= values@.len(),
                bits@.len() == i,
                forall|k: int| 0 <= k < i ==> bits@[k] == values@[k].0,
            decreases values@.len() - i,
        {
            bits.push(values[i].0);
            i += 1;
        }
        let handle = crate::handle::handle_from_float64_bits(bits);
        let col = Column { kind: ArrayType::Float64Array, handle };
        assert(col@ =~= tagged_cells(values@));
        Some(col)
    }
}

/// The texts before row `n` take no more bytes than all of them.
pub proof fn lemma_text_bytes_prefix(texts: Seq<String>, n: int)
    requires
        0 <= n <= texts.len(),
    ensures
        text_bytes(texts.take(n)) <= text_bytes(texts),
    decreases texts.len() - n,
{
    if n < texts.len() {
        lemma_text_bytes_prefix(texts, n + 1);
        assert(texts.take(n + 1).drop_last() == texts.take(n));
    } else {
        assert(texts.take(n) == texts);
    }
}

impl ColumnElement for String {
    open spec fn fits(values: Seq<Self>) -> bool {
        text_bytes(values) <= MAX_TEXT_BYTES
    }

    fn read(col: &Column, i: usize) -> (v: Self) {
        proof {
            use_type_invariant(col);
        }
        crate::handle::handle_string_at(&col.handle, i)
    }

    fn pack(values: Vec<Self>) -> (r: Option<Column>) {
        let mut total: usize = 0;
        let mut i: usize = 0;
        while i < values.len()
            invariant
                i <= values@.len(),
                total == text_bytes(values@.take(i as int)),
                total <= MAX_TEXT_BYTES,
            decreases values@.len() - i,
        {
            let n = values[i].as_str().as_bytes().len();
            proof {
                let next = values@.take(i + 1);
                assert(next.drop_last() == values@.take(i as int));
                assert(next.last() == values@[i as int]);
                assert(n == vstd::utf8::encode_utf8(values@[i as int]@).len());
                assert(text_bytes(next) == total + n);
                lemma_text_bytes_prefix(values@, i + 1);
            }
            if n > MAX_TEXT_BYTES - total {
                return None;
            }
            total = total + n;
            i += 1;
        }
        assert(values@.take(i as int) == values@);
        let handle = crate::handle::handle_from_strings(values);
        let col = Column { kind: ArrayType::StringArray, handle };
        assert(col@ =~= tagged_cells(values@));
        Some(col)
    }
}

} // verus!
