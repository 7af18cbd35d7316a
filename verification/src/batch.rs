//! The checks that every invocation of an operator makes on its batch before
//! it reads a single row.

use vstd::prelude::*;
use crate::column::Column;
use crate::error::ExecutionError;
use crate::handle::null_cells;
use crate::search::first_true;
use crate::search::lemma_first_true_found;
use crate::search::lemma_first_true_none;
use crate::types::array_type_of;
use crate::types::scalar_type_of;
use crate::types::ScalarType;

verus! {

/// For each position, whether the column there is of another kind than the
/// one that holds the parameter's elements.
pub open spec fn type_faults(types: Seq<ScalarType>, batch: Seq<Column>) -> Seq<bool> {
    Seq::new(batch.len(), |i: int| batch[i].spec_array_type() != array_type_of(types[i]))
}

/// For each position, whether the column there has another number of rows
/// than the first column.
pub open spec fn length_faults(batch: Seq<Column>) -> Seq<bool> {
    Seq::new(batch.len(), |i: int| batch[i]@.len() != batch[0]@.len())
}

/// For each position, whether the column there holds an absent cell.
pub open spec fn null_faults(batch: Seq<Column>) -> Seq<bool> {
    Seq::new(batch.len(), |i: int| null_cells(batch[i]@) > 0)
}

/// Why a batch cannot be run through an operator whose parameters are of the
/// kinds `types`, if so. In this order: another number of columns than
/// parameters; the first column of the wrong kind; the first column with
/// another number of rows than the first one; the first column that holds an
/// absent cell.
pub open spec fn batch_fault(types: Seq<ScalarType>, batch: Seq<Column>) -> Option<ExecutionError> {
    let n = batch.len();
    if n != types.len() {
        Some(ExecutionError::Arity { expected_count: types.len() as usize, found_count: n as usize })
    } else {
        match first_true(type_faults(types, batch), n) {
            Some(p) => Some(
                ExecutionError::TypeMismatch {
                    position: p as usize,
                    expected: types[p as int],
                    actual: scalar_type_of(batch[p as int].spec_array_type()),
                },
            ),
            None => match first_true(length_faults(batch), n) {
                Some(p) => Some(
                    ExecutionError::LengthMismatch {
                        position: p as usize,
                        expected_len: batch[0]@.len() as usize,
                        found_len: batch[p as int]@.len() as usize,
                    },
                ),
                None => match first_true(null_faults(batch), n) {
                    Some(p) => Some(ExecutionError::NullValue { position: p as usize }),
                    None => None,
                },
            },
        }
    }
}

/// A batch without fault has one column for each parameter, each of the
/// parameter's kind, all of one length and without an absent cell.
pub proof fn lemma_batch_without_fault(types: Seq<ScalarType>, batch: Seq<Column>)
    requires
        batch_fault(types, batch) is None,
    ensures
        batch.len() == types.len(),
        forall|i: int|
            0 <= i < batch.len() ==> (#[trigger] batch[i]).spec_array_type() == array_type_of(
                types[i],
            ),
        forall|i: int| 0 <= i < batch.len() ==> (#[trigger] batch[i])@.len() == batch[0]@.len(),
        forall|i: int| 0 <= i < batch.len() ==> null_cells((#[trigger] batch[i])@) == 0,
{
    let n = batch.len();
    crate::search::lemma_first_true(type_faults(types, batch), n);
    crate::search::lemma_first_true(length_faults(batch), n);
    crate::search::lemma_first_true(null_faults(batch), n);
    assert forall|i: int| 0 <= i < batch.len() implies (#[trigger] batch[i]).spec_array_type()
        == array_type_of(types[i]) by {
        assert(!type_faults(types, batch)[i]);
    }
    assert forall|i: int| 0 <= i < batch.len() implies (#[trigger] batch[i])@.len()
        == batch[0]@.len() by {
        assert(!length_faults(batch)[i]);
    }
    assert forall|i: int| 0 <= i < batch.len() implies null_cells((#[trigger] batch[i])@) == 0 by {
        assert(!null_faults(batch)[i]);
    }
}

/// A batch of one column for each parameter, each of the parameter's kind, all
/// of one length and without an absent cell, has no fault.
pub proof fn lemma_sound_batch(types: Seq<ScalarType>, batch: Seq<Column>)
    requires
        batch.len() == types.len(),
        forall|i: int|
            0 <= i < batch.len() ==> (#[trigger] batch[i]).spec_array_type() == array_type_of(
                types[i],
            ),
        forall|i: int| 0 <= i < batch.len() ==> (#[trigger] batch[i])@.len() == batch[0]@.len(),
        forall|i: int| 0 <= i < batch.len() ==> null_cells((#[trigger] batch[i])@) == 0,
    ensures
        batch_fault(types, batch) is None,
{
    let n = batch.len();
    lemma_first_true_none(type_faults(types, batch), n);
    lemma_first_true_none(length_faults(batch), n);
    lemma_first_true_none(null_faults(batch), n);
}

/// Checks a batch against the parameter kinds of an operator, and gives the
/// number of rows that every column of it has.
pub fn validate_batch(types: &Vec<ScalarType>, batch: &[Column]) -> (r: Result<usize, ExecutionError>)
    requires
        types@.len() >= 1,
    ensures
        match batch_fault(types@, batch@) {
            Some(e) => r == Err::<usize, ExecutionError>(e),
            None => r is Ok && r->Ok_0 == batch@[0]@.len(),
        },
{
    let n = batch.len();
    if n != types.len() {
        return Err(ExecutionError::Arity { expected_count: types.len(), found_count: n });
    }
    let mut i: usize = 0;
    while i < n
        invariant
            n == batch@.len(),
            n == types@.len(),
            i <= n,
            forall|k: int| 0 <= k < i ==> !type_faults(types@, batch@)[k],
        decreases n - i,
    {
        let actual = batch[i].array_type();
        if actual != types[i].to_array_type() {
            proof {
                lemma_first_true_found(type_faults(types@, batch@), i as nat, n as nat);
            }
            return Err(
                ExecutionError::TypeMismatch {
                    position: i,
                    expected: types[i],
                    actual: actual.to_scalar_type(),
                },
            );
        }
        i += 1;
    }
    proof {
        lemma_first_true_none(type_faults(types@, batch@), n as nat);
    }
    let rows = batch[0].len();
    let mut i: usize = 0;
    while i < n
        invariant
            n == batch@.len(),
            n == types@.len(),
            rows == batch@[0]@.len(),
            i <= n,
            first_true(type_faults(types@, batch@), n as nat) is None,
            forall|k: int| 0 <= k < i ==> !length_faults(batch@)[k],
        decreases n - i,
    {
        let found = batch[i].len();
        if found != rows {
            proof {
                lemma_first_true_found(length_faults(batch@), i as nat, n as nat);
            }
            return Err(
                ExecutionError::LengthMismatch { position: i, expected_len: rows, found_len: found },
            );
        }
        i += 1;
    }
    proof {
        lemma_first_true_none(length_faults(batch@), n as nat);
    }
    let mut i: usize = 0;
    while i < n
        invariant
            n == batch@.len(),
            n == types@.len(),
            i <= n,
            first_true(type_faults(types@, batch@), n as nat) is None,
            first_true(length_faults(batch@), n as nat) is None,
            forall|k: int| 0 <= k < i ==> !null_faults(batch@)[k],
        decreases n - i,
    {
        if batch[i].null_count() > 0 {
            proof {
                lemma_first_true_found(null_faults(batch@), i as nat, n as nat);
            }
            return Err(ExecutionError::NullValue { position: i });
        }
        i += 1;
    }
    proof {
        lemma_first_true_none(null_faults(batch@), n as nat);
    }
    Ok(rows)
}

} // verus!
