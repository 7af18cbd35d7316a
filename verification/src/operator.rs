//! Operators over columns: a scalar function together with its signature
//! descriptor, applied once to every row of a batch.
//!
//! Absent cells are not propagated: a batch that holds one is refused before
//! any row is read.

use vstd::prelude::*;
use core::marker::PhantomData;
use crate::batch::batch_fault;
use crate::batch::lemma_batch_without_fault;
use crate::batch::validate_batch;
use crate::column::lemma_null_cells_zero;
use crate::column::tagged_cells;
use crate::column::Column;
use crate::column::ColumnElement;
use crate::error::ConfigurationError;
use crate::error::ExecutionError;
use crate::search::first_true;
use crate::search::lemma_first_true_found;
use crate::search::lemma_first_true_none;
use crate::signature::extract;
use crate::signature::extraction_fault;
use crate::signature::DeclaredSignature;
use crate::signature::SignatureDescriptor;
use crate::types::array_type_of;
use crate::types::ScalarType;
use crate::value::ScalarView;

verus! {

/// For each position, whether the descriptor declares another kind there than
/// the function takes.
pub open spec fn kind_faults(declared: Seq<ScalarType>, native: Seq<ScalarType>) -> Seq<bool> {
    Seq::new(native.len(), |i: int| declared[i] != native[i])
}

/// Why a function that takes `native` and returns `native_ret` cannot be
/// registered under a descriptor that declares `declared` and `declared_ret`,
/// if so. In this order: another number of parameters; the first parameter of
/// another kind; another kind of result.
pub open spec fn registration_fault(
    declared: Seq<ScalarType>,
    declared_ret: ScalarType,
    native: Seq<ScalarType>,
    native_ret: ScalarType,
) -> Option<ConfigurationError> {
    if declared.len() != native.len() {
        Some(
            ConfigurationError::ArityMismatch {
                expected_count: native.len() as usize,
                found_count: declared.len() as usize,
            },
        )
    } else {
        match first_true(kind_faults(declared, native), native.len()) {
            Some(p) => Some(
                ConfigurationError::ParameterTypeMismatch {
                    position: p as usize,
                    expected: native[p as int],
                    found: declared[p as int],
                },
            ),
            None => if declared_ret != native_ret {
                Some(
                    ConfigurationError::ReturnTypeMismatch {
                        expected: native_ret,
                        found: declared_ret,
                    },
                )
            } else {
                None
            },
        }
    }
}

/// Holds a descriptor against the kinds that a function takes and returns.
pub fn check_registration(
    sig: &SignatureDescriptor,
    native: &Vec<ScalarType>,
    native_ret: ScalarType,
) -> (r: Result<(), ConfigurationError>)
    ensures
        match registration_fault(sig.spec_types(), sig.spec_return_type(), native@, native_ret) {
            Some(e) => r == Err::<(), ConfigurationError>(e),
            None => r is Ok && sig.spec_types() == native@,
        },
{
    let n = native.len();
    let declared_count = sig.arity();
    if declared_count != n {
        return Err(ConfigurationError::ArityMismatch { expected_count: n, found_count: declared_count });
    }
    let ghost faults = kind_faults(sig.spec_types(), native@);
    let mut i: usize = 0;
    while i < n
        invariant
            n == native@.len(),
            n == sig.spec_types().len(),
            faults == kind_faults(sig.spec_types(), native@),
            i <= n,
            forall|k: int| 0 <= k < i ==> !faults[k],
        decreases n - i,
    {
        match sig.param_type(i) {
            Some(found) => {
                if found != native[i] {
                    proof {
                        lemma_first_true_found(faults, i as nat, n as nat);
                    }
                    return Err(
                        ConfigurationError::ParameterTypeMismatch {
                            position: i,
                            expected: native[i],
                            found,
                        },
                    );
                }
            },
            None => {},
        }
        i += 1;
    }
    proof {
        lemma_first_true_none(faults, n as nat);
        assert forall|k: int| 0 <= k < n implies sig.spec_types()[k] == native@[k] by {
            assert(!faults[k]);
        }
        assert(sig.spec_types() =~= native@);
    }
    let declared_ret = sig.return_type();
    if declared_ret != native_ret {
        return Err(ConfigurationError::ReturnTypeMismatch { expected: native_ret, found: declared_ret });
    }
    Ok(())
}

/// The name under which the operator derived from the function `name` goes.
pub fn udf_name(name: &str) -> (derived: String)
    ensures
        derived@ == name@ + "_udf"@,
{
    String::from_str(name).concat("_udf")
}

/// What came of packing the row results `outs` into a column: the column of
/// them, or `OutputTooLarge` where one array cannot hold them.
pub open spec fn is_packed<R: ColumnElement>(outs: Seq<R>, r: Result<Column, ExecutionError>) -> bool {
    if R::fits(outs) {
        r is Ok && r->Ok_0.spec_array_type() == array_type_of(R::scalar_type()) && r->Ok_0@
            == tagged_cells(outs)
    } else {
        r == Err::<Column, ExecutionError>(ExecutionError::OutputTooLarge)
    }
}

/// Whether `outs` are results that `f` may give row by row on the native
/// values `ins`, and these are what the cells of the columns tag.
pub open spec fn unary_run<A: ColumnElement, R: ColumnElement, F: Fn(A) -> R>(f: F, col0: Seq<ScalarView>, ins0: Seq<A>, outs: Seq<R>) -> bool {
    &&& outs.len() == col0.len()
    &&& ins0.len() == col0.len()
    &&& forall|k: int|
        0 <= k < col0.len() ==> ins0[k].tagged() == col0[k] && call_ensures(
            f,
            (ins0[k],),
            #[trigger] outs[k],
        )
}

/// A scalar function of one parameter, registered under its signature
/// descriptor and ready to run over batches of one column. It holds no state
/// that a call changes.
#[verifier::reject_recursive_types(A)]
#[verifier::reject_recursive_types(R)]
#[verifier::reject_recursive_types(F)]
pub struct UnaryOperator<A: ColumnElement, R: ColumnElement, F: Fn(A) -> R> {
    sig: SignatureDescriptor,
    types: Vec<ScalarType>,
    f: F,
    marker: PhantomData<(A, R)>,
}

impl<A: ColumnElement, R: ColumnElement, F: Fn(A) -> R> UnaryOperator<A, R, F> {
    #[verifier::type_invariant]
    spec fn well_formed(self) -> bool {
        &&& self.types@ == crate::apply::unary_types::<A>()
        &&& self.sig.spec_types() == self.types@
        &&& self.sig.spec_return_type() == R::scalar_type()
        &&& forall|a: A| call_requires(self.f, (a,))
    }

    /// The wrapped scalar function.
    pub closed spec fn spec_function(&self) -> F {
        self.f
    }

    /// The descriptor under which the function is registered.
    pub closed spec fn spec_signature(&self) -> SignatureDescriptor {
        self.sig
    }

    /// Registers `f` under the descriptor `sig`. The function has to accept
    /// every value of its parameter types. Fails where the descriptor does not
    /// describe the function.
    pub fn register(sig: SignatureDescriptor, f: F) -> (r: Result<Self, ConfigurationError>)
        requires
            forall|a: A| call_requires(f, (a,)),
        ensures
            match registration_fault(
                sig.spec_types(),
                sig.spec_return_type(),
                crate::apply::unary_types::<A>(),
                R::scalar_type(),
            ) {
                Some(e) => r == Err::<Self, ConfigurationError>(e),
                None => r is Ok && r->Ok_0.spec_function() == f && r->Ok_0.spec_signature() == sig,
            },
    {
        let mut types: Vec<ScalarType> = Vec::with_capacity(1);
        types.push(A::kind());
        assert(types@ =~= crate::apply::unary_types::<A>());
        match check_registration(&sig, &types, R::kind()) {
            Err(e) => Err(e),
            Ok(()) => Ok(UnaryOperator { sig, types, f, marker: PhantomData }),
        }
    }

    /// What composing an operator from the declared function and `f` gives:
    /// the fault of the extraction, else the fault of the registration, else
    /// an operator of `f` under the extracted descriptor.
    pub open spec fn is_composed(decl: DeclaredSignature, f: F, r: Result<Self, ConfigurationError>) -> bool {
        match extraction_fault(decl) {
            Some(e) => r == Err::<Self, ConfigurationError>(e),
            None => match registration_fault(
                crate::signature::declared_types(decl.inputs@),
                crate::signature::declared_scalar(decl.output->0)->0,
                crate::apply::unary_types::<A>(),
                R::scalar_type(),
            ) {
                Some(e) => r == Err::<Self, ConfigurationError>(e),
                None => r is Ok && r->Ok_0.spec_function() == f && r->Ok_0.spec_signature().spec_names()
                    == crate::signature::declared_names(decl.inputs@),
            },
        }
    }

    /// Extracts the descriptor of the declared function and registers `f`
    /// under it.
    pub fn compose_udf(decl: &DeclaredSignature, f: F) -> (r: Result<Self, ConfigurationError>)
        requires
            forall|a: A| call_requires(f, (a,)),
        ensures
            Self::is_composed(*decl, f, r),
    {
        match extract(decl) {
            Err(e) => Err(e),
            Ok(sig) => Self::register(sig, f),
        }
    }

    /// Composes the operator of the declared function and names it after the
    /// function, with `_udf` behind the function's name.
    pub fn derive_udf(decl: &DeclaredSignature, f: F) -> (r: Result<(String, Self), ConfigurationError>)
        requires
            forall|a: A| call_requires(f, (a,)),
        ensures
            match r {
                Ok((name, op)) => name@ == decl.name@ + "_udf"@ && Self::is_composed(
                    *decl,
                    f,
                    Ok::<Self, ConfigurationError>(op),
                ),
                Err(e) => Self::is_composed(*decl, f, Err::<Self, ConfigurationError>(e)),
            },
    {
        match Self::compose_udf(decl, f) {
            Err(e) => Err(e),
            Ok(op) => Ok((udf_name(decl.name.as_str()), op)),
        }
    }

    /// The descriptor under which the function is registered.
    pub fn signature(&self) -> (sig: &SignatureDescriptor)
        ensures
            *sig == self.spec_signature(),
            sig.spec_types() == crate::apply::unary_types::<A>(),
            sig.spec_return_type() == R::scalar_type(),
    {
        proof {
            use_type_invariant(self);
        }
        &self.sig
    }

    /// Runs the function over every row of `batch` and gives the column of the
    /// results, row for row. Nothing of the batch is kept. A batch with a
    /// fault is refused before the function is called once.
    pub fn invoke(&self, batch: &[Column]) -> (r: Result<Column, ExecutionError>)
        ensures
            batch_fault(crate::apply::unary_types::<A>(), batch@) matches Some(e) ==> r == Err::<
                Column,
                ExecutionError,
            >(e),
            batch_fault(crate::apply::unary_types::<A>(), batch@) is None ==> exists|ins0: Seq<A>, outs: Seq<R>|
                #[trigger] unary_run(self.spec_function(), batch@[0]@, ins0, outs)
                    && is_packed(outs, r),
            r matches Ok(out) ==> out@.len() == batch@[0]@.len() && out.spec_array_type()
                == array_type_of(R::scalar_type()),
            r matches Ok(out) ==> forall|k: int|
                0 <= k < out@.len() ==> #[trigger] crate::apply::unary_row::<A, R, F>(
                    self.spec_function(),
                    batch@[0]@[k],
                    out@[k],
                ),
    {
        proof {
            use_type_invariant(self);
        }
        let rows = match validate_batch(&self.types, batch) {
            Err(e) => {
                return Err(e);
            },
            Ok(rows) => rows,
        };
        proof {
            lemma_batch_without_fault(crate::apply::unary_types::<A>(), batch@);
            lemma_null_cells_zero(batch@[0]@);
        }
        let c0 = &batch[0];
        let mut out: Vec<R> = Vec::with_capacity(rows);
        let ghost mut ins0: Seq<A> = Seq::empty();
        let mut i: usize = 0;
        while i < rows
            invariant
                forall|a: A| call_requires(self.f, (a,)),
                c0.spec_array_type() == array_type_of(A::scalar_type()),
                c0@.len() == rows,
                forall|k: int| 0 <= k < rows ==> !(#[trigger] c0@[k] is Null),
                ins0.len() == i,
                forall|k: int| 0 <= k < i ==> (#[trigger] ins0[k]).tagged() == c0@[k],
                i <= rows,
                out@.len() == i,
                forall|k: int| 0 <= k < i ==> call_ensures(self.f, (ins0[k],), #[trigger] out@[k]),
            decreases rows - i,
        {
            let a = A::read(c0, i);
            proof {
                ins0 = ins0.push(a);
            }
            let o = (self.f)(a);
            out.push(o);
            i += 1;
        }
        let ghost outs = out@;
        let r = match R::pack(out) {
            Some(col) => Ok(col),
            None => Err(ExecutionError::OutputTooLarge),
        };
        proof {
            assert(unary_run(self.spec_function(), batch@[0]@, ins0, outs)
                && is_packed(outs, r));
            if r is Ok {
                let col = r->Ok_0;
                assert forall|k: int| 0 <= k < col@.len() implies #[trigger] crate::apply::unary_row::<A, R, F>(
                    self.f,
                    c0@[k],
                    col@[k],
                ) by {
                    let a = ins0[k];
                    let o = outs[k];
                    assert(a.tagged() == c0@[k] && call_ensures(self.f, (a,), o)
                        && o.tagged() == col@[k]);
                }
            }
        }
        r
    }
}

/// Whether `outs` are results that `f` may give row by row on the native
/// values `ins`, and these are what the cells of the columns tag.
pub open spec fn binary_run<A: ColumnElement, B: ColumnElement, R: ColumnElement, F: Fn(A, B) -> R>(f: F, col0: Seq<ScalarView>, col1: Seq<ScalarView>, ins0: Seq<A>, ins1: Seq<B>, outs: Seq<R>) -> bool {
    &&& outs.len() == col0.len()
    &&& ins0.len() == col0.len()
    &&& ins1.len() == col0.len()
    &&& forall|k: int|
        0 <= k < col0.len() ==> ins0[k].tagged() == col0[k] && ins1[k].tagged() == col1[k] && call_ensures(
            f,
            (ins0[k], ins1[k]),
            #[trigger] outs[k],
        )
}

/// A scalar function of two parameters, registered under its signature
/// descriptor and ready to run over batches of two columns. It holds no state
/// that a call changes.
#[verifier::reject_recursive_types(A)]
#[verifier::reject_recursive_types(B)]
#[verifier::reject_recursive_types(R)]
#[verifier::reject_recursive_types(F)]
pub struct BinaryOperator<A: ColumnElement, B: ColumnElement, R: ColumnElement, F: Fn(A, B) -> R> {
    sig: SignatureDescriptor,
    types: Vec<ScalarType>,
    f: F,
    marker: PhantomData<(A, B, R)>,
}

impl<A: ColumnElement, B: ColumnElement, R: ColumnElement, F: Fn(A, B) -> R> BinaryOperator<A, B, R, F> {
    #[verifier::type_invariant]
    spec fn well_formed(self) -> bool {
        &&& self.types@ == crate::apply::binary_types::<A, B>()
        &&& self.sig.spec_types() == self.types@
        &&& self.sig.spec_return_type() == R::scalar_type()
        &&& forall|a: A, b: B| call_requires(self.f, (a, b))
    }

    /// The wrapped scalar function.
    pub closed spec fn spec_function(&self) -> F {
        self.f
    }

    /// The descriptor under which the function is registered.
    pub closed spec fn spec_signature(&self) -> SignatureDescriptor {
        self.sig
    }

    /// Registers `f` under the descriptor `sig`. The function has to accept
    /// every value of its parameter types. Fails where the descriptor does not
    /// describe the function.
    pub fn register(sig: SignatureDescriptor, f: F) -> (r: Result<Self, ConfigurationError>)
        requires
            forall|a: A, b: B| call_requires(f, (a, b)),
        ensures
            match registration_fault(
                sig.spec_types(),
                sig.spec_return_type(),
                crate::apply::binary_types::<A, B>(),
                R::scalar_type(),
            ) {
                Some(e) => r == Err::<Self, ConfigurationError>(e),
                None => r is Ok && r->Ok_0.spec_function() == f && r->Ok_0.spec_signature() == sig,
            },
    {
        let mut types: Vec<ScalarType> = Vec::with_capacity(2);
        types.push(A::kind());
        types.push(B::kind());
        assert(types@ =~= crate::apply::binary_types::<A, B>());
        match check_registration(&sig, &types, R::kind()) {
            Err(e) => Err(e),
            Ok(()) => Ok(BinaryOperator { sig, types, f, marker: PhantomData }),
        }
    }

    /// What composing an operator from the declared function and `f` gives:
    /// the fault of the extraction, else the fault of the registration, else
    /// an operator of `f` under the extracted descriptor.
    pub open spec fn is_composed(decl: DeclaredSignature, f: F, r: Result<Self, ConfigurationError>) -> bool {
        match extraction_fault(decl) {
            Some(e) => r == Err::<Self, ConfigurationError>(e),
            None => match registration_fault(
                crate::signature::declared_types(decl.inputs@),
                crate::signature::declared_scalar(decl.output->0)->0,
                crate::apply::binary_types::<A, B>(),
                R::scalar_type(),
            ) {
                Some(e) => r == Err::<Self, ConfigurationError>(e),
                None => r is Ok && r->Ok_0.spec_function() == f && r->Ok_0.spec_signature().spec_names()
                    == crate::signature::declared_names(decl.inputs@),
            },
        }
    }

    /// Extracts the descriptor of the declared function and registers `f`
    /// under it.
    pub fn compose_udf(decl: &DeclaredSignature, f: F) -> (r: Result<Self, ConfigurationError>)
        requires
            forall|a: A, b: B| call_requires(f, (a, b)),
        ensures
            Self::is_composed(*decl, f, r),
    {
        match extract(decl) {
            Err(e) => Err(e),
            Ok(sig) => Self::register(sig, f),
        }
    }

    /// Composes the operator of the declared function and names it after the
    /// function, with `_udf` behind the function's name.
    pub fn derive_udf(decl: &DeclaredSignature, f: F) -> (r: Result<(String, Self), ConfigurationError>)
        requires
            forall|a: A, b: B| call_requires(f, (a, b)),
        ensures
            match r {
                Ok((name, op)) => name@ == decl.name@ + "_udf"@ && Self::is_composed(
                    *decl,
                    f,
                    Ok::<Self, ConfigurationError>(op),
                ),
                Err(e) => Self::is_composed(*decl, f, Err::<Self, ConfigurationError>(e)),
            },
    {
        match Self::compose_udf(decl, f) {
            Err(e) => Err(e),
            Ok(op) => Ok((udf_name(decl.name.as_str()), op)),
        }
    }

    /// The descriptor under which the function is registered.
    pub fn signature(&self) -> (sig: &SignatureDescriptor)
        ensures
            *sig == self.spec_signature(),
            sig.spec_types() == crate::apply::binary_types::<A, B>(),
            sig.spec_return_type() == R::scalar_type(),
    {
        proof {
            use_type_invariant(self);
        }
        &self.sig
    }

    /// Runs the function over every row of `batch` and gives the column of the
    /// results, row for row. Nothing of the batch is kept. A batch with a
    /// fault is refused before the function is called once.
    pub fn invoke(&self, batch: &[Column]) -> (r: Result<Column, ExecutionError>)
        ensures
            batch_fault(crate::apply::binary_types::<A, B>(), batch@) matches Some(e) ==> r == Err::<
                Column,
                ExecutionError,
            >(e),
            batch_fault(crate::apply::binary_types::<A, B>(), batch@) is None ==> exists|ins0: Seq<A>, ins1: Seq<B>, outs: Seq<R>|
                #[trigger] binary_run(self.spec_function(), batch@[0]@, batch@[1]@, ins0, ins1, outs)
                    && is_packed(outs, r),
            r matches Ok(out) ==> out@.len() == batch@[0]@.len() && out.spec_array_type()
                == array_type_of(R::scalar_type()),
            r matches Ok(out) ==> forall|k: int|
                0 <= k < out@.len() ==> #[trigger] crate::apply::binary_row::<A, B, R, F>(
                    self.spec_function(),
                    batch@[0]@[k], batch@[1]@[k],
                    out@[k],
                ),
    {
        proof {
            use_type_invariant(self);
        }
        let rows = match validate_batch(&self.types, batch) {
            Err(e) => {
                return Err(e);
            },
            Ok(rows) => rows,
        };
        proof {
            lemma_batch_without_fault(crate::apply::binary_types::<A, B>(), batch@);
            lemma_null_cells_zero(batch@[0]@);
            lemma_null_cells_zero(batch@[1]@);
        }
        let c0 = &batch[0];
        let c1 = &batch[1];
        let mut out: Vec<R> = Vec::with_capacity(rows);
        let ghost mut ins0: Seq<A> = Seq::empty();
        let ghost mut ins1: Seq<B> = Seq::empty();
        let mut i: usize = 0;
        while i < rows
            invariant
                forall|a: A, b: B| call_requires(self.f, (a, b)),
                c0.spec_array_type() == array_type_of(A::scalar_type()),
                c0@.len() == rows,
                forall|k: int| 0 <= k < rows ==> !(#[trigger] c0@[k] is Null),
                ins0.len() == i,
                forall|k: int| 0 <= k < i ==> (#[trigger] ins0[k]).tagged() == c0@[k],
                c1.spec_array_type() == array_type_of(B::scalar_type()),
                c1@.len() == rows,
                forall|k: int| 0 <= k < rows ==> !(#[trigger] c1@[k] is Null),
                ins1.len() == i,
                forall|k: int| 0 <= k < i ==> (#[trigger] ins1[k]).tagged() == c1@[k],
                i <= rows,
                out@.len() == i,
                forall|k: int| 0 <= k < i ==> call_ensures(self.f, (ins0[k], ins1[k]), #[trigger] out@[k]),
            decreases rows - i,
        {
            let a = A::read(c0, i);
            let b = B::read(c1, i);
            proof {
                ins0 = ins0.push(a);
                ins1 = ins1.push(b);
            }
            let o = (self.f)(a, b);
            out.push(o);
            i += 1;
        }
        let ghost outs = out@;
        let r = match R::pack(out) {
            Some(col) => Ok(col),
            None => Err(ExecutionError::OutputTooLarge),
        };
        proof {
            assert(binary_run(self.spec_function(), batch@[0]@, batch@[1]@, ins0, ins1, outs)
                && is_packed(outs, r));
            if r is Ok {
                let col = r->Ok_0;
                assert forall|k: int| 0 <= k < col@.len() implies #[trigger] crate::apply::binary_row::<A, B, R, F>(
                    self.f,
                    c0@[k], c1@[k],
                    col@[k],
                ) by {
                    let a = ins0[k];
                    let b = ins1[k];
                    let o = outs[k];
                    assert(a.tagged() == c0@[k] && b.tagged() == c1@[k] && call_ensures(self.f, (a, b), o)
                        && o.tagged() == col@[k]);
                }
            }
        }
        r
    }
}

/// Whether `outs` are results that `f` may give row by row on the native
/// values `ins`, and these are what the cells of the columns tag.
pub open spec fn ternary_run<A: ColumnElement, B: ColumnElement, C: ColumnElement, R: ColumnElement, F: Fn(A, B, C) -> R>(f: F, col0: Seq<ScalarView>, col1: Seq<ScalarView>, col2: Seq<ScalarView>, ins0: Seq<A>, ins1: Seq<B>, ins2: Seq<C>, outs: Seq<R>) -> bool {
    &&& outs.len() == col0.len()
    &&& ins0.len() == col0.len()
    &&& ins1.len() == col0.len()
    &&& ins2.len() == col0.len()
    &&& forall|k: int|
        0 <= k < col0.len() ==> ins0[k].tagged() == col0[k] && ins1[k].tagged() == col1[k] && ins2[k].tagged() == col2[k] && call_ensures(
            f,
            (ins0[k], ins1[k], ins2[k]),
            #[trigger] outs[k],
        )
}

/// A scalar function of three parameters, registered under its signature
/// descriptor and ready to run over batches of three columns. It holds no state
/// that a call changes.
#[verifier::reject_recursive_types(A)]
#[verifier::reject_recursive_types(B)]
#[verifier::reject_recursive_types(C)]
#[verifier::reject_recursive_types(R)]
#[verifier::reject_recursive_types(F)]
pub struct TernaryOperator<A: ColumnElement, B: ColumnElement, C: ColumnElement, R: ColumnElement, F: Fn(A, B, C) -> R> {
    sig: SignatureDescriptor,
    types: Vec<ScalarType>,
    f: F,
    marker: PhantomData<(A, B, C, R)>,
}

impl<A: ColumnElement, B: ColumnElement, C: ColumnElement, R: ColumnElement, F: Fn(A, B, C) -> R> TernaryOperator<A, B, C, R, F> {
    #[verifier::type_invariant]
    spec fn well_formed(self) -> bool {
        &&& self.types@ == crate::apply::ternary_types::<A, B, C>()
        &&& self.sig.spec_types() == self.types@
        &&& self.sig.spec_return_type() == R::scalar_type()
        &&& forall|a: A, b: B, c: C| call_requires(self.f, (a, b, c))
    }

    /// The wrapped scalar function.
    pub closed spec fn spec_function(&self) -> F {
        self.f
    }

    /// The descriptor under which the function is registered.
    pub closed spec fn spec_signature(&self) -> SignatureDescriptor {
        self.sig
    }

    /// Registers `f` under the descriptor `sig`. The function has to accept
    /// every value of its parameter types. Fails where the descriptor does not
    /// describe the function.
    pub fn register(sig: SignatureDescriptor, f: F) -> (r: Result<Self, ConfigurationError>)
        requires
            forall|a: A, b: B, c: C| call_requires(f, (a, b, c)),
        ensures
            match registration_fault(
                sig.spec_types(),
                sig.spec_return_type(),
                crate::apply::ternary_types::<A, B, C>(),
                R::scalar_type(),
            ) {
                Some(e) => r == Err::<Self, ConfigurationError>(e),
                None => r is Ok && r->Ok_0.spec_function() == f && r->Ok_0.spec_signature() == sig,
            },
    {
        let mut types: Vec<ScalarType> = Vec::with_capacity(3);
        types.push(A::kind());
        types.push(B::kind());
        types.push(C::kind());
        assert(types@ =~= crate::apply::ternary_types::<A, B, C>());
        match check_registration(&sig, &types, R::kind()) {
            Err(e) => Err(e),
            Ok(()) => Ok(TernaryOperator { sig, types, f, marker: PhantomData }),
        }
    }

    /// What composing an operator from the declared function and `f` gives:
    /// the fault of the extraction, else the fault of the registration, else
    /// an operator of `f` under the extracted descriptor.
    pub open spec fn is_composed(decl: DeclaredSignature, f: F, r: Result<Self, ConfigurationError>) -> bool {
        match extraction_fault(decl) {
            Some(e) => r == Err::<Self, ConfigurationError>(e),
            None => match registration_fault(
                crate::signature::declared_types(decl.inputs@),
                crate::signature::declared_scalar(decl.output->0)->0,
                crate::apply::ternary_types::<A, B, C>(),
                R::scalar_type(),
            ) {
                Some(e) => r == Err::<Self, ConfigurationError>(e),
                None => r is Ok && r->Ok_0.spec_function() == f && r->Ok_0.spec_signature().spec_names()
                    == crate::signature::declared_names(decl.inputs@),
            },
        }
    }

    /// Extracts the descriptor of the declared function and registers `f`
    /// under it.
    pub fn compose_udf(decl: &DeclaredSignature, f: F) -> (r: Result<Self, ConfigurationError>)
        requires
            forall|a: A, b: B, c: C| call_requires(f, (a, b, c)),
        ensures
            Self::is_composed(*decl, f, r),
    {
        match extract(decl) {
            Err(e) => Err(e),
            Ok(sig) => Self::register(sig, f),
        }
    }

    /// Composes the operator of the declared function and names it after the
    /// function, with `_udf` behind the function's name.
    pub fn derive_udf(decl: &DeclaredSignature, f: F) -> (r: Result<(String, Self), ConfigurationError>)
        requires
            forall|a: A, b: B, c: C| call_requires(f, (a, b, c)),
        ensures
            match r {
                Ok((name, op)) => name@ == decl.name@ + "_udf"@ && Self::is_composed(
                    *decl,
                    f,
                    Ok::<Self, ConfigurationError>(op),
                ),
                Err(e) => Self::is_composed(*decl, f, Err::<Self, ConfigurationError>(e)),
            },
    {
        match Self::compose_udf(decl, f) {
            Err(e) => Err(e),
            Ok(op) => Ok((udf_name(decl.name.as_str()), op)),
        }
    }

    /// The descriptor under which the function is registered.
    pub fn signature(&self) -> (sig: &SignatureDescriptor)
        ensures
            *sig == self.spec_signature(),
            sig.spec_types() == crate::apply::ternary_types::<A, B, C>(),
            sig.spec_return_type() == R::scalar_type(),
    {
        proof {
            use_type_invariant(self);
        }
        &self.sig
    }

    /// Runs the function over every row of `batch` and gives the column of the
    /// results, row for row. Nothing of the batch is kept. A batch with a
    /// fault is refused before the function is called once.
    pub fn invoke(&self, batch: &[Column]) -> (r: Result<Column, ExecutionError>)
        ensures
            batch_fault(crate::apply::ternary_types::<A, B, C>(), batch@) matches Some(e) ==> r == Err::<
                Column,
                ExecutionError,
            >(e),
            batch_fault(crate::apply::ternary_types::<A, B, C>(), batch@) is None ==> exists|ins0: Seq<A>, ins1: Seq<B>, ins2: Seq<C>, outs: Seq<R>|
                #[trigger] ternary_run(self.spec_function(), batch@[0]@, batch@[1]@, batch@[2]@, ins0, ins1, ins2, outs)
                    && is_packed(outs, r),
            r matches Ok(out) ==> out@.len() == batch@[0]@.len() && out.spec_array_type()
                == array_type_of(R::scalar_type()),
            r matches Ok(out) ==> forall|k: int|
                0 <= k < out@.len() ==> #[trigger] crate::apply::ternary_row::<A, B, C, R, F>(
                    self.spec_function(),
                    batch@[0]@[k], batch@[1]@[k], batch@[2]@[k],
                    out@[k],
                ),
    {
        proof {
            use_type_invariant(self);
        }
        let rows = match validate_batch(&self.types, batch) {
            Err(e) => {
                return Err(e);
            },
            Ok(rows) => rows,
        };
        proof {
            lemma_batch_without_fault(crate::apply::ternary_types::<A, B, C>(), batch@);
            lemma_null_cells_zero(batch@[0]@);
            lemma_null_cells_zero(batch@[1]@);
            lemma_null_cells_zero(batch@[2]@);
        }
        let c0 = &batch[0];
        let c1 = &batch[1];
        let c2 = &batch[2];
        let mut out: Vec<R> = Vec::with_capacity(rows);
        let ghost mut ins0: Seq<A> = Seq::empty();
        let ghost mut ins1: Seq<B> = Seq::empty();
        let ghost mut ins2: Seq<C> = Seq::empty();
        let mut i: usize = 0;
        while i < rows
            invariant
                forall|a: A, b: B, c: C| call_requires(self.f, (a, b, c)),
                c0.spec_array_type() == array_type_of(A::scalar_type()),
                c0@.len() == rows,
                forall|k: int| 0 <= k < rows ==> !(#[trigger] c0@[k] is Null),
                ins0.len() == i,
                forall|k: int| 0 <= k < i ==> (#[trigger] ins0[k]).tagged() == c0@[k],
                c1.spec_array_type() == array_type_of(B::scalar_type()),
                c1@.len() == rows,
                forall|k: int| 0 <= k < rows ==> !(#[trigger] c1@[k] is Null),
                ins1.len() == i,
                forall|k: int| 0 <= k < i ==> (#[trigger] ins1[k]).tagged() == c1@[k],
                c2.spec_array_type() == array_type_of(C::scalar_type()),
                c2@.len() == rows,
                forall|k: int| 0 <= k < rows ==> !(#[trigger] c2@[k] is Null),
                ins2.len() == i,
                forall|k: int| 0 <= k < i ==> (#[trigger] ins2[k]).tagged() == c2@[k],
                i <= rows,
                out@.len() == i,
                forall|k: int| 0 <= k < i ==> call_ensures(self.f, (ins0[k], ins1[k], ins2[k]), #[trigger] out@[k]),
            decreases rows - i,
        {
            let a = A::read(c0, i);
            let b = B::read(c1, i);
            let c = C::read(c2, i);
            proof {
                ins0 = ins0.push(a);
                ins1 = ins1.push(b);
                ins2 = ins2.push(c);
            }
            let o = (self.f)(a, b, c);
            out.push(o);
            i += 1;
        }
        let ghost outs = out@;
        let r = match R::pack(out) {
            Some(col) => Ok(col),
            None => Err(ExecutionError::OutputTooLarge),
        };
        proof {
            assert(ternary_run(self.spec_function(), batch@[0]@, batch@[1]@, batch@[2]@, ins0, ins1, ins2, outs)
                && is_packed(outs, r));
            if r is Ok {
                let col = r->Ok_0;
                assert forall|k: int| 0 <= k < col@.len() implies #[trigger] crate::apply::ternary_row::<A, B, C, R, F>(
                    self.f,
                    c0@[k], c1@[k], c2@[k],
                    col@[k],
                ) by {
                    let a = ins0[k];
                    let b = ins1[k];
                    let c = ins2[k];
                    let o = outs[k];
                    assert(a.tagged() == c0@[k] && b.tagged() == c1@[k] && c.tagged() == c2@[k] && call_ensures(self.f, (a, b, c), o)
                        && o.tagged() == col@[k]);
                }
            }
        }
        r
    }
}

} // verus!
