//! Native functions bound to a uniform call interface: a list of tagged
//! values in, one tagged value out.
//!
//! Arguments are consumed strictly from the left, one for each parameter. Too
//! few arguments are an error; arguments beyond the last parameter are never
//! looked at.

use vstd::prelude::*;
use core::marker::PhantomData;
use crate::error::ExecutionError;
use crate::search::first_true;
use crate::search::lemma_first_true_found;
use crate::search::lemma_first_true_none;
use crate::types::ScalarType;
use crate::value::conversion_error;
use crate::value::NativeScalar;
use crate::value::ScalarView;
use crate::value::TaggedScalarValue;

verus! {

/// The tagged forms of the arguments, in order.
pub open spec fn argument_views(args: Seq<TaggedScalarValue>) -> Seq<ScalarView> {
    Seq::new(args.len(), |i: int| args[i]@)
}

/// For each parameter, whether binding it fails: no argument is left for it,
/// or the argument does not convert to the parameter's kind.
pub open spec fn binding_faults(types: Seq<ScalarType>, args: Seq<ScalarView>) -> Seq<bool> {
    Seq::new(
        types.len(),
        |p: int| p >= args.len() || conversion_error(args[p], types[p], p as usize) is Some,
    )
}

/// Why the arguments cannot be bound to parameters of the kinds `types`, if
/// so: the failure at the first parameter, from the left, whose binding fails.
/// That is an arity error where the arguments have run out, else the error of
/// the conversion.
pub open spec fn binding_fault(types: Seq<ScalarType>, args: Seq<ScalarView>) -> Option<ExecutionError> {
    match first_true(binding_faults(types, args), types.len()) {
        Some(p) => if p >= args.len() {
            Some(
                ExecutionError::Arity {
                    expected_count: types.len() as usize,
                    found_count: args.len() as usize,
                },
            )
        } else {
            conversion_error(args[p as int], types[p as int], p as usize)
        },
        None => None,
    }
}

/// Arguments that carry, one for each parameter, the tag of the parameter's
/// kind can be bound.
pub proof fn lemma_well_typed_arguments_bind(types: Seq<ScalarType>, args: Seq<ScalarView>)
    requires
        args.len() >= types.len(),
        forall|p: int| 0 <= p < types.len() ==> (#[trigger] args[p]).scalar_type() == Some(types[p]),
    ensures
        binding_fault(types, args) is None,
{
    lemma_first_true_none(binding_faults(types, args), types.len());
}

/// Fewer arguments than parameters, each with the tag of its parameter's
/// kind, give an arity error.
pub proof fn lemma_too_few_arguments(types: Seq<ScalarType>, args: Seq<ScalarView>)
    requires
        args.len() < types.len(),
        forall|p: int| 0 <= p < args.len() ==> (#[trigger] args[p]).scalar_type() == Some(types[p]),
    ensures
        binding_fault(types, args) == Some(
            ExecutionError::Arity {
                expected_count: types.len() as usize,
                found_count: args.len() as usize,
            },
        ),
{
    lemma_first_true_found(binding_faults(types, args), args.len(), types.len());
}

/// Arguments after the last parameter make no difference to the binding.
pub proof fn lemma_extra_arguments_ignored(types: Seq<ScalarType>, args: Seq<ScalarView>, more: Seq<ScalarView>)
    requires
        args.len() >= types.len(),
    ensures
        binding_fault(types, args + more) == binding_fault(types, args),
{
    let n = types.len();
    assert(binding_faults(types, args + more) =~= binding_faults(types, args)) by {
        assert forall|p: int| 0 <= p < n implies (args + more)[p] == args[p] by {}
    }
    crate::search::lemma_first_true(binding_faults(types, args), n);
    match first_true(binding_faults(types, args), n) {
        Some(p) => {
            assert((args + more)[p as int] == args[p as int]);
        },
        None => {},
    }
}

/// A native function of one parameter behind the uniform call interface.
/// It holds no state that a call changes.
#[verifier::reject_recursive_types(A)]
#[verifier::reject_recursive_types(R)]
#[verifier::reject_recursive_types(F)]
pub struct BoundUnary<A: NativeScalar, R: NativeScalar, F: Fn(A) -> R> {
    f: F,
    marker: PhantomData<(A, R)>,
}

impl<A: NativeScalar, R: NativeScalar, F: Fn(A) -> R> BoundUnary<A, R, F> {
    #[verifier::type_invariant]
    spec fn well_formed(self) -> bool {
        forall|a: A| call_requires(self.f, (a,))
    }

    /// The bound native function.
    pub closed spec fn spec_function(&self) -> F {
        self.f
    }

    /// Binds `f`. The function has to accept every value of its parameter
    /// types.
    pub fn bind(f: F) -> (bound: Self)
        requires
            forall|a: A| call_requires(f, (a,)),
        ensures
            bound.spec_function() == f,
    {
        BoundUnary { f, marker: PhantomData }
    }

    /// The number of parameters.
    pub fn arity(&self) -> (n: usize)
        ensures
            n == 1,
    {
        1
    }

    /// Calls the function on the first one argument, converted to its
    /// parameter types, and tags the result.
    pub fn call(&self, args: &[TaggedScalarValue]) -> (r: Result<TaggedScalarValue, ExecutionError>)
        ensures
            match binding_fault(crate::apply::unary_types::<A>(), argument_views(args@)) {
                Some(e) => r == Err::<TaggedScalarValue, ExecutionError>(e),
                None => r is Ok && crate::apply::unary_row::<A, R, F>(
                    self.spec_function(),
                    args@[0]@,
                    r->Ok_0@,
                ),
            },
    {
        proof {
            use_type_invariant(self);
        }
        let ghost types = crate::apply::unary_types::<A>();
        let ghost views = argument_views(args@);
        let ghost faults = binding_faults(types, views);
        let found = args.len();
        if found <= 0 {
            proof {
                lemma_first_true_found(faults, 0, 1);
            }
            return Err(ExecutionError::Arity { expected_count: 1, found_count: found });
        }
        let a = match A::convert(&args[0], 0) {
            Err(e) => {
                proof {
                    lemma_first_true_found(faults, 0, 1);
                }
                return Err(e);
            },
            Ok(a) => a,
        };
        assert(!faults[0]);
        proof {
            lemma_first_true_none(faults, 1);
        }
        let o = (self.f)(a);
        let v = o.wrap();
        assert(crate::apply::unary_row::<A, R, F>(self.f, args@[0]@, v@)) by {
            assert(a.tagged() == args@[0]@ && call_ensures(self.f, (a,), o)
                && o.tagged() == v@);
        }
        Ok(v)
    }
}

/// A native function of two parameters behind the uniform call interface.
/// It holds no state that a call changes.
#[verifier::reject_recursive_types(A)]
#[verifier::reject_recursive_types(B)]
#[verifier::reject_recursive_types(R)]
#[verifier::reject_recursive_types(F)]
pub struct BoundBinary<A: NativeScalar, B: NativeScalar, R: NativeScalar, F: Fn(A, B) -> R> {
    f: F,
    marker: PhantomData<(A, B, R)>,
}

impl<A: NativeScalar, B: NativeScalar, R: NativeScalar, F: Fn(A, B) -> R> BoundBinary<A, B, R, F> {
    #[verifier::type_invariant]
    spec fn well_formed(self) -> bool {
        forall|a: A, b: B| call_requires(self.f, (a, b))
    }

    /// The bound native function.
    pub closed spec fn spec_function(&self) -> F {
        self.f
    }

    /// Binds `f`. The function has to accept every value of its parameter
    /// types.
    pub fn bind(f: F) -> (bound: Self)
        requires
            forall|a: A, b: B| call_requires(f, (a, b)),
        ensures
            bound.spec_function() == f,
    {
        BoundBinary { f, marker: PhantomData }
    }

    /// The number of parameters.
    pub fn arity(&self) -> (n: usize)
        ensures
            n == 2,
    {
        2
    }

    /// Calls the function on the first two arguments, converted to its
    /// parameter types, and tags the result.
    pub fn call(&self, args: &[TaggedScalarValue]) -> (r: Result<TaggedScalarValue, ExecutionError>)
        ensures
            match binding_fault(crate::apply::binary_types::<A, B>(), argument_views(args@)) {
                Some(e) => r == Err::<TaggedScalarValue, ExecutionError>(e),
                None => r is Ok && crate::apply::binary_row::<A, B, R, F>(
                    self.spec_function(),
                    args@[0]@, args@[1]@,
                    r->Ok_0@,
                ),
            },
    {
        proof {
            use_type_invariant(self);
        }
        let ghost types = crate::apply::binary_types::<A, B>();
        let ghost views = argument_views(args@);
        let ghost faults = binding_faults(types, views);
        let found = args.len();
        if found <= 0 {
            proof {
                lemma_first_true_found(faults, 0, 2);
            }
            return Err(ExecutionError::Arity { expected_count: 2, found_count: found });
        }
        let a = match A::convert(&args[0], 0) {
            Err(e) => {
                proof {
                    lemma_first_true_found(faults, 0, 2);
                }
                return Err(e);
            },
            Ok(a) => a,
        };
        assert(!faults[0]);
        if found <= 1 {
            proof {
                lemma_first_true_found(faults, 1, 2);
            }
            return Err(ExecutionError::Arity { expected_count: 2, found_count: found });
        }
        let b = match B::convert(&args[1], 1) {
            Err(e) => {
                proof {
                    lemma_first_true_found(faults, 1, 2);
                }
                return Err(e);
            },
            Ok(b) => b,
        };
        assert(!faults[1]);
        proof {
            lemma_first_true_none(faults, 2);
        }
        let o = (self.f)(a, b);
        let v = o.wrap();
        assert(crate::apply::binary_row::<A, B, R, F>(self.f, args@[0]@, args@[1]@, v@)) by {
            assert(a.tagged() == args@[0]@ && b.tagged() == args@[1]@ && call_ensures(self.f, (a, b), o)
                && o.tagged() == v@);
        }
        Ok(v)
    }
}

/// A native function of three parameters behind the uniform call interface.
/// It holds no state that a call changes.
#[verifier::reject_recursive_types(A)]
#[verifier::reject_recursive_types(B)]
#[verifier::reject_recursive_types(C)]
#[verifier::reject_recursive_types(R)]
#[verifier::reject_recursive_types(F)]
pub struct BoundTernary<A: NativeScalar, B: NativeScalar, C: NativeScalar, R: NativeScalar, F: Fn(A, B, C) -> R> {
    f: F,
    marker: PhantomData<(A, B, C, R)>,
}

impl<A: NativeScalar, B: NativeScalar, C: NativeScalar, R: NativeScalar, F: Fn(A, B, C) -> R> BoundTernary<A, B, C, R, F> {
    #[verifier::type_invariant]
    spec fn well_formed(self) -> bool {
        forall|a: A, b: B, c: C| call_requires(self.f, (a, b, c))
    }

    /// The bound native function.
    pub closed spec fn spec_function(&self) -> F {
        self.f
    }

    /// Binds `f`. The function has to accept every value of its parameter
    /// types.
    pub fn bind(f: F) -> (bound: Self)
        requires
            forall|a: A, b: B, c: C| call_requires(f, (a, b, c)),
        ensures
            bound.spec_function() == f,
    {
        BoundTernary { f, marker: PhantomData }
    }

    /// The number of parameters.
    pub fn arity(&self) -> (n: usize)
        ensures
            n == 3,
    {
        3
    }

    /// Calls the function on the first three arguments, converted to its
    /// parameter types, and tags the result.
    pub fn call(&self, args: &[TaggedScalarValue]) -> (r: Result<TaggedScalarValue, ExecutionError>)
        ensures
            match binding_fault(crate::apply::ternary_types::<A, B, C>(), argument_views(args@)) {
                Some(e) => r == Err::<TaggedScalarValue, ExecutionError>(e),
                None => r is Ok && crate::apply::ternary_row::<A, B, C, R, F>(
                    self.spec_function(),
                    args@[0]@, args@[1]@, args@[2]@,
                    r->Ok_0@,
                ),
            },
    {
        proof {
            use_type_invariant(self);
        }
        let ghost types = crate::apply::ternary_types::<A, B, C>();
        let ghost views = argument_views(args@);
        let ghost faults = binding_faults(types, views);
        let found = args.len();
        if found <= 0 {
            proof {
                lemma_first_true_found(faults, 0, 3);
            }
            return Err(ExecutionError::Arity { expected_count: 3, found_count: found });
        }
        let a = match A::convert(&args[0], 0) {
            Err(e) => {
                proof {
                    lemma_first_true_found(faults, 0, 3);
                }
                return Err(e);
            },
            Ok(a) => a,
        };
        assert(!faults[0]);
        if found <= 1 {
            proof {
                lemma_first_true_found(faults, 1, 3);
            }
            return Err(ExecutionError::Arity { expected_count: 3, found_count: found });
        }
        let b = match B::convert(&args[1], 1) {
            Err(e) => {
                proof {
                    lemma_first_true_found(faults, 1, 3);
                }
                return Err(e);
            },
            Ok(b) => b,
        };
        assert(!faults[1]);
        if found <= 2 {
            proof {
                lemma_first_true_found(faults, 2, 3);
            }
            return Err(ExecutionError::Arity { expected_count: 3, found_count: found });
        }
        let c = match C::convert(&args[2], 2) {
            Err(e) => {
                proof {
                    lemma_first_true_found(faults, 2, 3);
                }
                return Err(e);
            },
            Ok(c) => c,
        };
        assert(!faults[2]);
        proof {
            lemma_first_true_none(faults, 3);
        }
        let o = (self.f)(a, b, c);
        let v = o.wrap();
        assert(crate::apply::ternary_row::<A, B, C, R, F>(self.f, args@[0]@, args@[1]@, args@[2]@, v@)) by {
            assert(a.tagged() == args@[0]@ && b.tagged() == args@[1]@ && c.tagged() == args@[2]@ && call_ensures(self.f, (a, b, c), o)
                && o.tagged() == v@);
        }
        Ok(v)
    }
}

} // verus!
