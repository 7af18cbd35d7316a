//! What it means for a tagged value to be a result of a native function on
//! tagged arguments.

use vstd::prelude::*;
use crate::types::ScalarType;
use crate::value::NativeScalar;
use crate::value::ScalarView;

verus! {

/// The kinds of the parameters of a native function of one parameter,
/// in positional order.
pub open spec fn unary_types<A: NativeScalar>() -> Seq<ScalarType> {
    seq![A::scalar_type()]
}

/// Whether `y` tags a result that `f` may give on native values that
/// `x0` tags.
pub open spec fn unary_row<A: NativeScalar, R: NativeScalar, F: Fn(A) -> R>(f: F, x0: ScalarView, y: ScalarView) -> bool {
    exists|a: A, o: R|
        a.tagged() == x0 && call_ensures(f, (a,), o) && o.tagged() == y
}

/// The kinds of the parameters of a native function of two parameters,
/// in positional order.
pub open spec fn binary_types<A: NativeScalar, B: NativeScalar>() -> Seq<ScalarType> {
    seq![A::scalar_type(), B::scalar_type()]
}

/// Whether `y` tags a result that `f` may give on native values that
/// `x0`, `x1` tag.
pub open spec fn binary_row<A: NativeScalar, B: NativeScalar, R: NativeScalar, F: Fn(A, B) -> R>(f: F, x0: ScalarView, x1: ScalarView, y: ScalarView) -> bool {
    exists|a: A, b: B, o: R|
        a.tagged() == x0 && b.tagged() == x1 && call_ensures(f, (a, b), o) && o.tagged() == y
}

/// The kinds of the parameters of a native function of three parameters,
/// in positional order.
pub open spec fn ternary_types<A: NativeScalar, B: NativeScalar, C: NativeScalar>() -> Seq<ScalarType> {
    seq![A::scalar_type(), B::scalar_type(), C::scalar_type()]
}

/// Whether `y` tags a result that `f` may give on native values that
/// `x0`, `x1`, `x2` tag.
pub open spec fn ternary_row<A: NativeScalar, B: NativeScalar, C: NativeScalar, R: NativeScalar, F: Fn(A, B, C) -> R>(f: F, x0: ScalarView, x1: ScalarView, x2: ScalarView, y: ScalarView) -> bool {
    exists|a: A, b: B, c: C, o: R|
        a.tagged() == x0 && b.tagged() == x1 && c.tagged() == x2 && call_ensures(f, (a, b, c), o) && o.tagged() == y
}

} // verus!
