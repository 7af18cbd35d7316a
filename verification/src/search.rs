//! The first position at which a condition holds.

use vstd::prelude::*;

verus! {

/// The first position before `upto` at which `flags` holds `true`.
pub open spec fn first_true(flags: Seq<bool>, upto: nat) -> Option<nat>
    decreases upto,
{
    if upto == 0 {
        None
    } else {
        match first_true(flags, (upto - 1) as nat) {
            Some(p) => Some(p),
            None => if flags[upto - 1] {
                Some((upto - 1) as nat)
            } else {
                None
            },
        }
    }
}

/// What `first_true` finds is a position before `upto` that holds `true` with
/// none before it, and it finds nothing only where none holds `true`.
pub proof fn lemma_first_true(flags: Seq<bool>, upto: nat)
    ensures
        match first_true(flags, upto) {
            Some(p) => p < upto && flags[p as int] && forall|k: int| 0 <= k < p ==> !flags[k],
            None => forall|k: int| 0 <= k < upto ==> !flags[k],
        },
    decreases upto,
{
    if upto > 0 {
        lemma_first_true(flags, (upto - 1) as nat);
    }
}

/// A position that holds `true` with none before it is what `first_true`
/// finds, however far the search goes on.
pub proof fn lemma_first_true_found(flags: Seq<bool>, p: nat, upto: nat)
    requires
        forall|k: int| 0 <= k < p ==> !flags[k],
        flags[p as int],
        p < upto,
    ensures
        first_true(flags, upto) == Some(p),
    decreases upto,
{
    lemma_first_true(flags, p);
    if upto > p + 1 {
        lemma_first_true_found(flags, p, (upto - 1) as nat);
    }
}

/// Where no position before `upto` holds `true`, `first_true` finds nothing.
pub proof fn lemma_first_true_none(flags: Seq<bool>, upto: nat)
    requires
        forall|k: int| 0 <= k < upto ==> !flags[k],
    ensures
        first_true(flags, upto) is None,
    decreases upto,
{
    if upto > 0 {
        lemma_first_true_none(flags, (upto - 1) as nat);
    }
}

} // verus!
