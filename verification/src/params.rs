//! The named fields that a function is declared over, and the position of
//! each name among them.

use vstd::prelude::*;
use crate::types::ScalarType;

verus! {

/// One field of a schema, as far as a function's parameters need it.
pub struct Field {
    pub name: String,
    pub data_type: ScalarType,
    pub nullable: bool,
}

/// The last position before `upto` that holds `name`.
pub open spec fn last_position(names: Seq<Seq<char>>, name: Seq<char>, upto: nat) -> Option<nat>
    decreases upto,
{
    if upto == 0 {
        None
    } else if names[upto - 1] == name {
        Some((upto - 1) as nat)
    } else {
        last_position(names, name, (upto - 1) as nat)
    }
}

/// The names of the fields, in order.
pub open spec fn field_names(fields: Seq<Field>) -> Seq<Seq<char>> {
    Seq::new(fields.len(), |i: int| fields[i].name@)
}

/// What `last_position` finds holds `name`, and no later position before
/// `upto` does; it finds nothing only where no position before `upto` does.
pub proof fn lemma_last_position(names: Seq<Seq<char>>, name: Seq<char>, upto: nat)
    ensures
        match last_position(names, name, upto) {
            Some(p) => p < upto && names[p as int] == name && forall|k: int|
                p < k < upto ==> names[k] != name,
            None => forall|k: int| 0 <= k < upto ==> names[k] != name,
        },
    decreases upto,
{
    if upto > 0 && names[upto - 1] != name {
        lemma_last_position(names, name, (upto - 1) as nat);
    }
}

/// The parameters of a function: a list of fields, found by position or by
/// name. Of two fields of one name, the name finds the later one.
pub struct Params {
    inner: Vec<Field>,
}

impl View for Params {
    type V = Seq<Field>;

    closed spec fn view(&self) -> Seq<Field> {
        self.inner@
    }
}

impl Params {
    /// The parameters over the given fields, in their order.
    pub fn new(fields: Vec<Field>) -> (params: Params)
        ensures
            params@ == fields@,
    {
        Params { inner: fields }
    }

    /// The number of fields.
    pub fn len(&self) -> (n: usize)
        ensures
            n == self@.len(),
    {
        self.inner.len()
    }

    /// The field at `position`, if there is one.
    pub fn field(&self, position: usize) -> (f: Option<&Field>)
        ensures
            f is Some <==> position < self@.len(),
            f is Some ==> *f->0 == self@[position as int],
    {
        if position < self.inner.len() {
            Some(&self.inner[position])
        } else {
            None
        }
    }

    /// The position of the field called `name`: the last one of that name.
    pub fn index_of(&self, name: &str) -> (r: Option<usize>)
        ensures
            match last_position(field_names(self@), name@, self@.len()) {
                Some(p) => r == Some(p as usize),
                None => r is None,
            },
    {
        let ghost names = field_names(self@);
        let mut i: usize = self.inner.len();
        while i > 0
            invariant
                names == field_names(self@),
                i <= self@.len(),
                last_position(names, name@, self@.len()) == last_position(names, name@, i as nat),
            decreases i,
        {
            if crate::types::str_eq(self.inner[i - 1].name.as_str(), name) {
                return Some(i - 1);
            }
            i -= 1;
        }
        None
    }
}

} // verus!
