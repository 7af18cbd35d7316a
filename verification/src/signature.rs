//! Signature descriptors, and their extraction from the declared signature of
//! a candidate scalar function.

use vstd::prelude::*;
use crate::error::ConfigurationError;
use crate::search::first_true;
use crate::search::lemma_first_true;
use crate::search::lemma_first_true_found;
use crate::search::lemma_first_true_none;
use crate::types::scalar_type_named;
use crate::types::ScalarType;

verus! {

/// A type as a function signature declares it.
pub enum DeclaredType {
    /// A path of one identifier, such as `u32`.
    Ident(String),
    /// Any other type: a longer path, a reference, a tuple and so on.
    Other,
}

/// The pattern that binds a parameter.
pub enum DeclaredPattern {
    /// A plain name.
    Ident(String),
    /// Any other pattern.
    Other,
}

/// One parameter of a declared function.
pub enum DeclaredParam {
    /// The receiver of a method.
    Receiver,
    /// A parameter with a pattern and a type.
    Typed { pattern: DeclaredPattern, ty: DeclaredType },
}

/// The signature of a candidate scalar function as its source declares it.
pub struct DeclaredSignature {
    pub name: String,
    pub inputs: Vec<DeclaredParam>,
    pub output: Option<DeclaredType>,
}

/// The element kind that a declared type stands for, if any.
pub open spec fn declared_scalar(ty: DeclaredType) -> Option<ScalarType> {
    match ty {
        DeclaredType::Ident(name) => scalar_type_named(name@),
        DeclaredType::Other => None,
    }
}

/// The name and element kind of a declared parameter, where it is a plain
/// name bound to a supported scalar type.
pub open spec fn declared_param(p: DeclaredParam) -> Option<(Seq<char>, ScalarType)> {
    match p {
        DeclaredParam::Typed { pattern: DeclaredPattern::Ident(name), ty } => match declared_scalar(
            ty,
        ) {
            Some(t) => Some((name@, t)),
            None => None,
        },
        _ => None,
    }
}

/// For each position, whether the parameter there is anything but a plain
/// name bound to a supported scalar type.
pub open spec fn unsupported_params(inputs: Seq<DeclaredParam>) -> Seq<bool> {
    Seq::new(inputs.len(), |i: int| declared_param(inputs[i]) is None)
}

/// For each position, whether an earlier position holds the same name.
pub open spec fn repeated_names(names: Seq<Seq<char>>) -> Seq<bool> {
    Seq::new(names.len(), |i: int| names.take(i).contains(names[i]))
}

/// Whether no two positions hold the same name.
pub open spec fn names_distinct(names: Seq<Seq<char>>) -> bool {
    forall|i: int, j: int| 0 <= i < j < names.len() ==> names[i] != names[j]
}

/// What is wrong with a list of parameter names, if anything: it is empty, or
/// a name occurs twice. The position is that of the first name that an earlier
/// position holds too.
pub open spec fn descriptor_fault(names: Seq<Seq<char>>) -> Option<ConfigurationError> {
    if names.len() == 0 {
        Some(ConfigurationError::NoParameters)
    } else {
        match first_true(repeated_names(names), names.len()) {
            Some(p) => Some(ConfigurationError::DuplicateParameterName { position: p as usize }),
            None => None,
        }
    }
}

/// No position repeats an earlier name exactly where the names are distinct.
pub proof fn lemma_no_repeated_name(names: Seq<Seq<char>>)
    ensures
        first_true(repeated_names(names), names.len()) is None <==> names_distinct(names),
{
    let flags = repeated_names(names);
    lemma_first_true(flags, names.len());
    if first_true(flags, names.len()) is None {
        assert forall|i: int, j: int| 0 <= i < j < names.len() implies names[i] != names[j] by {
            assert(!flags[j]);
            assert(names.take(j)[i] == names[i]);
        }
    } else {
        let p = first_true(flags, names.len())->0 as int;
        let i = choose|i: int| 0 <= i < names.take(p).len() && names.take(p)[i] == names[p];
        assert(names[i] == names[p]);
    }
}

/// One parameter of a signature descriptor.
pub struct Parameter {
    pub name: String,
    pub ty: ScalarType,
}

/// The names of the parameters, in order.
pub open spec fn parameter_names(params: Seq<Parameter>) -> Seq<Seq<char>> {
    Seq::new(params.len(), |i: int| params[i].name@)
}

/// The element kinds of the parameters, in order.
pub open spec fn parameter_types(params: Seq<Parameter>) -> Seq<ScalarType> {
    Seq::new(params.len(), |i: int| params[i].ty)
}

/// What a scalar function takes and returns: its parameters in positional
/// order, at least one and no two of one name, and the kind of its result.
pub struct SignatureDescriptor {
    params: Vec<Parameter>,
    ret: ScalarType,
}

impl SignatureDescriptor {
    #[verifier::type_invariant]
    spec fn well_formed(self) -> bool {
        &&& self.params@.len() >= 1
        &&& names_distinct(parameter_names(self.params@))
    }

    /// The parameter names, in positional order.
    pub closed spec fn spec_names(&self) -> Seq<Seq<char>> {
        parameter_names(self.params@)
    }

    /// The parameter kinds, in positional order.
    pub closed spec fn spec_types(&self) -> Seq<ScalarType> {
        parameter_types(self.params@)
    }

    /// The kind of the result.
    pub closed spec fn spec_return_type(&self) -> ScalarType {
        self.ret
    }

    /// A descriptor of the given parameters and return kind. Fails with
    /// `NoParameters` on an empty list, else with `DuplicateParameterName` at
    /// the first position that repeats an earlier name.
    pub fn new(params: Vec<Parameter>, ret: ScalarType) -> (r: Result<
        SignatureDescriptor,
        ConfigurationError,
    >)
        ensures
            match descriptor_fault(parameter_names(params@)) {
                Some(e) => r == Err::<SignatureDescriptor, ConfigurationError>(e),
                None => r is Ok && r->Ok_0.spec_names() == parameter_names(params@)
                    && r->Ok_0.spec_types() == parameter_types(params@)
                    && r->Ok_0.spec_return_type() == ret,
            },
    {
        let n = params.len();
        if n == 0 {
            return Err(ConfigurationError::NoParameters);
        }
        let ghost names = parameter_names(params@);
        let ghost flags = repeated_names(names);
        let mut i: usize = 0;
        while i < n
            invariant
                n == params@.len(),
                names == parameter_names(params@),
                flags == repeated_names(names),
                i <= n,
                forall|k: int| 0 <= k < i ==> !flags[k],
            decreases n - i,
        {
            let mut j: usize = 0;
            while j < i
                invariant
                    n == params@.len(),
                    names == parameter_names(params@),
                    flags == repeated_names(names),
                    i < n,
                    j <= i,
                    forall|k: int| 0 <= k < i ==> !flags[k],
                    forall|k: int| 0 <= k < j ==> names[k] != names[i as int],
                decreases i - j,
            {
                if params[j].name == params[i].name {
                    proof {
                        assert(names[j as int] == names[i as int]);
                        assert(names.take(i as int)[j as int] == names[i as int]);
                        lemma_first_true_found(flags, i as nat, n as nat);
                    }
                    return Err(ConfigurationError::DuplicateParameterName { position: i });
                }
                proof {
                    assert(names[j as int] == params@[j as int].name@);
                }
                j += 1;
            }
            proof {
                let front = names.take(i as int);
                if front.contains(names[i as int]) {
                    let k = choose|k: int| 0 <= k < front.len() && front[k] == names[i as int];
                    assert(names[k] == names[i as int]);
                }
            }
            i += 1;
        }
        proof {
            lemma_first_true_none(flags, n as nat);
            lemma_no_repeated_name(names);
        }
        Ok(SignatureDescriptor { params, ret })
    }

    /// The number of parameters; at least one.
    pub fn arity(&self) -> (n: usize)
        ensures
            n == self.spec_types().len(),
            n == self.spec_names().len(),
            n >= 1,
            names_distinct(self.spec_names()),
    {
        proof {
            use_type_invariant(self);
        }
        self.params.len()
    }

    /// The kind of the parameter at `position`, if there is one.
    pub fn param_type(&self, position: usize) -> (t: Option<ScalarType>)
        ensures
            t == if position < self.spec_types().len() {
                Some(self.spec_types()[position as int])
            } else {
                None
            },
    {
        if position < self.params.len() {
            Some(self.params[position].ty)
        } else {
            None
        }
    }

    /// The name of the parameter at `position`, if there is one.
    pub fn param_name(&self, position: usize) -> (name: Option<&str>)
        ensures
            name is Some <==> position < self.spec_names().len(),
            name is Some ==> name->0@ == self.spec_names()[position as int],
    {
        if position < self.params.len() {
            Some(self.params[position].name.as_str())
        } else {
            None
        }
    }

    /// The kind of the result.
    pub fn return_type(&self) -> (t: ScalarType)
        ensures
            t == self.spec_return_type(),
    {
        self.ret
    }
}

/// The name that a declared parameter binds, where it is a plain name bound
/// to a supported scalar type.
pub open spec fn declared_name(p: DeclaredParam) -> Seq<char> {
    match declared_param(p) {
        Some((name, _)) => name,
        None => Seq::empty(),
    }
}

/// The element kind of a declared parameter, where it is a plain name bound to
/// a supported scalar type.
pub open spec fn declared_kind(p: DeclaredParam) -> ScalarType {
    match declared_param(p) {
        Some((_, t)) => t,
        None => ScalarType::UInt8,
    }
}

/// The names that the declared parameters bind, in order.
pub open spec fn declared_names(inputs: Seq<DeclaredParam>) -> Seq<Seq<char>> {
    Seq::new(inputs.len(), |i: int| declared_name(inputs[i]))
}

/// The element kinds of the declared parameters, in order.
pub open spec fn declared_types(inputs: Seq<DeclaredParam>) -> Seq<ScalarType> {
    Seq::new(inputs.len(), |i: int| declared_kind(inputs[i]))
}

/// Why no descriptor can be extracted from a declared signature, if so. In
/// this order: the first parameter that is not a plain name bound to a
/// supported scalar type; a missing or unsupported return type; no parameter
/// at all; the first parameter that repeats an earlier name.
pub open spec fn extraction_fault(decl: DeclaredSignature) -> Option<ConfigurationError> {
    match first_true(unsupported_params(decl.inputs@), decl.inputs@.len()) {
        Some(p) => Some(ConfigurationError::UnsupportedParameterType { position: p as usize }),
        None => match decl.output {
            None => Some(ConfigurationError::MissingReturnType),
            Some(ty) => if declared_scalar(ty) is None {
                Some(ConfigurationError::UnsupportedReturnType)
            } else {
                descriptor_fault(declared_names(decl.inputs@))
            },
        },
    }
}

/// The element kind that a declared type stands for, if any.
fn scalar_of_declared(ty: &DeclaredType) -> (t: Option<ScalarType>)
    ensures
        t == declared_scalar(*ty),
{
    match ty {
        DeclaredType::Ident(name) => ScalarType::from_name(name.as_str()),
        DeclaredType::Other => None,
    }
}

/// The descriptor of a declared function. The parameters keep their
/// left-to-right order, which becomes the order of the argument arrays.
pub fn extract(decl: &DeclaredSignature) -> (r: Result<SignatureDescriptor, ConfigurationError>)
    ensures
        match extraction_fault(*decl) {
            Some(e) => r == Err::<SignatureDescriptor, ConfigurationError>(e),
            None => r is Ok && r->Ok_0.spec_names() == declared_names(decl.inputs@)
                && r->Ok_0.spec_types() == declared_types(decl.inputs@)
                && Some(r->Ok_0.spec_return_type()) == declared_scalar(decl.output->0),
        },
{
    let n = decl.inputs.len();
    let mut params: Vec<Parameter> = Vec::with_capacity(n);
    let mut i: usize = 0;
    while i < n
        invariant
            n == decl.inputs@.len(),
            i <= n,
            forall|k: int| 0 <= k < i ==> !unsupported_params(decl.inputs@)[k],
            params@.len() == i,
            forall|k: int|
                0 <= k < i ==> declared_param(decl.inputs@[k]) == Some(
                    ((#[trigger] params@[k]).name@, params@[k].ty),
                ),
        decreases n - i,
    {
        match &decl.inputs[i] {
            DeclaredParam::Typed { pattern: DeclaredPattern::Ident(name), ty } => {
                match scalar_of_declared(ty) {
                    Some(t) => {
                        params.push(Parameter { name: name.clone(), ty: t });
                    },
                    None => {
                        proof {
                            lemma_first_true_found(unsupported_params(decl.inputs@), i as nat, n as nat);
                        }
                        return Err(ConfigurationError::UnsupportedParameterType { position: i });
                    },
                }
            },
            _ => {
                proof {
                    lemma_first_true_found(unsupported_params(decl.inputs@), i as nat, n as nat);
                }
                return Err(ConfigurationError::UnsupportedParameterType { position: i });
            },
        }
        i += 1;
    }
    proof {
        lemma_first_true_none(unsupported_params(decl.inputs@), n as nat);
    }
    let ret = match &decl.output {
        None => {
            return Err(ConfigurationError::MissingReturnType);
        },
        Some(ty) => match scalar_of_declared(ty) {
            None => {
                return Err(ConfigurationError::UnsupportedReturnType);
            },
            Some(t) => t,
        },
    };
    assert(parameter_names(params@) =~= declared_names(decl.inputs@));
    assert(parameter_types(params@) =~= declared_types(decl.inputs@));
    SignatureDescriptor::new(params, ret)
}

} // verus!
