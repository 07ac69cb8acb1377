//! The structured declarations that the expansions consume.
//!
//! The concrete syntax in which interfaces are written down is parsed by an
//! off-the-shelf grammar front end outside this crate; what reaches the core
//! is the structure below: named signatures with ordered, typed parameters,
//! grouped into interface definitions and interface implementations. Types
//! are carried as opaque text, since the core never interprets them — it
//! only copies them into the declarations it emits.

use vstd::prelude::*;

use crate::expr::Expr;

verus! {

/// The pattern binding one function argument. Only plain identifier
/// bindings can be forwarded by name; anything else is rejected where a
/// forwarding argument list is needed.
#[derive(Debug, Clone)]
pub enum Pat {
    /// A plain identifier binding.
    Ident(String),
    /// Any other pattern (tuple, wildcard, ...).
    Other,
}

/// One typed function parameter: a binding pattern and the parameter's type
/// as opaque text.
#[derive(Debug, Clone)]
pub struct Param {
    /// The pattern binding the argument.
    pub pat: Pat,
    /// The parameter's type, carried as text.
    pub ty: String,
}

/// One entry of a signature's input list.
#[derive(Debug, Clone)]
pub enum FnArg {
    /// An implicit receiver (`self`, `&self`, `&mut self`).
    Receiver,
    /// An ordinary typed parameter.
    Typed(Param),
}

/// A function signature: a name, the generic parameters (which validation
/// rejects), the ordered input list, and the optional return type as text.
#[derive(Debug, Clone)]
pub struct Signature {
    /// The function's name.
    pub name: String,
    /// Names of generic parameters, if any. Interfaces are monomorphic by
    /// design, so validation rejects a non-empty list.
    pub generics: Vec<String>,
    /// The ordered input list.
    pub inputs: Vec<FnArg>,
    /// The return type as text; `None` for the unit type.
    pub output: Option<String>,
}

/// One method of an interface definition: a signature and, optionally, a
/// default body.
#[derive(Debug)]
pub struct Method {
    /// The method's signature.
    pub sig: Signature,
    /// The default body, if the definition carries one.
    pub default: Option<Expr>,
}

/// An interface definition: a named group of method signatures.
#[derive(Debug)]
pub struct InterfaceDecl {
    /// The interface's name.
    pub name: String,
    /// Names of generic parameters of the interface itself; rejected.
    pub generics: Vec<String>,
    /// The methods, in declaration order.
    pub methods: Vec<Method>,
}

/// The target type of an implementation declaration.
#[derive(Debug, Clone)]
pub enum SelfTy {
    /// A plain single-identifier type path.
    Ident(String),
    /// Any other type form.
    Other,
}

/// One method of an interface implementation: a signature and its body.
#[derive(Debug)]
pub struct ImplMethod {
    /// The method's signature.
    pub sig: Signature,
    /// The method's body.
    pub body: Expr,
}

/// An implementation declaration: `impl Trait for Type` with method bodies.
#[derive(Debug)]
pub struct ImplDecl {
    /// The path naming the implemented interface, if the declaration is a
    /// trait implementation at all; the last segment is the interface name.
    pub trait_path: Option<Vec<String>>,
    /// The implementing type.
    pub self_ty: SelfTy,
    /// The methods, in declaration order.
    pub methods: Vec<ImplMethod>,
}

/// Whether an input list contains an implicit receiver.
pub open spec fn has_receiver(inputs: Seq<FnArg>) -> bool {
    exists|i: int| 0 <= i < inputs.len() && inputs[i] is Receiver
}

/// A signature that an interface accepts: no generic parameters and no
/// implicit receiver. Both sides of an interface must produce byte-identical
/// external signatures, so this is enforced identically when defining and
/// when implementing.
pub open spec fn sig_is_valid(sig: Signature) -> bool {
    sig.generics@.len() == 0 && !has_receiver(sig.inputs@)
}

/// The names bound by the typed parameters of an input list, in order —
/// the plain argument-expression list needed to forward a call. `None` when
/// some typed parameter is bound by a pattern that is not an identifier.
/// Receivers are skipped.
pub open spec fn caller_args_spec(inputs: Seq<FnArg>) -> Option<Seq<Seq<char>>>
    decreases inputs.len(),
{
    if inputs.len() == 0 {
        Option::Some(Seq::empty())
    } else {
        let rest = caller_args_spec(inputs.drop_first());
        match inputs[0] {
            FnArg::Receiver => rest,
            FnArg::Typed(p) => match p.pat {
                Pat::Ident(name) => match rest {
                    Option::Some(r) => Option::Some(seq![name@] + r),
                    Option::None => Option::None,
                },
                Pat::Other => Option::None,
            },
        }
    }
}

/// Two signatures that agree in everything: the same name, generics, inputs
/// and output, compared by content.
pub open spec fn sig_like(a: Signature, b: Signature) -> bool {
    &&& a.name@ == b.name@
    &&& a.generics@ == b.generics@
    &&& a.inputs@ == b.inputs@
    &&& a.output == b.output
}

/// Two signatures that differ only in the function's name.
pub open spec fn sig_like_renamed(a: Signature, b: Signature, new_name: Seq<char>) -> bool {
    &&& a.name@ == new_name
    &&& a.generics@ == b.generics@
    &&& a.inputs@ == b.inputs@
    &&& a.output == b.output
}

impl Pat {
    /// An explicit copy, equal to the original.
    pub fn duplicate(&self) -> (r: Pat)
        ensures
            r == *self,
    {
        match self {
            Pat::Ident(s) => Pat::Ident(s.clone()),
            Pat::Other => Pat::Other,
        }
    }
}

impl FnArg {
    /// An explicit copy, equal to the original.
    pub fn duplicate(&self) -> (r: FnArg)
        ensures
            r == *self,
    {
        match self {
            FnArg::Receiver => FnArg::Receiver,
            FnArg::Typed(p) => FnArg::Typed(Param { pat: p.pat.duplicate(), ty: p.ty.clone() }),
        }
    }
}

impl Signature {
    /// An explicit copy that agrees with the original in everything.
    pub fn duplicate(&self) -> (r: Signature)
        ensures
            sig_like(r, *self),
    {
        self.duplicate_renamed(self.name.clone())
    }

    /// A copy of the signature under another function name, as the emitted
    /// external declarations and proxy functions need.
    pub fn duplicate_renamed(&self, new_name: String) -> (r: Signature)
        ensures
            sig_like_renamed(r, *self, new_name@),
    {
        let mut inputs: Vec<FnArg> = Vec::new();
        let mut i: usize = 0;
        while i < self.inputs.len()
            invariant
                i <= self.inputs.len(),
                inputs@ =~= self.inputs@.subrange(0, i as int),
            decreases self.inputs.len() - i,
        {
            inputs.push(self.inputs[i].duplicate());
            proof {
                assert(inputs@ =~= self.inputs@.subrange(0, i as int + 1));
            }
            i = i + 1;
        }
        let output = match &self.output {
            Option::Some(t) => Option::Some(t.clone()),
            Option::None => Option::None,
        };
        proof {
            assert(inputs@ =~= self.inputs@);
        }
        Signature { name: new_name, generics: self.generics.clone(), inputs, output }
    }
}

} // verus!
