//! Expansion of an interface implementation.
//!
//! An implementation expands into one strongly-linked definition per
//! method, under exactly the symbol name the definition side declared, each
//! forwarding to the method's own logic; the methods themselves stay
//! directly callable as written. The matching guard constants are appended:
//! since guard names are pure functions of the interface name and the
//! namespace, implementing under an alias or under the wrong namespace
//! produces constants the definition never declared, and the build fails
//! instead of linking to a wrong pairing.

use vstd::prelude::*;

use crate::args::ImplInterfaceArgs;
use crate::ast::{caller_args_spec, sig_is_valid, ImplDecl, ImplMethod, SelfTy};
use crate::emit::{GuardConst, ImplExpansion, SymbolDef};
use crate::errors::ExpandError;
use crate::expr::expr_deep_eq;
use crate::naming::{
    alias_guard_name, alias_guard_name_spec, extern_fn_name, extern_fn_name_spec, extract_caller_args,
    names_view, namespace_guard_name, namespace_guard_name_spec, opt_str_view, opt_string_view,
};
use crate::validator::validate_fn_signature;

verus! {

/// Whether the declaration is a plain `impl Trait for Type`: it must name
/// exactly one interface path and one single-identifier target type.
/// Anything else is rejected before any method is looked at.
pub open spec fn is_trait_impl_shape(ast: ImplDecl) -> bool {
    &&& ast.trait_path matches Option::Some(p)
    &&& p@.len() > 0
    &&& ast.self_ty is Ident
}

/// The interface name an implementation refers to: the last segment of its
/// trait path.
pub open spec fn impl_iface_name(ast: ImplDecl) -> Seq<char>
    recommends
        is_trait_impl_shape(ast),
{
    ast.trait_path->0@.last()@
}

/// What, if anything, is wrong with one method of an implementation: an
/// invalid signature, or parameters that cannot be forwarded by name to
/// the emitted symbol definition.
pub open spec fn impl_method_error(m: ImplMethod) -> Option<ExpandError> {
    if !sig_is_valid(m.sig) {
        if m.sig.generics@.len() > 0 {
            Option::Some(ExpandError::GenericNotAllowed)
        } else {
            Option::Some(ExpandError::ReceiverNotAllowed)
        }
    } else if caller_args_spec(m.sig.inputs@) is None {
        Option::Some(ExpandError::UnexpectedArgPattern)
    } else {
        Option::None
    }
}

/// The first error among the methods of an implementation, in declaration
/// order.
pub open spec fn impl_first_error(ms: Seq<ImplMethod>) -> Option<ExpandError>
    decreases ms.len(),
{
    if ms.len() == 0 {
        Option::None
    } else {
        match impl_method_error(ms[0]) {
            Option::Some(e) => Option::Some(e),
            Option::None => impl_first_error(ms.drop_first()),
        }
    }
}

/// A well-formed strong definition for one implemented method: the
/// method's external symbol, strongly linked, forwarding parameters by
/// name to the method's own logic.
pub open spec fn strong_def_wf(
    s: SymbolDef,
    m: ImplMethod,
    ns: Option<Seq<char>>,
    iface: Seq<char>,
) -> bool {
    &&& s.weak == false
    &&& s.symbol@ == extern_fn_name_spec(ns, iface, m.sig.name@)
    &&& caller_args_spec(m.sig.inputs@) matches Option::Some(ar) && names_view(s.params@) == ar
    &&& s.locals@.len() == 0
    &&& expr_deep_eq(s.body, m.body)
}

/// Everything a successful implementation expansion guarantees: the
/// implementation block kept as written, one strong definition per method,
/// and the two guard constants, both carrying values so that they must
/// match constants declared by the definition side.
pub open spec fn impl_expansion_ok(e: ImplExpansion, ast: ImplDecl, ns: Option<Seq<char>>) -> bool {
    let ms = ast.methods@;
    let iface = impl_iface_name(ast);
    &&& e.impl_block.trait_path == ast.trait_path
    &&& e.impl_block.self_ty == ast.self_ty
    &&& e.impl_block.methods@ == ast.methods@
    &&& e.strong_defs@.len() == ms.len()
    &&& forall|j: int|
        0 <= j < ms.len() ==> strong_def_wf(#[trigger] e.strong_defs@[j], ms[j], ns, iface)
    &&& e.guards@.len() == (if ns is Some {
        2int
    } else {
        1int
    })
    &&& e.guards@[0].name@ == alias_guard_name_spec(iface)
    &&& e.guards@[0].has_value == true
    &&& (ns matches Option::Some(n) ==> e.guards@[1].name@ == namespace_guard_name_spec(n)
        && e.guards@[1].has_value == true)
}

/// Expand an interface implementation.
///
/// Every method is validated exactly as on the definition side — both
/// sides must produce byte-identical external signatures — and then turned
/// into a strong definition of the synthesized symbol. A declaration that
/// is not a plain trait implementation is rejected outright.
pub fn impl_interface(ast: ImplDecl, macro_arg: ImplInterfaceArgs) -> (r: Result<
    ImplExpansion,
    ExpandError,
>)
    ensures
        !is_trait_impl_shape(ast) ==> (r matches Result::Err(e) && e
            == ExpandError::ExpectTraitImpl),
        is_trait_impl_shape(ast) ==> match impl_first_error(ast.methods@) {
            Option::Some(e) => r matches Result::Err(e2) && e2 == e,
            Option::None => r matches Result::Ok(x) && impl_expansion_ok(
                x,
                ast,
                opt_string_view(macro_arg.namespace),
            ),
        },
{
    let trait_name: String = match &ast.trait_path {
        Option::Some(p) => {
            if p.len() == 0 {
                return Result::Err(ExpandError::ExpectTraitImpl);
            }
            p[p.len() - 1].clone()
        },
        Option::None => {
            return Result::Err(ExpandError::ExpectTraitImpl);
        },
    };
    match &ast.self_ty {
        SelfTy::Ident(_) => {},
        SelfTy::Other => {
            return Result::Err(ExpandError::ExpectTraitImpl);
        },
    }
    let ns_ref: Option<&str> = match &macro_arg.namespace {
        Option::Some(s) => Option::Some(s.as_str()),
        Option::None => Option::None,
    };
    proof {
        assert(opt_str_view(ns_ref) == opt_string_view(macro_arg.namespace));
        assert(trait_name@ == impl_iface_name(ast));
    }
    let mut strong_defs: Vec<SymbolDef> = Vec::new();
    let mut j: usize = 0;
    proof {
        assert(ast.methods@.subrange(0, ast.methods@.len() as int) =~= ast.methods@);
    }
    while j < ast.methods.len()
        invariant
            j <= ast.methods.len(),
            is_trait_impl_shape(ast),
            trait_name@ == impl_iface_name(ast),
            opt_str_view(ns_ref) == opt_string_view(macro_arg.namespace),
            impl_first_error(ast.methods@) == impl_first_error(
                ast.methods@.subrange(j as int, ast.methods@.len() as int),
            ),
            strong_defs@.len() == j as int,
            forall|k: int|
                0 <= k < j ==> strong_def_wf(
                    #[trigger] strong_defs@[k],
                    ast.methods@[k],
                    opt_str_view(ns_ref),
                    impl_iface_name(ast),
                ),
        decreases ast.methods.len() - j,
    {
        proof {
            let suffix = ast.methods@.subrange(j as int, ast.methods@.len() as int);
            assert(suffix[0] == ast.methods@[j as int]);
            assert(suffix.drop_first() =~= ast.methods@.subrange(
                j as int + 1,
                ast.methods@.len() as int,
            ));
        }
        let m = &ast.methods[j];
        let extern_ident = extern_fn_name(ns_ref, trait_name.as_str(), m.sig.name.as_str());
        match validate_fn_signature(&m.sig) {
            Result::Err(e) => {
                return Result::Err(e);
            },
            Result::Ok(()) => {},
        }
        let args = match extract_caller_args(&m.sig) {
            Result::Ok(a) => a,
            Result::Err(e) => {
                return Result::Err(e);
            },
        };
        strong_defs.push(
            SymbolDef {
                symbol: extern_ident,
                params: args,
                locals: Vec::new(),
                body: m.body.duplicate(),
                weak: false,
            },
        );
        j = j + 1;
    }
    proof {
        assert(ast.methods@.subrange(ast.methods@.len() as int, ast.methods@.len() as int)
            =~= Seq::<ImplMethod>::empty());
    }
    let mut guards: Vec<GuardConst> = Vec::new();
    guards.push(GuardConst { name: alias_guard_name(trait_name.as_str()), has_value: true });
    match &macro_arg.namespace {
        Option::Some(nsv) => {
            guards.push(GuardConst { name: namespace_guard_name(nsv.as_str()), has_value: true });
        },
        Option::None => {},
    }
    Result::Ok(ImplExpansion { impl_block: ast, strong_defs, guards })
}

} // verus!
