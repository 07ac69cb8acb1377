//! Interface definitions, implementations and call sites bound by symbol
//! name at link time.
//!
//! A consumer declares an abstract interface in one compilation unit and
//! provides its concrete implementation in a different, independently
//! compiled unit; the two are connected purely through synthesized symbol
//! names resolved by the linker, with no dispatch table and no runtime
//! registration. The expansions here turn structured declarations into the
//! emitted artifacts — external declarations, weak and strong symbol
//! definitions, forwarding callers and guard constants — and the [`link`]
//! module gives the resulting symbol protocol its semantics, so that the
//! override and late-binding behaviour of the whole mechanism is proved,
//! not assumed.

use vstd::prelude::*;

pub mod args;
pub mod ast;
pub mod def_interface;
pub mod emit;
pub mod errors;
pub mod expr;
pub mod fixtures;
pub mod impl_interface;
pub mod laws;
pub mod link;
pub mod lite;
pub mod naming;
pub mod validator;

use crate::args::CallInterface;
use crate::emit::CallExpansion;
use crate::errors::ExpandError;
use crate::naming::{
    extern_fn_mod_name, extern_fn_mod_name_spec, extern_fn_name, extern_fn_name_spec,
    opt_str_view, opt_string_view,
};

verus! {

/// Rewrite an interface call.
///
/// The last two path segments name the method and the interface; the
/// remaining prefix is kept, with the interface segment replaced by the
/// declaration module's name, so the rewritten call still resolves the
/// correct scope. The resulting expression is a direct call of the
/// synthesized symbol — the call the type checker cannot verify and the
/// linker will bind. A path of fewer than two segments is rejected.
pub fn call_interface(call: CallInterface) -> (r: Result<CallExpansion, ExpandError>)
    ensures
        call.path@.len() < 2 ==> (r matches Result::Err(e) && e == ExpandError::ExpectTraitFunc),
        call.path@.len() >= 2 ==> (r matches Result::Ok(c) && {
            let n = call.path@.len() as int;
            &&& c.symbol@ == extern_fn_name_spec(
                opt_string_view(call.namespace),
                call.path@[n - 2]@,
                call.path@[n - 1]@,
            )
            &&& c.qualifier@.len() == n - 1
            &&& forall|i: int| 0 <= i < n - 2 ==> c.qualifier@[i] == call.path@[i]
            &&& c.qualifier@[n - 2]@ == extern_fn_mod_name_spec(call.path@[n - 2]@)
            &&& c.args@ == call.args@
        }),
{
    let CallInterface { namespace, mut path, args } = call;
    if path.len() < 2 {
        return Result::Err(ExpandError::ExpectTraitFunc);
    }
    let fn_name = match path.pop() {
        Option::Some(s) => s,
        Option::None => {
            return Result::Err(ExpandError::ExpectTraitFunc);
        },
    };
    let trait_name = match path.pop() {
        Option::Some(s) => s,
        Option::None => {
            return Result::Err(ExpandError::ExpectTraitFunc);
        },
    };
    let ns_ref: Option<&str> = match &namespace {
        Option::Some(s) => Option::Some(s.as_str()),
        Option::None => Option::None,
    };
    proof {
        assert(opt_str_view(ns_ref) == opt_string_view(namespace));
    }
    let symbol = extern_fn_name(ns_ref, trait_name.as_str(), fn_name.as_str());
    let module = extern_fn_mod_name(trait_name.as_str());
    path.push(module);
    Result::Ok(CallExpansion { qualifier: path, symbol, args })
}

} // verus!
