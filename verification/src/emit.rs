//! The structured output of the expansions: what the system emits for the
//! toolchain to compile and, eventually, for the linker to bind.
//!
//! An interface definition expands to a declaration module full of external
//! symbol declarations, optionally weak-linked default definitions and
//! plain forwarding callers, and guard constants. An implementation expands
//! to strongly-linked symbol definitions and matching guard constants. A
//! call expands to a direct reference to one symbol. In the emitted
//! program these artifacts are source text; they are kept structured here
//! so that their relation to the input declarations can be stated and
//! proved.

use vstd::prelude::*;

use crate::ast::{ImplDecl, InterfaceDecl, Signature};
use crate::expr::Expr;

verus! {

/// One external declaration inside an interface's symbol module: the
/// method's signature under the synthesized symbol name, with no body. The
/// linker, not the type checker, will connect it to a definition.
#[derive(Debug)]
pub struct ExternDecl {
    /// The declared signature; its name is the synthesized symbol.
    pub sig: Signature,
}

/// One per-method proxy function generated beside a rewritten default body:
/// an ordinary callable that forwards to the method's externally-linked
/// symbol, so that a `Self::method` reference follows whatever
/// implementation the linker actually binds.
#[derive(Debug)]
pub struct ProxyFn {
    /// The proxy's signature: the referenced method's signature under the
    /// proxy's name.
    pub sig: Signature,
    /// The name of the referenced sibling method.
    pub method: String,
    /// The external symbol the proxy forwards to.
    pub symbol: String,
}

/// One function definition bound by symbol name at link time.
#[derive(Debug)]
pub struct SymbolDef {
    /// The externally visible, unmangled symbol name.
    pub symbol: String,
    /// The parameter names of the definition, in order.
    pub params: Vec<String>,
    /// The proxy functions declared beside the body; only rewritten default
    /// bodies carry any.
    pub locals: Vec<ProxyFn>,
    /// The body.
    pub body: Expr,
    /// Whether the definition is weak-linked: the linker discards it in
    /// favour of any strong definition of the same symbol.
    pub weak: bool,
}

/// One generated forwarding caller: a plain callable with the method's own
/// signature whose body performs the external symbol call, sparing callers
/// the explicit call-rewrite form.
#[derive(Debug)]
pub struct CallerFn {
    /// The caller's signature: the method's signature under its own name.
    pub sig: Signature,
    /// The symbol module the call goes through.
    pub module: String,
    /// The external symbol the caller invokes.
    pub symbol: String,
    /// The forwarded argument names, in order.
    pub args: Vec<String>,
}

/// One build-time guard constant. Its name encodes the interface name or
/// the namespace; a definition/implementation pair whose guard names do not
/// match fails to build instead of linking to a wrong pairing.
#[derive(Debug)]
pub struct GuardConst {
    /// The guard's name.
    pub name: String,
    /// Whether the declaration carries a value. A definition declares the
    /// namespace guard without one, which forces every implementation to
    /// provide it — under the name computed from its own namespace.
    pub has_value: bool,
}

/// Everything an interface definition expands to.
#[derive(Debug)]
pub struct DefExpansion {
    /// The interface declaration emitted back for normal use as an
    /// abstract contract; default bodies are replaced by direct calls of
    /// the corresponding external symbols, and the guards are appended to
    /// it.
    pub interface: InterfaceDecl,
    /// The name of the module holding the external declarations.
    pub module_name: String,
    /// One external declaration per method, inside that module.
    pub extern_decls: Vec<ExternDecl>,
    /// One weak-linked definition per method with a default body, its
    /// `Self::method` references rewritten into proxy calls.
    pub weak_defs: Vec<SymbolDef>,
    /// One forwarding caller per method, when callers were requested.
    pub callers: Vec<CallerFn>,
    /// The alias guard and, under a namespace, the namespace guard.
    pub guards: Vec<GuardConst>,
}

/// Everything an interface implementation expands to.
#[derive(Debug)]
pub struct ImplExpansion {
    /// The implementation block, kept as written: every method stays
    /// directly callable, with the guards appended to it.
    pub impl_block: ImplDecl,
    /// One strongly-linked definition per method, under the synthesized
    /// symbol name, forwarding to the method's own logic.
    pub strong_defs: Vec<SymbolDef>,
    /// The alias guard and, under a namespace, the namespace guard, both
    /// with values: they must match constants the definition declared.
    pub guards: Vec<GuardConst>,
}

/// What an interface call rewrites to: a direct, linker-bound call of one
/// symbol, reached through the interface's declaration module.
#[derive(Debug)]
pub struct CallExpansion {
    /// The path prefix kept from the written call, with the interface
    /// segment replaced by the declaration module's name.
    pub qualifier: Vec<String>,
    /// The called symbol.
    pub symbol: String,
    /// The argument expressions, unchanged.
    pub args: Vec<Expr>,
}

} // verus!
