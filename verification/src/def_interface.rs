//! Expansion of an interface definition.
//!
//! A definition expands into (a) the interface itself, kept as an abstract
//! contract, (b) a module of external declarations, one symbol per method,
//! (c) under the weak-default overlay, a weak-linked definition for every
//! method with a default body, its `Self::method` references rewritten to
//! go through per-method proxy functions, (d) optionally a plain forwarding
//! caller per method, and (e) the guard constants that make aliasing and
//! namespace mismatches fail to build.

use vstd::prelude::*;

use crate::args::DefInterfaceArgs;
use crate::ast::{
    caller_args_spec, sig_is_valid, sig_like, sig_like_renamed, InterfaceDecl, Method, Signature,
};
use crate::emit::{CallerFn, DefExpansion, ExternDecl, GuardConst, ProxyFn, SymbolDef};
use crate::errors::{weak_default_required_error, ExpandError};
use crate::expr::Expr;
use crate::naming::{
    alias_guard_name, alias_guard_name_spec, extern_fn_mod_name, extern_fn_mod_name_spec,
    extern_fn_name, extern_fn_name_spec, extract_caller_args, names_view, namespace_guard_name,
    namespace_guard_name_spec, opt_str_view, opt_string_view, self_proxy_name, self_proxy_name_spec,
};
use crate::validator::validate_fn_signature;

verus! {

/// The signature of the named method, if the interface has one: the first
/// method carrying that name.
pub open spec fn method_sig_lookup(ms: Seq<Method>, name: Seq<char>) -> Option<Signature>
    decreases ms.len(),
{
    if ms.len() == 0 {
        Option::None
    } else if ms[0].sig.name@ == name {
        Option::Some(ms[0].sig)
    } else {
        method_sig_lookup(ms.drop_first(), name)
    }
}

/// Whether a `Self::method` reference is rewritten into a proxy call: the
/// interface must have the method, and its parameters must all be plain
/// identifiers so that a forwarding proxy can be generated. A reference
/// that cannot be proxied is left untouched.
pub open spec fn should_proxy(ms: Seq<Method>, name: Seq<char>) -> bool {
    match method_sig_lookup(ms, name) {
        Option::Some(sig) => caller_args_spec(sig.inputs@) is Some,
        Option::None => false,
    }
}

/// The relation between a default body and its rewritten form: every
/// proxied `Self::method` reference is replaced by a reference to the
/// method's proxy function, and everything else is kept unchanged.
pub open spec fn rewrites_to(e: Expr, r: Expr, ms: Seq<Method>) -> bool
    decreases e,
{
    match e {
        Expr::SelfPath(m) => {
            if should_proxy(ms, m@) {
                r matches Expr::FnRef(p) && p@ == self_proxy_name_spec(m@)
            } else {
                r == e
            }
        },
        Expr::Add(a, b) => r matches Expr::Add(ra, rb) && rewrites_to(*a, *ra, ms)
            && rewrites_to(*b, *rb, ms),
        Expr::Mul(a, b) => r matches Expr::Mul(ra, rb) && rewrites_to(*a, *ra, ms)
            && rewrites_to(*b, *rb, ms),
        Expr::Call(f, args) => r matches Expr::Call(rf, rargs) && rewrites_to(*f, *rf, ms)
            && rewrites_list_to(args@, rargs@, ms),
        _ => r == e,
    }
}

/// The element-wise rewriting relation on expression lists.
pub open spec fn rewrites_list_to(es: Seq<Expr>, rs: Seq<Expr>, ms: Seq<Method>) -> bool
    decreases es,
{
    if es.len() != rs.len() {
        false
    } else if es.len() == 0 {
        true
    } else {
        rewrites_to(es.last(), rs.last(), ms) && rewrites_list_to(
            es.drop_last(),
            rs.drop_last(),
            ms,
        )
    }
}

/// The proxied `Self::method` references of a body, in traversal order,
/// with repetitions.
pub open spec fn self_refs(e: Expr, ms: Seq<Method>) -> Seq<Seq<char>>
    decreases e,
{
    match e {
        Expr::SelfPath(m) => {
            if should_proxy(ms, m@) {
                seq![m@]
            } else {
                Seq::empty()
            }
        },
        Expr::Add(a, b) => self_refs(*a, ms) + self_refs(*b, ms),
        Expr::Mul(a, b) => self_refs(*a, ms) + self_refs(*b, ms),
        Expr::Call(f, args) => self_refs(*f, ms) + self_refs_list(args@, ms),
        _ => Seq::empty(),
    }
}

/// The proxied references of an expression list, left to right.
pub open spec fn self_refs_list(es: Seq<Expr>, ms: Seq<Method>) -> Seq<Seq<char>>
    decreases es,
{
    if es.len() == 0 {
        Seq::empty()
    } else {
        self_refs_list(es.drop_last(), ms) + self_refs(es.last(), ms)
    }
}

/// Append every name of `xs` to `acc`, keeping only the first occurrence
/// of each: the order in which distinct methods are first referenced.
pub open spec fn dedup_append(acc: Seq<Seq<char>>, xs: Seq<Seq<char>>) -> Seq<Seq<char>>
    decreases xs.len(),
{
    if xs.len() == 0 {
        acc
    } else {
        let p = dedup_append(acc, xs.drop_last());
        if p.contains(xs.last()) {
            p
        } else {
            p.push(xs.last())
        }
    }
}

/// Deduplicating a concatenation is deduplicating one part after the
/// other.
pub proof fn lemma_dedup_append_concat(acc: Seq<Seq<char>>, x: Seq<Seq<char>>, y: Seq<Seq<char>>)
    ensures
        dedup_append(acc, x + y) == dedup_append(dedup_append(acc, x), y),
    decreases y.len(),
{
    if y.len() == 0 {
        assert(x + y =~= x);
    } else {
        assert((x + y).drop_last() =~= x + y.drop_last());
        assert((x + y).last() == y.last());
        lemma_dedup_append_concat(acc, x, y.drop_last());
    }
}

/// The method names of a proxy list, in order.
pub open spec fn proxy_methods(ps: Seq<ProxyFn>) -> Seq<Seq<char>> {
    ps.map_values(|p: ProxyFn| p.method@)
}

/// A well-formed proxy for one referenced method of the interface: the
/// method's signature under the proxy's name, forwarding to the method's
/// external symbol.
pub open spec fn proxy_wf(
    p: ProxyFn,
    ms: Seq<Method>,
    ns: Option<Seq<char>>,
    iface: Seq<char>,
) -> bool {
    &&& should_proxy(ms, p.method@)
    &&& sig_like_renamed(
        p.sig,
        method_sig_lookup(ms, p.method@)->0,
        self_proxy_name_spec(p.method@),
    )
    &&& p.symbol@ == extern_fn_name_spec(ns, iface, p.method@)
}

/// How a rewriting step may change the accumulated proxy list: existing
/// entries stay untouched, and every added entry is a well-formed proxy.
pub open spec fn proxies_extend(
    old_ps: Seq<ProxyFn>,
    new_ps: Seq<ProxyFn>,
    ms: Seq<Method>,
    ns: Option<Seq<char>>,
    iface: Seq<char>,
) -> bool {
    &&& new_ps.len() >= old_ps.len()
    &&& new_ps.subrange(0, old_ps.len() as int) == old_ps
    &&& forall|k: int| old_ps.len() <= k < new_ps.len() ==> proxy_wf(#[trigger] new_ps[k], ms, ns, iface)
}

/// Growing the proxy list in two steps grows it in one.
pub proof fn lemma_proxies_extend_trans(
    a: Seq<ProxyFn>,
    b: Seq<ProxyFn>,
    c: Seq<ProxyFn>,
    ms: Seq<Method>,
    ns: Option<Seq<char>>,
    iface: Seq<char>,
)
    requires
        proxies_extend(a, b, ms, ns, iface),
        proxies_extend(b, c, ms, ns, iface),
    ensures
        proxies_extend(a, c, ms, ns, iface),
{
    assert(c.subrange(0, a.len() as int) =~= c.subrange(0, b.len() as int).subrange(
        0,
        a.len() as int,
    ));
    assert forall|k: int| a.len() <= k < c.len() implies proxy_wf(#[trigger] c[k], ms, ns, iface) by {
        if k < b.len() {
            assert(c[k] == c.subrange(0, b.len() as int)[k]);
            assert(b[k] == c[k]);
        }
    }
}

/// Find the signature of the named method, scanning in declaration order.
fn find_method_sig<'a>(ms: &'a Vec<Method>, name: &str) -> (r: Option<&'a Signature>)
    ensures
        match method_sig_lookup(ms@, name@) {
            Option::Some(sig) => r is Some && *r->0 == sig,
            Option::None => r is None,
        },
{
    let mut i: usize = 0;
    proof {
        assert(ms@.subrange(0, ms@.len() as int) =~= ms@);
    }
    while i < ms.len()
        invariant
            i <= ms.len(),
            method_sig_lookup(ms@, name@) == method_sig_lookup(
                ms@.subrange(i as int, ms@.len() as int),
                name@,
            ),
        decreases ms.len() - i,
    {
        proof {
            let suffix = ms@.subrange(i as int, ms@.len() as int);
            assert(suffix[0] == ms@[i as int]);
            assert(suffix.drop_first() =~= ms@.subrange(i as int + 1, ms@.len() as int));
        }
        if crate::args::str_eq(ms[i].sig.name.as_str(), name) {
            return Option::Some(&ms[i].sig);
        }
        i = i + 1;
    }
    proof {
        assert(ms@.subrange(ms@.len() as int, ms@.len() as int) =~= Seq::<Method>::empty());
    }
    Option::None
}

/// Whether the proxy list already holds a proxy for the named method.
fn contains_proxy(ps: &Vec<ProxyFn>, name: &str) -> (r: bool)
    ensures
        r == proxy_methods(ps@).contains(name@),
{
    let mut i: usize = 0;
    while i < ps.len()
        invariant
            i <= ps.len(),
            forall|k: int| 0 <= k < i ==> proxy_methods(ps@)[k] != name@,
        decreases ps.len() - i,
    {
        if crate::args::str_eq(ps[i].method.as_str(), name) {
            proof {
                assert(proxy_methods(ps@)[i as int] == name@);
            }
            return true;
        }
        i = i + 1;
    }
    proof {
        assert forall|k: int| 0 <= k < proxy_methods(ps@).len() implies proxy_methods(ps@)[k]
            != name@ by {}
    }
    false
}

/// Rewrite one expression of a default body, adding a proxy for each newly
/// referenced sibling method.
fn rewrite_expr(
    e: &Expr,
    trait_name: &str,
    namespace: Option<&str>,
    ms: &Vec<Method>,
    proxies: &mut Vec<ProxyFn>,
) -> (r: Expr)
    ensures
        rewrites_to(*e, r, ms@),
        proxies_extend(old(proxies)@, final(proxies)@, ms@, opt_str_view(namespace), trait_name@),
        proxy_methods(final(proxies)@) == dedup_append(
            proxy_methods(old(proxies)@),
            self_refs(*e, ms@),
        ),
    decreases *e,
{
    let r = match e {
        Expr::IntLit(i) => Expr::IntLit(*i),
        Expr::StrLit(s) => Expr::StrLit(s.clone()),
        Expr::Var(s) => Expr::Var(s.clone()),
        Expr::SymRef(s) => Expr::SymRef(s.clone()),
        Expr::FnRef(s) => Expr::FnRef(s.clone()),
        Expr::Add(a, b) => {
            proof {
                assert(decreases_to!(*e => (*e)->Add_0));
                assert(decreases_to!(*e => (*e)->Add_1));
                assert((*e)->Add_0 == *a && (*e)->Add_1 == *b);
            }
            let ghost mid0 = proxies@;
            let ra = rewrite_expr(a, trait_name, namespace, ms, proxies);
            let ghost mid1 = proxies@;
            let rb = rewrite_expr(b, trait_name, namespace, ms, proxies);
            proof {
                lemma_dedup_append_concat(
                    proxy_methods(mid0),
                    self_refs(**a, ms@),
                    self_refs(**b, ms@),
                );
                lemma_proxies_extend_trans(
                    mid0,
                    mid1,
                    proxies@,
                    ms@,
                    opt_str_view(namespace),
                    trait_name@,
                );
            }
            Expr::Add(Box::new(ra), Box::new(rb))
        },
        Expr::Mul(a, b) => {
            proof {
                assert(decreases_to!(*e => (*e)->Mul_0));
                assert(decreases_to!(*e => (*e)->Mul_1));
                assert((*e)->Mul_0 == *a && (*e)->Mul_1 == *b);
            }
            let ghost mid0 = proxies@;
            let ra = rewrite_expr(a, trait_name, namespace, ms, proxies);
            let ghost mid1 = proxies@;
            let rb = rewrite_expr(b, trait_name, namespace, ms, proxies);
            proof {
                lemma_dedup_append_concat(
                    proxy_methods(mid0),
                    self_refs(**a, ms@),
                    self_refs(**b, ms@),
                );
                lemma_proxies_extend_trans(
                    mid0,
                    mid1,
                    proxies@,
                    ms@,
                    opt_str_view(namespace),
                    trait_name@,
                );
            }
            Expr::Mul(Box::new(ra), Box::new(rb))
        },
        Expr::Call(f, args) => {
            proof {
                assert(decreases_to!(*e => (*e)->Call_0));
                assert(decreases_to!(*e => (*e)->Call_1));
                assert((*e)->Call_0 == *f && (*e)->Call_1 == *args);
            }
            let ghost mid0 = proxies@;
            let rf = rewrite_expr(f, trait_name, namespace, ms, proxies);
            let ghost mid1 = proxies@;
            let rargs = rewrite_exprs(args, trait_name, namespace, ms, proxies);
            proof {
                lemma_dedup_append_concat(
                    proxy_methods(mid0),
                    self_refs(**f, ms@),
                    self_refs_list(args@, ms@),
                );
                lemma_proxies_extend_trans(
                    mid0,
                    mid1,
                    proxies@,
                    ms@,
                    opt_str_view(namespace),
                    trait_name@,
                );
            }
            Expr::Call(Box::new(rf), rargs)
        },
        Expr::SelfPath(m) => {
            let mut proxied = false;
            match find_method_sig(ms, m.as_str()) {
                Option::Some(sig) => {
                    match extract_caller_args(sig) {
                        Result::Ok(_) => {
                            proxied = true;
                            if !contains_proxy(proxies, m.as_str()) {
                                let proxy_ident = self_proxy_name(m.as_str());
                                let p = ProxyFn {
                                    sig: sig.duplicate_renamed(proxy_ident),
                                    method: m.clone(),
                                    symbol: extern_fn_name(
                                        namespace,
                                        trait_name,
                                        m.as_str(),
                                    ),
                                };
                                let ghost prev = proxies@;
                                proxies.push(p);
                                proof {
                                    assert(proxy_methods(proxies@) =~= proxy_methods(prev).push(
                                        m@,
                                    ));
                                    assert(proxies@.subrange(0, prev.len() as int) =~= prev);
                                }
                            }
                        },
                        Result::Err(_) => {},
                    }
                },
                Option::None => {},
            }
            proof {
                let acc = proxy_methods(old(proxies)@);
                if should_proxy(ms@, m@) {
                    assert(seq![m@].drop_last() =~= Seq::<Seq<char>>::empty());
                    assert(seq![m@].last() == m@);
                    assert(dedup_append(acc, Seq::empty()) == acc);
                    assert(dedup_append(acc, seq![m@]) == (if acc.contains(m@) {
                        acc
                    } else {
                        acc.push(m@)
                    }));
                }
                assert(proxies@.subrange(0, old(proxies)@.len() as int) =~= old(proxies)@);
            }
            if proxied {
                Expr::FnRef(self_proxy_name(m.as_str()))
            } else {
                Expr::SelfPath(m.clone())
            }
        },
    };
    proof {
        assert(proxies@.subrange(0, old(proxies)@.len() as int) =~= old(proxies)@);
    }
    r
}

/// A rewritten default body together with the proxy functions generated
/// for it, to be declared at the beginning of the emitted block.
#[derive(Debug)]
pub struct RewrittenBody {
    /// One proxy per distinct referenced sibling method, in order of first
    /// reference.
    pub proxies: Vec<ProxyFn>,
    /// The rewritten body.
    pub body: Expr,
}

/// Rewrite all references to `Self::some_method` in a default body.
///
/// Both direct calls (`Self::method(...)`) and indirect references
/// (`Self::method` as a value) are handled uniformly by generating proxy
/// functions, one per distinct referenced method. This is what makes a
/// default body reach whichever implementation of the sibling actually
/// gets linked, rather than being bound early to the default text.
pub fn rewrite_self_in_default_body(
    default_body: &Expr,
    trait_name: &str,
    namespace: Option<&str>,
    methods: &Vec<Method>,
) -> (r: RewrittenBody)
    ensures
        rewrites_to(*default_body, r.body, methods@),
        proxy_methods(r.proxies@) == dedup_append(
            Seq::empty(),
            self_refs(*default_body, methods@),
        ),
        forall|k: int|
            0 <= k < r.proxies@.len() ==> proxy_wf(
                #[trigger] r.proxies@[k],
                methods@,
                opt_str_view(namespace),
                trait_name@,
            ),
{
    let mut proxies: Vec<ProxyFn> = Vec::new();
    proof {
        assert(proxy_methods(proxies@) =~= Seq::<Seq<char>>::empty());
    }
    let body = rewrite_expr(default_body, trait_name, namespace, methods, &mut proxies);
    RewrittenBody { proxies, body }
}

/// Rewrite each expression of a list, left to right.
fn rewrite_exprs(
    es: &Vec<Expr>,
    trait_name: &str,
    namespace: Option<&str>,
    ms: &Vec<Method>,
    proxies: &mut Vec<ProxyFn>,
) -> (r: Vec<Expr>)
    ensures
        rewrites_list_to(es@, r@, ms@),
        proxies_extend(old(proxies)@, final(proxies)@, ms@, opt_str_view(namespace), trait_name@),
        proxy_methods(final(proxies)@) == dedup_append(
            proxy_methods(old(proxies)@),
            self_refs_list(es@, ms@),
        ),
    decreases *es,
{
    let ghost start = proxies@;
    let mut r: Vec<Expr> = Vec::new();
    let mut i: usize = 0;
    proof {
        assert(es@.subrange(0, 0) =~= Seq::<Expr>::empty());
        assert(self_refs_list(es@.subrange(0, 0), ms@) =~= Seq::<Seq<char>>::empty());
        assert(proxies@.subrange(0, start.len() as int) =~= start);
    }
    while i < es.len()
        invariant
            i <= es.len(),
            r@.len() == i as int,
            rewrites_list_to(es@.subrange(0, i as int), r@, ms@),
            proxies_extend(start, proxies@, ms@, opt_str_view(namespace), trait_name@),
            proxy_methods(proxies@) == dedup_append(
                proxy_methods(start),
                self_refs_list(es@.subrange(0, i as int), ms@),
            ),
        decreases es.len() - i,
    {
        proof {
            assert(decreases_to!(*es => es@));
            assert(decreases_to!(es@ => es@[i as int]));
            assert(decreases_to!(*es => es@[i as int]));
        }
        let ghost mid = proxies@;
        let re = rewrite_expr(&es[i], trait_name, namespace, ms, proxies);
        proof {
            let pre = es@.subrange(0, i as int);
            let post = es@.subrange(0, i as int + 1);
            assert(post.drop_last() =~= pre);
            assert(post.last() == es@[i as int]);
            lemma_dedup_append_concat(
                proxy_methods(start),
                self_refs_list(pre, ms@),
                self_refs(es@[i as int], ms@),
            );
            assert(self_refs_list(post, ms@) == self_refs_list(pre, ms@) + self_refs(
                es@[i as int],
                ms@,
            ));
            lemma_proxies_extend_trans(
                start,
                mid,
                proxies@,
                ms@,
                opt_str_view(namespace),
                trait_name@,
            );
        }
        let ghost rprev = r@;
        r.push(re);
        proof {
            assert(r@.drop_last() =~= rprev);
            assert(r@.last() == re);
        }
        i = i + 1;
    }
    proof {
        assert(es@.subrange(0, es@.len() as int) =~= es@);
    }
    r
}

/// A reference to the parameter of the given name.
pub open spec fn is_var_named(e: Expr, name: Seq<char>) -> bool {
    e matches Expr::Var(v) && v@ == name
}

/// A direct call of the named symbol that forwards the given parameter
/// names: the shape of the body that replaces a default body, so that the
/// method is reachable both by normal dispatch and through the symbol.
pub open spec fn is_symbol_call(e: Expr, sym: Seq<char>, args: Seq<Seq<char>>) -> bool {
    &&& e matches Expr::Call(f, cargs)
    &&& *f matches Expr::SymRef(s)
    &&& s@ == sym
    &&& cargs@.len() == args.len()
    &&& forall|i: int| 0 <= i < args.len() ==> is_var_named(#[trigger] cargs@[i], args[i])
}

/// What, if anything, is wrong with one method of a definition: an invalid
/// signature; a default body without the weak-default overlay; a default
/// body or a requested caller whose arguments cannot be forwarded by name.
pub open spec fn def_method_error(m: Method, gen_caller: bool, weak_default: bool) -> Option<
    ExpandError,
> {
    if !sig_is_valid(m.sig) {
        if m.sig.generics@.len() > 0 {
            Option::Some(ExpandError::GenericNotAllowed)
        } else {
            Option::Some(ExpandError::ReceiverNotAllowed)
        }
    } else if m.default is Some && !weak_default {
        Option::Some(ExpandError::WeakDefaultRequired(m.sig.name))
    } else if m.default is Some && caller_args_spec(m.sig.inputs@) is None {
        Option::Some(ExpandError::UnexpectedArgPattern)
    } else if gen_caller && caller_args_spec(m.sig.inputs@) is None {
        Option::Some(ExpandError::UnexpectedArgPattern)
    } else {
        Option::None
    }
}

/// The first error among the methods of a definition, in declaration
/// order; a failing method aborts the expansion of the whole interface.
pub open spec fn def_first_error(ms: Seq<Method>, gen_caller: bool, weak_default: bool) -> Option<
    ExpandError,
>
    decreases ms.len(),
{
    if ms.len() == 0 {
        Option::None
    } else {
        match def_method_error(ms[0], gen_caller, weak_default) {
            Option::Some(e) => Option::Some(e),
            Option::None => def_first_error(ms.drop_first(), gen_caller, weak_default),
        }
    }
}

/// A well-formed weak definition for one defaulted method: the method's
/// external symbol, weak-linked, forwarding parameters by name, holding
/// the rewritten default body and its proxies.
pub open spec fn weak_def_wf(
    w: SymbolDef,
    m: Method,
    all: Seq<Method>,
    ns: Option<Seq<char>>,
    iface: Seq<char>,
) -> bool {
    &&& w.weak == true
    &&& w.symbol@ == extern_fn_name_spec(ns, iface, m.sig.name@)
    &&& caller_args_spec(m.sig.inputs@) matches Option::Some(ar) && names_view(w.params@) == ar
    &&& m.default matches Option::Some(b) && rewrites_to(b, w.body, all)
    &&& proxy_methods(w.locals@) == dedup_append(Seq::empty(), self_refs(m.default->0, all))
    &&& forall|k: int|
        0 <= k < w.locals@.len() ==> proxy_wf(#[trigger] w.locals@[k], all, ns, iface)
}

/// The weak definitions emitted for a method list: one per method with a
/// default body, in declaration order.
pub open spec fn weak_defs_match(
    all: Seq<Method>,
    ms: Seq<Method>,
    ws: Seq<SymbolDef>,
    ns: Option<Seq<char>>,
    iface: Seq<char>,
) -> bool
    decreases ms.len(),
{
    if ms.len() == 0 {
        ws.len() == 0
    } else if ms.last().default is Some {
        ws.len() > 0 && weak_def_wf(ws.last(), ms.last(), all, ns, iface) && weak_defs_match(
            all,
            ms.drop_last(),
            ws.drop_last(),
            ns,
            iface,
        )
    } else {
        weak_defs_match(all, ms.drop_last(), ws, ns, iface)
    }
}

/// A well-formed forwarding caller for one method: the method's own
/// signature, performing the external call through the declaration module
/// with the parameters forwarded by name.
pub open spec fn caller_fn_wf(
    c: CallerFn,
    m: Method,
    ns: Option<Seq<char>>,
    iface: Seq<char>,
) -> bool {
    &&& sig_like(c.sig, m.sig)
    &&& c.module@ == extern_fn_mod_name_spec(iface)
    &&& c.symbol@ == extern_fn_name_spec(ns, iface, m.sig.name@)
    &&& caller_args_spec(m.sig.inputs@) matches Option::Some(ar) && names_view(c.args@) == ar
}

/// Everything a successful definition expansion guarantees, relative to
/// the input declaration: the interface kept with defaults redirected
/// through their symbols, one external declaration per method, weak
/// definitions for the defaulted methods, callers when requested, and the
/// guard constants.
pub open spec fn def_expansion_ok(
    d: DefExpansion,
    ast: InterfaceDecl,
    ns: Option<Seq<char>>,
    gen_caller: bool,
) -> bool {
    let ms = ast.methods@;
    let iface = ast.name@;
    &&& d.interface.name@ == iface
    &&& d.interface.generics@ == ast.generics@
    &&& d.interface.methods@.len() == ms.len()
    &&& forall|j: int|
        0 <= j < ms.len() ==> sig_like(#[trigger] d.interface.methods@[j].sig, ms[j].sig)
    &&& forall|j: int|
        0 <= j < ms.len() ==> match #[trigger] ms[j].default {
            Option::None => d.interface.methods@[j].default is None,
            Option::Some(_) => d.interface.methods@[j].default matches Option::Some(nb)
                && is_symbol_call(
                nb,
                extern_fn_name_spec(ns, iface, ms[j].sig.name@),
                caller_args_spec(ms[j].sig.inputs@)->0,
            ),
        }
    &&& d.module_name@ == extern_fn_mod_name_spec(iface)
    &&& d.extern_decls@.len() == ms.len()
    &&& forall|j: int|
        0 <= j < ms.len() ==> sig_like_renamed(
            (#[trigger] d.extern_decls@[j]).sig,
            ms[j].sig,
            extern_fn_name_spec(ns, iface, ms[j].sig.name@),
        )
    &&& weak_defs_match(ms, ms, d.weak_defs@, ns, iface)
    &&& (if gen_caller {
        d.callers@.len() == ms.len() && forall|j: int|
            0 <= j < ms.len() ==> caller_fn_wf(#[trigger] d.callers@[j], ms[j], ns, iface)
    } else {
        d.callers@.len() == 0
    })
    &&& d.guards@.len() == (if ns is Some {
        2int
    } else {
        1int
    })
    &&& d.guards@[0].name@ == alias_guard_name_spec(iface)
    &&& d.guards@[0].has_value == true
    &&& (ns matches Option::Some(n) ==> d.guards@[1].name@ == namespace_guard_name_spec(n)
        && d.guards@[1].has_value == false)
}

/// Expand one method of a definition: its external declaration, its weak
/// definition and replacement default body when it has a default, and its
/// forwarding caller when callers were requested.
fn expand_def_method(
    m: &Method,
    all: &Vec<Method>,
    trait_name: &str,
    namespace: Option<&str>,
    module_name: &String,
    gen_caller: bool,
    weak_default: bool,
) -> (r: Result<(ExternDecl, Option<SymbolDef>, Option<CallerFn>, Method), ExpandError>)
    requires
        module_name@ == extern_fn_mod_name_spec(trait_name@),
    ensures
        match def_method_error(*m, gen_caller, weak_default) {
            Option::Some(e) => r matches Result::Err(e2) && e2 == e,
            Option::None => r matches Result::Ok((decl, weak, caller, out_m)) && {
                let ns = opt_str_view(namespace);
                &&& sig_like_renamed(
                    decl.sig,
                    m.sig,
                    extern_fn_name_spec(ns, trait_name@, m.sig.name@),
                )
                &&& match m.default {
                    Option::None => weak is None && out_m.default is None,
                    Option::Some(_) => {
                        &&& weak matches Option::Some(w)
                        &&& weak_def_wf(w, *m, all@, ns, trait_name@)
                        &&& out_m.default matches Option::Some(nb)
                        &&& is_symbol_call(
                            nb,
                            extern_fn_name_spec(ns, trait_name@, m.sig.name@),
                            caller_args_spec(m.sig.inputs@)->0,
                        )
                    },
                }
                &&& (if gen_caller {
                    caller matches Option::Some(c) && caller_fn_wf(c, *m, ns, trait_name@)
                } else {
                    caller is None
                })
                &&& sig_like(out_m.sig, m.sig)
            },
        },
{
    match validate_fn_signature(&m.sig) {
        Result::Err(e) => {
            return Result::Err(e);
        },
        Result::Ok(()) => {},
    }
    let extern_ident = extern_fn_name(namespace, trait_name, m.sig.name.as_str());
    let decl = ExternDecl { sig: m.sig.duplicate_renamed(extern_ident.clone()) };
    let (weak, new_default): (Option<SymbolDef>, Option<Expr>) = match &m.default {
        Option::None => (Option::None, Option::None),
        Option::Some(body) => {
            if !weak_default {
                return Result::Err(weak_default_required_error(&m.sig.name));
            }
            let rw = rewrite_self_in_default_body(body, trait_name, namespace, all);
            let args = match extract_caller_args(&m.sig) {
                Result::Ok(a) => a,
                Result::Err(e) => {
                    return Result::Err(e);
                },
            };
            let mut call_args: Vec<Expr> = Vec::new();
            let mut k: usize = 0;
            while k < args.len()
                invariant
                    k <= args.len(),
                    call_args@.len() == k as int,
                    forall|i: int|
                        0 <= i < k ==> is_var_named(#[trigger] call_args@[i], names_view(args@)[i]),
                decreases args.len() - k,
            {
                call_args.push(Expr::Var(args[k].clone()));
                k = k + 1;
            }
            let w = SymbolDef {
                symbol: extern_ident.clone(),
                params: args,
                locals: rw.proxies,
                body: rw.body,
                weak: true,
            };
            let nb = Expr::Call(Box::new(Expr::SymRef(extern_ident.clone())), call_args);
            (Option::Some(w), Option::Some(nb))
        },
    };
    let caller: Option<CallerFn> = if gen_caller {
        let cargs = match extract_caller_args(&m.sig) {
            Result::Ok(a) => a,
            Result::Err(e) => {
                return Result::Err(e);
            },
        };
        Option::Some(
            CallerFn {
                sig: m.sig.duplicate(),
                module: module_name.clone(),
                symbol: extern_ident.clone(),
                args: cargs,
            },
        )
    } else {
        Option::None
    };
    Result::Ok((decl, weak, caller, Method { sig: m.sig.duplicate(), default: new_default }))
}

/// Expand an interface definition.
///
/// On success the result holds the interface itself (its default bodies
/// redirected through their external symbols), the declaration module, the
/// weak default definitions, the requested forwarding callers, and the
/// guard constants. The expansion of the whole interface is aborted at the
/// first offending method; a generic interface is rejected outright.
pub fn def_interface(ast: InterfaceDecl, macro_arg: DefInterfaceArgs, weak_default: bool) -> (r:
    Result<DefExpansion, ExpandError>)
    ensures
        ast.generics@.len() > 0 ==> (r matches Result::Err(e) && e
            == ExpandError::GenericNotAllowed),
        ast.generics@.len() == 0 ==> match def_first_error(
            ast.methods@,
            macro_arg.gen_caller,
            weak_default,
        ) {
            Option::Some(e) => r matches Result::Err(e2) && e2 == e,
            Option::None => r matches Result::Ok(d) && def_expansion_ok(
                d,
                ast,
                opt_string_view(macro_arg.namespace),
                macro_arg.gen_caller,
            ),
        },
{
    if ast.generics.len() > 0 {
        return Result::Err(crate::errors::generic_not_allowed_error());
    }
    let ns_ref: Option<&str> = match &macro_arg.namespace {
        Option::Some(s) => Option::Some(s.as_str()),
        Option::None => Option::None,
    };
    proof {
        assert(opt_str_view(ns_ref) == opt_string_view(macro_arg.namespace));
    }
    let module_name = extern_fn_mod_name(ast.name.as_str());
    let mut new_methods: Vec<Method> = Vec::new();
    let mut extern_decls: Vec<ExternDecl> = Vec::new();
    let mut weak_defs: Vec<SymbolDef> = Vec::new();
    let mut callers: Vec<CallerFn> = Vec::new();
    let mut j: usize = 0;
    proof {
        assert(ast.methods@.subrange(0, ast.methods@.len() as int) =~= ast.methods@);
        assert(ast.methods@.subrange(0, 0) =~= Seq::<Method>::empty());
    }
    while j < ast.methods.len()
        invariant
            j <= ast.methods.len(),
            ast.generics@.len() == 0,
            module_name@ == extern_fn_mod_name_spec(ast.name@),
            opt_str_view(ns_ref) == opt_string_view(macro_arg.namespace),
            def_first_error(ast.methods@, macro_arg.gen_caller, weak_default) == def_first_error(
                ast.methods@.subrange(j as int, ast.methods@.len() as int),
                macro_arg.gen_caller,
                weak_default,
            ),
            new_methods@.len() == j as int,
            forall|k: int|
                0 <= k < j ==> sig_like((#[trigger] new_methods@[k]).sig, ast.methods@[k].sig),
            forall|k: int|
                0 <= k < j ==> match #[trigger] ast.methods@[k].default {
                    Option::None => new_methods@[k].default is None,
                    Option::Some(_) => new_methods@[k].default matches Option::Some(nb)
                        && is_symbol_call(
                        nb,
                        extern_fn_name_spec(
                            opt_str_view(ns_ref),
                            ast.name@,
                            ast.methods@[k].sig.name@,
                        ),
                        caller_args_spec(ast.methods@[k].sig.inputs@)->0,
                    ),
                },
            extern_decls@.len() == j as int,
            forall|k: int|
                0 <= k < j ==> sig_like_renamed(
                    (#[trigger] extern_decls@[k]).sig,
                    ast.methods@[k].sig,
                    extern_fn_name_spec(
                        opt_str_view(ns_ref),
                        ast.name@,
                        ast.methods@[k].sig.name@,
                    ),
                ),
            weak_defs_match(
                ast.methods@,
                ast.methods@.subrange(0, j as int),
                weak_defs@,
                opt_str_view(ns_ref),
                ast.name@,
            ),
            (if macro_arg.gen_caller {
                callers@.len() == j as int && forall|k: int|
                    0 <= k < j ==> caller_fn_wf(
                        #[trigger] callers@[k],
                        ast.methods@[k],
                        opt_str_view(ns_ref),
                        ast.name@,
                    )
            } else {
                callers@.len() == 0
            }),
        decreases ast.methods.len() - j,
    {
        proof {
            let suffix = ast.methods@.subrange(j as int, ast.methods@.len() as int);
            assert(suffix[0] == ast.methods@[j as int]);
            assert(suffix.drop_first() =~= ast.methods@.subrange(
                j as int + 1,
                ast.methods@.len() as int,
            ));
        }
        let m = &ast.methods[j];
        match expand_def_method(
            m,
            &ast.methods,
            ast.name.as_str(),
            ns_ref,
            &module_name,
            macro_arg.gen_caller,
            weak_default,
        ) {
            Result::Err(e) => {
                return Result::Err(e);
            },
            Result::Ok((decl, weak, caller, out_m)) => {
                let ghost wprev = weak_defs@;
                extern_decls.push(decl);
                match weak {
                    Option::Some(w) => {
                        weak_defs.push(w);
                    },
                    Option::None => {},
                }
                match caller {
                    Option::Some(c) => {
                        callers.push(c);
                    },
                    Option::None => {},
                }
                new_methods.push(out_m);
                proof {
                    let pre = ast.methods@.subrange(0, j as int);
                    let post = ast.methods@.subrange(0, j as int + 1);
                    assert(post.drop_last() =~= pre);
                    assert(post.last() == ast.methods@[j as int]);
                    if ast.methods@[j as int].default is Some {
                        assert(weak_defs@.drop_last() =~= wprev);
                    }
                }
            },
        }
        j = j + 1;
    }
    proof {
        assert(ast.methods@.subrange(ast.methods@.len() as int, ast.methods@.len() as int)
            =~= Seq::<Method>::empty());
        assert(ast.methods@.subrange(0, ast.methods@.len() as int) =~= ast.methods@);
    }
    let mut guards: Vec<GuardConst> = Vec::new();
    guards.push(GuardConst { name: alias_guard_name(ast.name.as_str()), has_value: true });
    match &macro_arg.namespace {
        Option::Some(nsv) => {
            guards.push(GuardConst { name: namespace_guard_name(nsv.as_str()), has_value: false });
        },
        Option::None => {},
    }
    let interface = InterfaceDecl {
        name: ast.name,
        generics: ast.generics,
        methods: new_methods,
    };
    Result::Ok(
        DefExpansion { interface, module_name, extern_decls, weak_defs, callers, guards },
    )
}

} // verus!
