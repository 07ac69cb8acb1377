//! The properties of the symbol protocol, proved end to end over the
//! expansion and link model: a fully implemented interface called through
//! the rewrite path computes exactly what the implementation computes;
//! interfaces under different namespaces cannot capture each other's
//! implementations; a defaulted method falls back to its weak definition
//! and yields to a strong override, in either link order; a rewritten
//! default body observes whatever the linker binds for its siblings; and a
//! generated forwarding caller is indistinguishable from the explicit call
//! form.

use vstd::prelude::*;

use crate::ast::{ImplDecl, InterfaceDecl, Method};
use crate::def_interface::{
    def_expansion_ok, rewrites_to, should_proxy, weak_def_wf, weak_defs_match,
};
use crate::emit::{DefExpansion, ImplExpansion, ProxyFn, SymbolDef};
use crate::expr::{Expr, Value};
use crate::impl_interface::{impl_expansion_ok, impl_iface_name, is_trait_impl_shape, strong_def_wf};
use crate::link::{
    eval_list_spec, eval_spec, first_def_with, has_def_with, lemma_eval_deep_eq,
    lemma_first_def_with_absent, lemma_first_def_with_at, lemma_first_def_with_concat,
    lemma_link_order_irrelevant, lookup_env, lookup_local, mk_env, resolve_spec, run_call_spec,
};
use crate::naming::{
    extern_fn_name_spec, lemma_extern_fn_name_fn_injective, lemma_extern_fn_name_ns_fn_injective,
    lemma_self_proxy_name_injective, self_proxy_name_spec,
};

verus! {

/// Distinct method names, as every well-formed interface or implementation
/// has: the precondition under which one symbol belongs to one method.
pub open spec fn distinct_names(names: Seq<Seq<char>>) -> bool {
    forall|i: int, j: int| 0 <= i < j < names.len() ==> names[i] != names[j]
}

/// The method names of an interface definition.
pub open spec fn def_method_names(ms: Seq<Method>) -> Seq<Seq<char>> {
    ms.map_values(|m: Method| m.sig.name@)
}

/// The method names of an implementation.
pub open spec fn impl_method_names(ms: Seq<crate::ast::ImplMethod>) -> Seq<Seq<char>> {
    ms.map_values(|m: crate::ast::ImplMethod| m.sig.name@)
}

/// The symbol a proxy table binds a sibling method name to, searching by
/// the method's own name.
pub open spec fn lookup_proxy_symbol(ps: Seq<ProxyFn>, m: Seq<char>) -> Option<String>
    decreases ps.len(),
{
    if ps.len() == 0 {
        Option::None
    } else if ps[0].method@ == m {
        Option::Some(ps[0].symbol)
    } else {
        lookup_proxy_symbol(ps.drop_first(), m)
    }
}

/// What a default body means before rewriting, with `Self::method` read as
/// "the externally-linked symbol of that sibling": the proxy table `ps`
/// supplies each sibling's symbol, and everything else evaluates exactly
/// as emitted code does. This is the intended late-bound semantics that
/// the rewriting must realize.
pub open spec fn eval_self_spec(
    defs: Seq<SymbolDef>,
    ps: Seq<ProxyFn>,
    env: Seq<(String, Value)>,
    e: Expr,
    fuel: nat,
) -> Option<Value>
    decreases fuel, e,
{
    match e {
        Expr::IntLit(i) => Option::Some(Value::Int(i)),
        Expr::StrLit(s) => Option::Some(Value::Str(s)),
        Expr::Var(x) => lookup_env(env, x@),
        Expr::Add(a, b) => {
            match (
                eval_self_spec(defs, ps, env, *a, fuel),
                eval_self_spec(defs, ps, env, *b, fuel),
            ) {
                (Option::Some(Value::Int(x)), Option::Some(Value::Int(y))) => {
                    if i64::MIN <= x + y <= i64::MAX {
                        Option::Some(Value::Int((x + y) as i64))
                    } else {
                        Option::None
                    }
                },
                _ => Option::None,
            }
        },
        Expr::Mul(a, b) => {
            match (
                eval_self_spec(defs, ps, env, *a, fuel),
                eval_self_spec(defs, ps, env, *b, fuel),
            ) {
                (Option::Some(Value::Int(x)), Option::Some(Value::Int(y))) => {
                    if i64::MIN <= x * y <= i64::MAX {
                        Option::Some(Value::Int((x * y) as i64))
                    } else {
                        Option::None
                    }
                },
                _ => Option::None,
            }
        },
        Expr::SelfPath(m) => {
            match lookup_proxy_symbol(ps, m@) {
                Option::Some(sym) => Option::Some(Value::Fun(sym)),
                Option::None => Option::None,
            }
        },
        Expr::SymRef(s) => Option::Some(Value::Fun(s)),
        Expr::FnRef(x) => {
            match lookup_local(ps, x@) {
                Option::Some(sym) => Option::Some(Value::Fun(sym)),
                Option::None => Option::None,
            }
        },
        Expr::Call(f, args) => {
            match eval_self_spec(defs, ps, env, *f, fuel) {
                Option::Some(Value::Fun(s)) => {
                    match eval_self_list_spec(defs, ps, env, args@, fuel) {
                        Option::Some(vs) => {
                            if fuel == 0 {
                                Option::None
                            } else {
                                match resolve_spec(defs, s@) {
                                    Option::Some(d) => {
                                        if d.params@.len() == vs.len() {
                                            eval_spec(
                                                defs,
                                                d.locals@,
                                                mk_env(d.params@, vs),
                                                d.body,
                                                (fuel - 1) as nat,
                                            )
                                        } else {
                                            Option::None
                                        }
                                    },
                                    Option::None => Option::None,
                                }
                            }
                        },
                        Option::None => Option::None,
                    }
                },
                _ => Option::None,
            }
        },
    }
}

/// The intended semantics of an expression list, left to right.
pub open spec fn eval_self_list_spec(
    defs: Seq<SymbolDef>,
    ps: Seq<ProxyFn>,
    env: Seq<(String, Value)>,
    es: Seq<Expr>,
    fuel: nat,
) -> Option<Seq<Value>>
    decreases fuel, es,
{
    if es.len() == 0 {
        Option::Some(Seq::empty())
    } else {
        match (
            eval_self_spec(defs, ps, env, es[0], fuel),
            eval_self_list_spec(defs, ps, env, es.drop_first(), fuel),
        ) {
            (Option::Some(v), Option::Some(vs)) => Option::Some(seq![v] + vs),
            _ => Option::None,
        }
    }
}

/// A proxy table as the rewriting produces it: each entry is named by the
/// proxy formula over its own method, and stands for a method the
/// interface can proxy.
pub open spec fn proxies_tabulate(ps: Seq<ProxyFn>, ms: Seq<Method>) -> bool {
    forall|k: int|
        0 <= k < ps.len() ==> (#[trigger] ps[k]).sig.name@ == self_proxy_name_spec(ps[k].method@)
            && should_proxy(ms, ps[k].method@)
}

/// Looking a proxy up under its synthesized name finds exactly the entry
/// for the referenced method.
proof fn lemma_lookup_local_is_proxy_lookup(ps: Seq<ProxyFn>, ms: Seq<Method>, m: Seq<char>)
    requires
        proxies_tabulate(ps, ms),
    ensures
        lookup_local(ps, self_proxy_name_spec(m)) == lookup_proxy_symbol(ps, m),
    decreases ps.len(),
{
    if ps.len() > 0 {
        if ps[0].sig.name@ == self_proxy_name_spec(m) {
            lemma_self_proxy_name_injective(ps[0].method@, m);
        }
        assert forall|k: int| 0 <= k < ps.drop_first().len() implies (
        #[trigger] ps.drop_first()[k]).sig.name@ == self_proxy_name_spec(
            ps.drop_first()[k].method@,
        ) && should_proxy(ms, ps.drop_first()[k].method@) by {
            assert(ps.drop_first()[k] == ps[k + 1]);
        }
        lemma_lookup_local_is_proxy_lookup(ps.drop_first(), ms, m);
    }
}

/// A method no table entry stands for is not found.
proof fn lemma_lookup_proxy_symbol_none(ps: Seq<ProxyFn>, m: Seq<char>)
    requires
        forall|k: int| 0 <= k < ps.len() ==> (#[trigger] ps[k]).method@ != m,
    ensures
        lookup_proxy_symbol(ps, m) is None,
    decreases ps.len(),
{
    if ps.len() > 0 {
        assert forall|k: int| 0 <= k < ps.drop_first().len() implies (
        #[trigger] ps.drop_first()[k]).method@ != m by {
            assert(ps.drop_first()[k] == ps[k + 1]);
        }
        lemma_lookup_proxy_symbol_none(ps.drop_first(), m);
    }
}

/// Self-reference late binding: a rewritten default body evaluates, under
/// its generated proxy table, exactly as the original body does under the
/// intended semantics in which `Self::method` denotes the sibling's
/// externally-linked symbol. Resolution of that symbol happens in the
/// linked table at call time, so a default body that calls a sibling
/// observes the implementation actually linked — an override when one
/// exists, the weak default otherwise.
pub proof fn lemma_rewrite_preserves_semantics(
    defs: Seq<SymbolDef>,
    ps: Seq<ProxyFn>,
    ms: Seq<Method>,
    env: Seq<(String, Value)>,
    e: Expr,
    r: Expr,
    fuel: nat,
)
    requires
        rewrites_to(e, r, ms),
        proxies_tabulate(ps, ms),
    ensures
        eval_spec(defs, ps, env, r, fuel) == eval_self_spec(defs, ps, env, e, fuel),
    decreases fuel, e,
{
    match e {
        Expr::SelfPath(m) => {
            if should_proxy(ms, m@) {
                lemma_lookup_local_is_proxy_lookup(ps, ms, m@);
            } else {
                assert forall|k: int| 0 <= k < ps.len() implies (#[trigger] ps[k]).method@
                    != m@ by {
                    if ps[k].method@ == m@ {
                        assert(should_proxy(ms, m@));
                    }
                }
                lemma_lookup_proxy_symbol_none(ps, m@);
            }
        },
        Expr::Add(a, b) => {
            let ra = r->Add_0;
            let rb = r->Add_1;
            lemma_rewrite_preserves_semantics(defs, ps, ms, env, *a, *ra, fuel);
            lemma_rewrite_preserves_semantics(defs, ps, ms, env, *b, *rb, fuel);
        },
        Expr::Mul(a, b) => {
            let ra = r->Mul_0;
            let rb = r->Mul_1;
            lemma_rewrite_preserves_semantics(defs, ps, ms, env, *a, *ra, fuel);
            lemma_rewrite_preserves_semantics(defs, ps, ms, env, *b, *rb, fuel);
        },
        Expr::Call(f, args) => {
            let rf = r->Call_0;
            let rargs = r->Call_1;
            lemma_rewrite_preserves_semantics(defs, ps, ms, env, *f, *rf, fuel);
            lemma_rewrite_list_preserves_semantics(defs, ps, ms, env, args@, rargs@, fuel);
        },
        _ => {},
    }
}

/// The list version of [`lemma_rewrite_preserves_semantics`].
pub proof fn lemma_rewrite_list_preserves_semantics(
    defs: Seq<SymbolDef>,
    ps: Seq<ProxyFn>,
    ms: Seq<Method>,
    env: Seq<(String, Value)>,
    es: Seq<Expr>,
    rs: Seq<Expr>,
    fuel: nat,
)
    requires
        crate::def_interface::rewrites_list_to(es, rs, ms),
        proxies_tabulate(ps, ms),
    ensures
        eval_list_spec(defs, ps, env, rs, fuel) == eval_self_list_spec(defs, ps, env, es, fuel),
    decreases fuel, es,
{
    if es.len() > 0 {
        lemma_rewrites_list_index(es, rs, ms);
        lemma_rewrite_preserves_semantics(defs, ps, ms, env, es[0], rs[0], fuel);
        lemma_rewrite_list_preserves_semantics(
            defs,
            ps,
            ms,
            env,
            es.drop_first(),
            rs.drop_first(),
            fuel,
        );
    }
}

/// Every emitted weak definition belongs to some defaulted method of the
/// interface.
pub proof fn lemma_weak_defs_cover(
    all: Seq<Method>,
    ms: Seq<Method>,
    ws: Seq<SymbolDef>,
    ns: Option<Seq<char>>,
    iface: Seq<char>,
)
    requires
        weak_defs_match(all, ms, ws, ns, iface),
    ensures
        forall|k: int|
            0 <= k < ws.len() ==> exists|j: int|
                0 <= j < ms.len() && ms[j].default is Some && weak_def_wf(
                    #[trigger] ws[k],
                    ms[j],
                    all,
                    ns,
                    iface,
                ),
    decreases ms.len(),
{
    if ms.len() == 0 {
    } else if ms.last().default is Some {
        lemma_weak_defs_cover(all, ms.drop_last(), ws.drop_last(), ns, iface);
        assert forall|k: int| 0 <= k < ws.len() implies exists|j: int|
            0 <= j < ms.len() && ms[j].default is Some && weak_def_wf(
                #[trigger] ws[k],
                ms[j],
                all,
                ns,
                iface,
            ) by {
            if k < ws.len() - 1 {
                assert(ws.drop_last()[k] == ws[k]);
                let j = choose|j: int|
                    0 <= j < ms.drop_last().len() && ms.drop_last()[j].default is Some
                        && weak_def_wf(ws.drop_last()[k], ms.drop_last()[j], all, ns, iface);
                assert(ms[j] == ms.drop_last()[j]);
            } else {
                assert(ws.last() == ws[k]);
                assert(ms.last() == ms[ms.len() - 1]);
            }
        }
    } else {
        lemma_weak_defs_cover(all, ms.drop_last(), ws, ns, iface);
        assert forall|k: int| 0 <= k < ws.len() implies exists|j: int|
            0 <= j < ms.len() && ms[j].default is Some && weak_def_wf(
                #[trigger] ws[k],
                ms[j],
                all,
                ns,
                iface,
            ) by {
            let j = choose|j: int|
                0 <= j < ms.drop_last().len() && ms.drop_last()[j].default is Some && weak_def_wf(
                    ws[k],
                    ms.drop_last()[j],
                    all,
                    ns,
                    iface,
                );
            assert(ms[j] == ms.drop_last()[j]);
        }
    }
}

/// Every defaulted method of the interface has an emitted weak definition.
pub proof fn lemma_weak_defs_find(
    all: Seq<Method>,
    ms: Seq<Method>,
    ws: Seq<SymbolDef>,
    ns: Option<Seq<char>>,
    iface: Seq<char>,
    j: int,
)
    requires
        weak_defs_match(all, ms, ws, ns, iface),
        0 <= j < ms.len(),
        ms[j].default is Some,
    ensures
        exists|k: int|
            0 <= k < ws.len() && weak_def_wf(#[trigger] ws[k], ms[j], all, ns, iface),
    decreases ms.len(),
{
    if j == ms.len() - 1 {
        assert(ms.last() == ms[j]);
        assert(weak_def_wf(ws[ws.len() - 1], ms[j], all, ns, iface));
    } else {
        assert(ms.drop_last()[j] == ms[j]);
        if ms.last().default is Some {
            lemma_weak_defs_find(all, ms.drop_last(), ws.drop_last(), ns, iface, j);
            let k = choose|k: int|
                0 <= k < ws.drop_last().len() && weak_def_wf(
                    ws.drop_last()[k],
                    ms.drop_last()[j],
                    all,
                    ns,
                    iface,
                );
            assert(ws[k] == ws.drop_last()[k]);
            assert(weak_def_wf(ws[k], ms[j], all, ns, iface));
        } else {
            lemma_weak_defs_find(all, ms.drop_last(), ws, ns, iface, j);
        }
    }
}

/// Weak/strong override precedence, fallback half: a method with a default
/// body that the implementation leaves out resolves to its weak-linked
/// default definition, so the default body is what a call of the symbol
/// runs.
pub proof fn lemma_unimplemented_uses_default(
    dexp: DefExpansion,
    dast: InterfaceDecl,
    ns: Option<Seq<char>>,
    gen_caller: bool,
    iexp: ImplExpansion,
    iast: ImplDecl,
    j: int,
)
    requires
        def_expansion_ok(dexp, dast, ns, gen_caller),
        impl_expansion_ok(iexp, iast, ns),
        is_trait_impl_shape(iast),
        impl_iface_name(iast) == dast.name@,
        distinct_names(def_method_names(dast.methods@)),
        0 <= j < dast.methods@.len(),
        dast.methods@[j].default is Some,
        forall|i: int|
            0 <= i < iast.methods@.len() ==> (#[trigger] iast.methods@[i]).sig.name@
                != dast.methods@[j].sig.name@,
    ensures
        resolve_spec(
            dexp.weak_defs@ + iexp.strong_defs@,
            extern_fn_name_spec(ns, dast.name@, dast.methods@[j].sig.name@),
        ) matches Option::Some(d) && weak_def_wf(d, dast.methods@[j], dast.methods@, ns, dast.name@),
{
    let ms = dast.methods@;
    let iface = dast.name@;
    let ws = dexp.weak_defs@;
    let ss = iexp.strong_defs@;
    let defs = ws + ss;
    let sym = extern_fn_name_spec(ns, iface, ms[j].sig.name@);
    lemma_weak_defs_cover(ms, ms, ws, ns, iface);
    assert forall|i: int| 0 <= i < defs.len() implies !((#[trigger] defs[i]).symbol@ == sym
        && !defs[i].weak) by {
        if i < ws.len() {
            assert(defs[i] == ws[i]);
        } else {
            assert(defs[i] == ss[i - ws.len()]);
            let i2 = i - ws.len();
            assert(strong_def_wf(ss[i2], iast.methods@[i2], ns, impl_iface_name(iast)));
            if defs[i].symbol@ == sym {
                lemma_extern_fn_name_fn_injective(
                    ns,
                    iface,
                    iast.methods@[i2].sig.name@,
                    ms[j].sig.name@,
                );
            }
        }
    }
    lemma_first_def_with_absent(defs, sym, false);
    lemma_weak_defs_find(ms, ms, ws, ns, iface, j);
    let k = choose|k: int| 0 <= k < ws.len() && weak_def_wf(ws[k], ms[j], ms, ns, iface);
    assert(defs[k] == ws[k]);
    assert(has_def_with(defs, sym, true));
    crate::link::lemma_first_def_with_iff(defs, sym, true);
    crate::link::lemma_first_def_with_mem(defs, sym, true);
    let d = first_def_with(defs, sym, true)->0;
    let i0 = choose|i: int| 0 <= i < defs.len() && defs[i] == d;
    if i0 >= ws.len() {
        assert(defs[i0] == ss[i0 - ws.len()]);
        assert(strong_def_wf(
            ss[i0 - ws.len()],
            iast.methods@[i0 - ws.len()],
            ns,
            impl_iface_name(iast),
        ));
        assert(false);
    }
    assert(defs[i0] == ws[i0]);
    let j2 = choose|j2: int|
        0 <= j2 < ms.len() && ms[j2].default is Some && weak_def_wf(ws[i0], ms[j2], ms, ns, iface);
    if j2 != j {
        lemma_extern_fn_name_fn_injective(ns, iface, ms[j2].sig.name@, ms[j].sig.name@);
        assert(def_method_names(ms)[j2] == def_method_names(ms)[j]);
        assert(false);
    }
}

/// Weak/strong override precedence, override half: a method the
/// implementation does provide resolves to the implementation's
/// strongly-linked definition — the weak default, if any, is discarded.
pub proof fn lemma_override_wins(
    dexp: DefExpansion,
    dast: InterfaceDecl,
    ns: Option<Seq<char>>,
    gen_caller: bool,
    iexp: ImplExpansion,
    iast: ImplDecl,
    i: int,
)
    requires
        def_expansion_ok(dexp, dast, ns, gen_caller),
        impl_expansion_ok(iexp, iast, ns),
        is_trait_impl_shape(iast),
        impl_iface_name(iast) == dast.name@,
        distinct_names(impl_method_names(iast.methods@)),
        0 <= i < iast.methods@.len(),
    ensures
        resolve_spec(
            dexp.weak_defs@ + iexp.strong_defs@,
            extern_fn_name_spec(ns, dast.name@, iast.methods@[i].sig.name@),
        ) == Option::Some(iexp.strong_defs@[i]),
{
    let ms = dast.methods@;
    let iface = dast.name@;
    let ws = dexp.weak_defs@;
    let ss = iexp.strong_defs@;
    let defs = ws + ss;
    let sym = extern_fn_name_spec(ns, iface, iast.methods@[i].sig.name@);
    lemma_weak_defs_cover(ms, ms, ws, ns, iface);
    assert forall|a: int| 0 <= a < ws.len() implies !((#[trigger] ws[a]).symbol@ == sym
        && !ws[a].weak) by {}
    lemma_first_def_with_absent(ws, sym, false);
    assert(ss[i].symbol@ == sym);
    assert forall|a: int| 0 <= a < i implies !((#[trigger] ss[a]).symbol@ == sym
        && !ss[a].weak) by {
        if ss[a].symbol@ == sym {
            lemma_extern_fn_name_fn_injective(
                ns,
                iface,
                iast.methods@[a].sig.name@,
                iast.methods@[i].sig.name@,
            );
            assert(impl_method_names(iast.methods@)[a] == impl_method_names(iast.methods@)[i]);
        }
    }
    lemma_first_def_with_at(ss, sym, false, i);
    lemma_first_def_with_concat(ws, ss, sym, false);
}

/// Weak/strong override precedence, order half: a definition unit holds
/// only weak definitions and an implementation unit only strong ones, so
/// linking them in either order resolves every symbol the same way — it
/// does not matter which unit is compiled first.
pub proof fn lemma_override_any_order(
    dexp: DefExpansion,
    dast: InterfaceDecl,
    ns: Option<Seq<char>>,
    gen_caller: bool,
    iexp: ImplExpansion,
    iast: ImplDecl,
    s: Seq<char>,
)
    requires
        def_expansion_ok(dexp, dast, ns, gen_caller),
        impl_expansion_ok(iexp, iast, ns),
        is_trait_impl_shape(iast),
    ensures
        resolve_spec(dexp.weak_defs@ + iexp.strong_defs@, s) == resolve_spec(
            iexp.strong_defs@ + dexp.weak_defs@,
            s,
        ),
{
    lemma_weak_defs_cover(dast.methods@, dast.methods@, dexp.weak_defs@, ns, dast.name@);
    assert forall|i: int| 0 <= i < dexp.weak_defs@.len() implies (
    #[trigger] dexp.weak_defs@[i]).weak by {}
    assert forall|i: int| 0 <= i < iexp.strong_defs@.len() implies !(
    #[trigger] iexp.strong_defs@[i]).weak by {
        assert(strong_def_wf(
            iexp.strong_defs@[i],
            iast.methods@[i],
            ns,
            impl_iface_name(iast),
        ));
    }
    lemma_link_order_irrelevant(dexp.weak_defs@, iexp.strong_defs@, s);
}

/// Round trip: an interface fully implemented and called through the
/// call-rewrite path returns exactly the value the implementation
/// computes. The rewritten call runs the symbol that the
/// [`crate::call_interface`] contract synthesizes for the interface and
/// method; here that symbol resolves to the implementation's definition,
/// and evaluating it is evaluating the method's own body on the call's
/// arguments.
pub proof fn lemma_round_trip(
    iexp: ImplExpansion,
    iast: ImplDecl,
    ns: Option<Seq<char>>,
    j: int,
    vs: Seq<Value>,
    fuel: nat,
)
    requires
        impl_expansion_ok(iexp, iast, ns),
        is_trait_impl_shape(iast),
        distinct_names(impl_method_names(iast.methods@)),
        0 <= j < iast.methods@.len(),
        fuel > 0,
        vs.len() == iexp.strong_defs@[j].params@.len(),
    ensures
        run_call_spec(
            iexp.strong_defs@,
            extern_fn_name_spec(ns, impl_iface_name(iast), iast.methods@[j].sig.name@),
            vs,
            fuel,
        ) == eval_spec(
            iexp.strong_defs@,
            iexp.strong_defs@[j].locals@,
            mk_env(iexp.strong_defs@[j].params@, vs),
            iast.methods@[j].body,
            (fuel - 1) as nat,
        ),
{
    let ss = iexp.strong_defs@;
    let iface = impl_iface_name(iast);
    let sym = extern_fn_name_spec(ns, iface, iast.methods@[j].sig.name@);
    assert(ss[j].symbol@ == sym);
    assert forall|a: int| 0 <= a < j implies !((#[trigger] ss[a]).symbol@ == sym
        && !ss[a].weak) by {
        if ss[a].symbol@ == sym {
            lemma_extern_fn_name_fn_injective(
                ns,
                iface,
                iast.methods@[a].sig.name@,
                iast.methods@[j].sig.name@,
            );
            assert(impl_method_names(iast.methods@)[a] == impl_method_names(iast.methods@)[j]);
        }
    }
    lemma_first_def_with_at(ss, sym, false, j);
    lemma_eval_deep_eq(
        ss,
        ss[j].locals@,
        mk_env(ss[j].params@, vs),
        ss[j].body,
        iast.methods@[j].body,
        (fuel - 1) as nat,
    );
}

/// The round trip through a linked two-unit program: the definition unit
/// of an interface with no defaults contributes no definitions, so linking
/// it with the implementation unit and calling the rewritten symbol runs
/// the implementation — the linked form of [`lemma_round_trip`].
pub proof fn lemma_round_trip_linked(
    iexp: ImplExpansion,
    iast: ImplDecl,
    ns: Option<Seq<char>>,
    j: int,
    vs: Seq<Value>,
    fuel: nat,
    def_unit: crate::link::LinkUnit,
    impl_unit: crate::link::LinkUnit,
)
    requires
        impl_expansion_ok(iexp, iast, ns),
        is_trait_impl_shape(iast),
        distinct_names(impl_method_names(iast.methods@)),
        0 <= j < iast.methods@.len(),
        fuel > 0,
        vs.len() == iexp.strong_defs@[j].params@.len(),
        def_unit.defs@.len() == 0,
        impl_unit.defs@ == iexp.strong_defs@,
    ensures
        run_call_spec(
            crate::link::units_defs(seq![def_unit, impl_unit]),
            extern_fn_name_spec(ns, impl_iface_name(iast), iast.methods@[j].sig.name@),
            vs,
            fuel,
        ) == eval_spec(
            iexp.strong_defs@,
            iexp.strong_defs@[j].locals@,
            mk_env(iexp.strong_defs@[j].params@, vs),
            iast.methods@[j].body,
            (fuel - 1) as nat,
        ),
{
    crate::link::lemma_units_defs_two(def_unit, impl_unit);
    assert(def_unit.defs@ + impl_unit.defs@ =~= iexp.strong_defs@);
    lemma_round_trip(iexp, iast, ns, j, vs, fuel);
}

/// Namespace isolation: two interfaces with the same name, implemented
/// under two different (underscore-free) namespaces and linked into one
/// program, do not interfere — a call under the first namespace resolves
/// to the first implementation's definition, never the second's.
pub proof fn lemma_namespace_isolation(
    e1: ImplExpansion,
    a1: ImplDecl,
    ns1: Seq<char>,
    e2: ImplExpansion,
    a2: ImplDecl,
    ns2: Seq<char>,
    j: int,
)
    requires
        impl_expansion_ok(e1, a1, Option::Some(ns1)),
        impl_expansion_ok(e2, a2, Option::Some(ns2)),
        is_trait_impl_shape(a1),
        is_trait_impl_shape(a2),
        impl_iface_name(a1) == impl_iface_name(a2),
        ns1 != ns2,
        forall|k: int| 0 <= k < ns1.len() ==> ns1[k] != '_',
        forall|k: int| 0 <= k < ns2.len() ==> ns2[k] != '_',
        distinct_names(impl_method_names(a1.methods@)),
        0 <= j < a1.methods@.len(),
    ensures
        resolve_spec(
            e1.strong_defs@ + e2.strong_defs@,
            extern_fn_name_spec(
                Option::Some(ns1),
                impl_iface_name(a1),
                a1.methods@[j].sig.name@,
            ),
        ) == Option::Some(e1.strong_defs@[j]),
{
    let iface = impl_iface_name(a1);
    let s1 = e1.strong_defs@;
    let s2 = e2.strong_defs@;
    let sym = extern_fn_name_spec(Option::Some(ns1), iface, a1.methods@[j].sig.name@);
    assert(s1[j].symbol@ == sym);
    assert forall|a: int| 0 <= a < j implies !((#[trigger] s1[a]).symbol@ == sym
        && !s1[a].weak) by {
        if s1[a].symbol@ == sym {
            lemma_extern_fn_name_fn_injective(
                Option::Some(ns1),
                iface,
                a1.methods@[a].sig.name@,
                a1.methods@[j].sig.name@,
            );
            assert(impl_method_names(a1.methods@)[a] == impl_method_names(a1.methods@)[j]);
        }
    }
    lemma_first_def_with_at(s1, sym, false, j);
    lemma_first_def_with_concat(s1, s2, sym, false);
}

/// Namespace isolation holds symmetrically: no definition of the second
/// namespace's implementation carries a symbol of the first namespace.
pub proof fn lemma_namespace_no_capture(
    e2: ImplExpansion,
    a2: ImplDecl,
    ns1: Seq<char>,
    ns2: Seq<char>,
    iface: Seq<char>,
    m: Seq<char>,
)
    requires
        impl_expansion_ok(e2, a2, Option::Some(ns2)),
        is_trait_impl_shape(a2),
        impl_iface_name(a2) == iface,
        ns1 != ns2,
        forall|k: int| 0 <= k < ns1.len() ==> ns1[k] != '_',
        forall|k: int| 0 <= k < ns2.len() ==> ns2[k] != '_',
    ensures
        forall|i: int|
            0 <= i < e2.strong_defs@.len() ==> (#[trigger] e2.strong_defs@[i]).symbol@
                != extern_fn_name_spec(Option::Some(ns1), iface, m),
{
    assert forall|i: int| 0 <= i < e2.strong_defs@.len() implies (
    #[trigger] e2.strong_defs@[i]).symbol@ != extern_fn_name_spec(
        Option::Some(ns1),
        iface,
        m,
    ) by {
        assert(strong_def_wf(e2.strong_defs@[i], a2.methods@[i], Option::Some(ns2), iface));
        if e2.strong_defs@[i].symbol@ == extern_fn_name_spec(Option::Some(ns1), iface, m) {
            lemma_extern_fn_name_ns_fn_injective(
                ns2,
                ns1,
                iface,
                a2.methods@[i].sig.name@,
                m,
            );
        }
    }
}

/// Forwarding-function equivalence: a generated caller invokes exactly the
/// symbol that the explicit call-rewrite form synthesizes for the same
/// interface and method, so calling the plain callable is observably
/// identical to calling through the rewrite, for all arguments, in every
/// linked program.
pub proof fn lemma_forwarding_equivalence(
    dexp: DefExpansion,
    dast: InterfaceDecl,
    ns: Option<Seq<char>>,
    j: int,
    defs: Seq<SymbolDef>,
    vs: Seq<Value>,
    fuel: nat,
)
    requires
        def_expansion_ok(dexp, dast, ns, true),
        0 <= j < dast.methods@.len(),
    ensures
        dexp.callers@[j].symbol@ == extern_fn_name_spec(
            ns,
            dast.name@,
            dast.methods@[j].sig.name@,
        ),
        run_call_spec(defs, dexp.callers@[j].symbol@, vs, fuel) == run_call_spec(
            defs,
            extern_fn_name_spec(ns, dast.name@, dast.methods@[j].sig.name@),
            vs,
            fuel,
        ),
{
    assert(crate::def_interface::caller_fn_wf(dexp.callers@[j], dast.methods@[j], ns, dast.name@));
}

/// Rejection: an interface definition containing one bad method — a
/// generic signature, a receiver, a default body without the overlay, or
/// unforwardable parameters — never expands successfully: some method
/// error surfaces, and the expansion contract turns it into a build error.
pub proof fn lemma_def_rejects_bad_method(ms: Seq<Method>, gen_caller: bool, weak_default: bool, j: int)
    requires
        0 <= j < ms.len(),
        crate::def_interface::def_method_error(ms[j], gen_caller, weak_default) is Some,
    ensures
        crate::def_interface::def_first_error(ms, gen_caller, weak_default) is Some,
    decreases ms.len(),
{
    if crate::def_interface::def_method_error(ms[0], gen_caller, weak_default) is Some {
    } else {
        assert(j != 0);
        assert(ms.drop_first()[j - 1] == ms[j]);
        lemma_def_rejects_bad_method(ms.drop_first(), gen_caller, weak_default, j - 1);
    }
}

/// Rejection: an implementation containing one bad method never expands
/// successfully.
pub proof fn lemma_impl_rejects_bad_method(ms: Seq<crate::ast::ImplMethod>, j: int)
    requires
        0 <= j < ms.len(),
        crate::impl_interface::impl_method_error(ms[j]) is Some,
    ensures
        crate::impl_interface::impl_first_error(ms) is Some,
    decreases ms.len(),
{
    if crate::impl_interface::impl_method_error(ms[0]) is Some {
    } else {
        assert(j != 0);
        assert(ms.drop_first()[j - 1] == ms[j]);
        lemma_impl_rejects_bad_method(ms.drop_first(), j - 1);
    }
}

/// The emitted weak definition of a defaulted method behaves exactly like
/// the method's written default body under the intended late-bound
/// reading of its `Self::method` references: the generated proxies are a
/// faithful table of the referenced siblings.
pub proof fn lemma_weak_def_semantics(
    w: SymbolDef,
    m: Method,
    ms: Seq<Method>,
    ns: Option<Seq<char>>,
    iface: Seq<char>,
    defs: Seq<SymbolDef>,
    env: Seq<(String, Value)>,
    fuel: nat,
)
    requires
        weak_def_wf(w, m, ms, ns, iface),
    ensures
        eval_spec(defs, w.locals@, env, w.body, fuel) == eval_self_spec(
            defs,
            w.locals@,
            env,
            m.default->0,
            fuel,
        ),
{
    assert(proxies_tabulate(w.locals@, ms)) by {
        assert forall|k: int| 0 <= k < w.locals@.len() implies (
        #[trigger] w.locals@[k]).sig.name@ == self_proxy_name_spec(w.locals@[k].method@)
            && should_proxy(ms, w.locals@[k].method@) by {
            assert(crate::def_interface::proxy_wf(w.locals@[k], ms, ns, iface));
        }
    }
    lemma_rewrite_preserves_semantics(defs, w.locals@, ms, env, m.default->0, w.body, fuel);
}

/// The end-to-end fallback behaviour: calling the symbol of a defaulted,
/// unimplemented method runs the written default body under its intended
/// late-bound semantics — in the table of the whole linked program, so
/// sibling references still observe whatever is linked.
pub proof fn lemma_unimplemented_runs_default(
    dexp: DefExpansion,
    dast: InterfaceDecl,
    ns: Option<Seq<char>>,
    gen_caller: bool,
    iexp: ImplExpansion,
    iast: ImplDecl,
    j: int,
    vs: Seq<Value>,
    fuel: nat,
)
    requires
        def_expansion_ok(dexp, dast, ns, gen_caller),
        impl_expansion_ok(iexp, iast, ns),
        is_trait_impl_shape(iast),
        impl_iface_name(iast) == dast.name@,
        distinct_names(def_method_names(dast.methods@)),
        0 <= j < dast.methods@.len(),
        dast.methods@[j].default is Some,
        forall|i: int|
            0 <= i < iast.methods@.len() ==> (#[trigger] iast.methods@[i]).sig.name@
                != dast.methods@[j].sig.name@,
        fuel > 0,
    ensures
        resolve_spec(
            dexp.weak_defs@ + iexp.strong_defs@,
            extern_fn_name_spec(ns, dast.name@, dast.methods@[j].sig.name@),
        ) matches Option::Some(d) && (d.params@.len() == vs.len()
            ==> run_call_spec(
            dexp.weak_defs@ + iexp.strong_defs@,
            extern_fn_name_spec(ns, dast.name@, dast.methods@[j].sig.name@),
            vs,
            fuel,
        ) == eval_self_spec(
            dexp.weak_defs@ + iexp.strong_defs@,
            d.locals@,
            mk_env(d.params@, vs),
            dast.methods@[j].default->0,
            (fuel - 1) as nat,
        )),
{
    lemma_unimplemented_uses_default(dexp, dast, ns, gen_caller, iexp, iast, j);
    let defs = dexp.weak_defs@ + iexp.strong_defs@;
    let sym = extern_fn_name_spec(ns, dast.name@, dast.methods@[j].sig.name@);
    let d = resolve_spec(defs, sym)->0;
    if d.params@.len() == vs.len() {
        lemma_weak_def_semantics(
            d,
            dast.methods@[j],
            dast.methods@,
            ns,
            dast.name@,
            defs,
            mk_env(d.params@, vs),
            (fuel - 1) as nat,
        );
    }
}

/// A list rewriting holds pairwise from the front as well as from the
/// back.
pub proof fn lemma_rewrites_list_index(es: Seq<Expr>, rs: Seq<Expr>, ms: Seq<Method>)
    requires
        crate::def_interface::rewrites_list_to(es, rs, ms),
        es.len() > 0,
    ensures
        rs.len() == es.len(),
        rewrites_to(es[0], rs[0], ms),
        crate::def_interface::rewrites_list_to(es.drop_first(), rs.drop_first(), ms),
    decreases es.len(),
{
    if es.len() == 1 {
        assert(es.last() == es[0]);
        assert(rs.last() == rs[0]);
        assert(es.drop_first() =~= es.drop_last());
        assert(rs.drop_first() =~= rs.drop_last());
    } else {
        lemma_rewrites_list_index(es.drop_last(), rs.drop_last(), ms);
        assert(es.drop_last()[0] == es[0]);
        assert(rs.drop_last()[0] == rs[0]);
        assert(es.drop_first().drop_last() =~= es.drop_last().drop_first());
        assert(rs.drop_first().drop_last() =~= rs.drop_last().drop_first());
        assert(es.drop_first().last() == es.last());
        assert(rs.drop_first().last() == rs.last());
    }
}

} // verus!
