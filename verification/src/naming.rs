//! Name synthesis: the deterministic formulas that map an optional namespace,
//! an interface name and a method name to the external symbol that links a
//! definition, its implementation and every call site together, plus the
//! module and guard identifiers that the expansions emit.
//!
//! Every component of the system must compute these names with the same
//! formulas; the lemmas at the end of this module show that the formulas are
//! deterministic and that they keep distinct namespaces, interfaces and
//! methods apart.

use vstd::prelude::*;

use crate::ast::{caller_args_spec, FnArg, Pat, Signature};
use crate::errors::ExpandError;

verus! {

/// The view of an optional string slice.
pub open spec fn opt_str_view(s: Option<&str>) -> Option<Seq<char>> {
    match s {
        Option::Some(x) => Option::Some(x@),
        Option::None => Option::None,
    }
}

/// The view of an optional owned string.
pub open spec fn opt_string_view(s: Option<String>) -> Option<Seq<char>> {
    match s {
        Option::Some(x) => Option::Some(x@),
        Option::None => Option::None,
    }
}

/// The external symbol name bound at link time: `__{ns}_{trait}_{fn}` with a
/// namespace, `__{trait}_{fn}` without one.
pub open spec fn extern_fn_name_spec(
    namespace: Option<Seq<char>>,
    trait_name: Seq<char>,
    fn_name: Seq<char>,
) -> Seq<char> {
    match namespace {
        Option::Some(ns) => "__"@ + ns + "_"@ + trait_name + "_"@ + fn_name,
        Option::None => "__"@ + trait_name + "_"@ + fn_name,
    }
}

/// The name of the module that holds the external declarations of an
/// interface's symbols: `__{trait}_mod`. The namespace is left out on
/// purpose: two interfaces cannot share a name in one scope regardless of
/// their namespaces, so the trait name alone is already unique there.
pub open spec fn extern_fn_mod_name_spec(trait_name: Seq<char>) -> Seq<char> {
    "__"@ + trait_name + "_mod"@
}

/// The guard constant that makes implementing an interface under a renamed
/// alias fail to build: `__MustNotAnAlias__{trait}`.
pub open spec fn alias_guard_name_spec(trait_name: Seq<char>) -> Seq<char> {
    "__MustNotAnAlias__"@ + trait_name
}

/// The guard constant that makes a namespace mismatch between a definition
/// and an implementation fail to build: `__NamespaceGuard__{ns}`.
pub open spec fn namespace_guard_name_spec(namespace: Seq<char>) -> Seq<char> {
    "__NamespaceGuard__"@ + namespace
}

/// The per-method proxy function that a rewritten default body calls in
/// place of a `Self::method` reference: `__self_proxy_{fn}`.
pub open spec fn self_proxy_name_spec(fn_name: Seq<char>) -> Seq<char> {
    "__self_proxy_"@ + fn_name
}

/// Generate the extern function name (the symbol the definition declares and
/// the implementation defines), from the optional namespace, trait name, and
/// function name.
pub fn extern_fn_name(namespace: Option<&str>, trait_name: &str, fn_name: &str) -> (r: String)
    ensures
        r@ == extern_fn_name_spec(opt_str_view(namespace), trait_name@, fn_name@),
{
    let mut s = String::new();
    s.append("__");
    if let Option::Some(ns) = namespace {
        s.append(ns);
        s.append("_");
    }
    s.append(trait_name);
    s.append("_");
    s.append(fn_name);
    proof {
        assert(s@ =~= extern_fn_name_spec(opt_str_view(namespace), trait_name@, fn_name@));
    }
    s
}

/// Generate the module name that contains the extern function declarations.
pub fn extern_fn_mod_name(trait_name: &str) -> (r: String)
    ensures
        r@ == extern_fn_mod_name_spec(trait_name@),
{
    let mut s = String::new();
    s.append("__");
    s.append(trait_name);
    s.append("_mod");
    proof {
        assert(s@ =~= extern_fn_mod_name_spec(trait_name@));
    }
    s
}

/// Generate the identifier that guards against aliasing of trait names.
pub fn alias_guard_name(trait_name: &str) -> (r: String)
    ensures
        r@ == alias_guard_name_spec(trait_name@),
{
    let mut s = String::new();
    s.append("__MustNotAnAlias__");
    s.append(trait_name);
    proof {
        assert(s@ =~= alias_guard_name_spec(trait_name@));
    }
    s
}

/// Generate the identifier that enforces namespace matching between a
/// definition and an implementation.
pub fn namespace_guard_name(namespace: &str) -> (r: String)
    ensures
        r@ == namespace_guard_name_spec(namespace@),
{
    let mut s = String::new();
    s.append("__NamespaceGuard__");
    s.append(namespace);
    proof {
        assert(s@ =~= namespace_guard_name_spec(namespace@));
    }
    s
}

/// Generate the name of the proxy function for one method referenced as
/// `Self::method` inside a default body.
pub fn self_proxy_name(fn_name: &str) -> (r: String)
    ensures
        r@ == self_proxy_name_spec(fn_name@),
{
    let mut s = String::new();
    s.append("__self_proxy_");
    s.append(fn_name);
    proof {
        assert(s@ =~= self_proxy_name_spec(fn_name@));
    }
    s
}

/// The sequence of views of a vector of strings.
pub open spec fn names_view(names: Seq<String>) -> Seq<Seq<char>> {
    names.map_values(|s: String| s@)
}

/// Extract the argument list from the function signature to be used by a
/// forwarding caller: the names of the typed parameters, in order.
///
/// Returns an error if any typed argument is bound by a pattern that is not
/// a plain identifier. Receivers are skipped because validation already
/// rejects them where they matter.
pub fn extract_caller_args(sig: &Signature) -> (r: Result<Vec<String>, ExpandError>)
    ensures
        match caller_args_spec(sig.inputs@) {
            Option::Some(names) => r is Ok && names_view(r->Ok_0@) == names,
            Option::None => r == Result::<Vec<String>, ExpandError>::Err(
                ExpandError::UnexpectedArgPattern,
            ),
        },
{
    let mut args: Vec<String> = Vec::new();
    let mut i: usize = 0;
    proof {
        assert(sig.inputs@.subrange(0, sig.inputs@.len() as int) =~= sig.inputs@);
        assert(names_view(args@) =~= Seq::<Seq<char>>::empty());
        if caller_args_spec(sig.inputs@) is Some {
            assert(names_view(args@) + caller_args_spec(sig.inputs@)->0 =~= caller_args_spec(
                sig.inputs@,
            )->0);
        }
    }
    while i < sig.inputs.len()
        invariant
            i <= sig.inputs.len(),
            match caller_args_spec(sig.inputs@.subrange(i as int, sig.inputs@.len() as int)) {
                Option::Some(rest) => caller_args_spec(sig.inputs@) == Option::Some(
                    names_view(args@) + rest,
                ),
                Option::None => caller_args_spec(sig.inputs@) is None,
            },
        decreases sig.inputs.len() - i,
    {
        let ghost suffix = sig.inputs@.subrange(i as int, sig.inputs@.len() as int);
        proof {
            assert(suffix[0] == sig.inputs@[i as int]);
            assert(suffix.drop_first() =~= sig.inputs@.subrange(
                i as int + 1,
                sig.inputs@.len() as int,
            ));
        }
        match &sig.inputs[i] {
            FnArg::Receiver => {},
            FnArg::Typed(p) => {
                match &p.pat {
                    Pat::Ident(name) => {
                        let ghost prev = args@;
                        args.push(name.clone());
                        proof {
                            assert(names_view(args@) =~= names_view(prev).push(name@));
                            let rest2 = caller_args_spec(suffix.drop_first());
                            if rest2 is Some {
                                assert(names_view(prev).push(name@) + rest2->0 =~= names_view(prev)
                                    + (seq![name@] + rest2->0));
                            }
                        }
                    },
                    Pat::Other => {
                        return Result::Err(ExpandError::UnexpectedArgPattern);
                    },
                }
            },
        }
        i = i + 1;
    }
    proof {
        assert(sig.inputs@.subrange(sig.inputs@.len() as int, sig.inputs@.len() as int)
            =~= Seq::<FnArg>::empty());
        assert(names_view(args@) + Seq::<Seq<char>>::empty() =~= names_view(args@));
    }
    Result::Ok(args)
}

/// Concatenating the same prefix in front of two sequences keeps them apart:
/// `a + s == a + t` forces `s == t`.
pub proof fn lemma_concat_left_cancel(a: Seq<char>, s: Seq<char>, t: Seq<char>)
    requires
        a + s == a + t,
    ensures
        s == t,
{
    let u = a + s;
    let v = a + t;
    assert(u.len() == a.len() + s.len());
    assert(v.len() == a.len() + t.len());
    assert(s.len() == t.len());
    assert forall|i: int| 0 <= i < s.len() implies s[i] == t[i] by {
        assert(u[a.len() + i] == s[i]);
        assert(v[a.len() + i] == t[i]);
    }
    assert(s =~= t);
}

/// Two equal-length sequences wrapped in the same prefix and suffix stay
/// apart: `a + s + b == a + t + b` with `|s| == |t|` forces `s == t`.
pub proof fn lemma_concat_middle_cancel(a: Seq<char>, b: Seq<char>, s: Seq<char>, t: Seq<char>)
    requires
        a + s + b == a + t + b,
        s.len() == t.len(),
    ensures
        s == t,
{
    assert forall|i: int| 0 <= i < s.len() implies s[i] == t[i] by {
        assert((a + s + b)[a.len() + i] == s[i]);
        assert((a + t + b)[a.len() + i] == t[i]);
    }
    assert(s =~= t);
}

/// Determinism of name synthesis: the symbol formula is a function of the
/// namespace, trait name and function name alone, so two computations on
/// equal inputs agree. Every cross-unit agreement in the system rests on
/// this.
pub proof fn lemma_extern_fn_name_deterministic(
    ns1: Option<Seq<char>>,
    ns2: Option<Seq<char>>,
    trait1: Seq<char>,
    trait2: Seq<char>,
    fn1: Seq<char>,
    fn2: Seq<char>,
)
    requires
        ns1 == ns2,
        trait1 == trait2,
        fn1 == fn2,
    ensures
        extern_fn_name_spec(ns1, trait1, fn1) == extern_fn_name_spec(ns2, trait2, fn2),
{
}

/// Two methods of one interface get distinct symbols.
pub proof fn lemma_extern_fn_name_fn_injective(
    ns: Option<Seq<char>>,
    trait_name: Seq<char>,
    fn1: Seq<char>,
    fn2: Seq<char>,
)
    requires
        extern_fn_name_spec(ns, trait_name, fn1) == extern_fn_name_spec(ns, trait_name, fn2),
    ensures
        fn1 == fn2,
{
    match ns {
        Option::Some(n) => {
            assert("__"@ + n + "_"@ + trait_name + "_"@ + fn1 =~= ("__"@ + n + "_"@ + trait_name
                + "_"@) + fn1);
            assert("__"@ + n + "_"@ + trait_name + "_"@ + fn2 =~= ("__"@ + n + "_"@ + trait_name
                + "_"@) + fn2);
            lemma_concat_left_cancel("__"@ + n + "_"@ + trait_name + "_"@, fn1, fn2);
        },
        Option::None => {
            assert("__"@ + trait_name + "_"@ + fn1 =~= ("__"@ + trait_name + "_"@) + fn1);
            assert("__"@ + trait_name + "_"@ + fn2 =~= ("__"@ + trait_name + "_"@) + fn2);
            lemma_concat_left_cancel("__"@ + trait_name + "_"@, fn1, fn2);
        },
    }
}

/// Namespace isolation at the symbol level: the same interface and method
/// names under two different namespaces synthesize two different symbols, so
/// the two interfaces cannot capture each other's implementations.
pub proof fn lemma_extern_fn_name_namespace_injective(
    ns1: Seq<char>,
    ns2: Seq<char>,
    trait_name: Seq<char>,
    fn_name: Seq<char>,
)
    requires
        extern_fn_name_spec(Option::Some(ns1), trait_name, fn_name) == extern_fn_name_spec(
            Option::Some(ns2),
            trait_name,
            fn_name,
        ),
    ensures
        ns1 == ns2,
{
    let tail = "_"@ + trait_name + "_"@ + fn_name;
    assert("__"@ + ns1 + "_"@ + trait_name + "_"@ + fn_name =~= "__"@ + ns1 + tail);
    assert("__"@ + ns2 + "_"@ + trait_name + "_"@ + fn_name =~= "__"@ + ns2 + tail);
    assert(ns1.len() == ns2.len()) by {
        assert(("__"@ + ns1 + tail).len() == ("__"@ + ns2 + tail).len());
    }
    lemma_concat_middle_cancel("__"@, tail, ns1, ns2);
}

/// A namespaced symbol never collides with the unqualified symbol of the
/// same interface and method: the namespaced one is strictly longer.
pub proof fn lemma_extern_fn_name_some_differs_from_none(
    ns: Seq<char>,
    trait_name: Seq<char>,
    fn_name: Seq<char>,
)
    requires
        ns.len() > 0,
    ensures
        extern_fn_name_spec(Option::Some(ns), trait_name, fn_name) != extern_fn_name_spec(
            Option::None,
            trait_name,
            fn_name,
        ),
{
    let with_ns = extern_fn_name_spec(Option::Some(ns), trait_name, fn_name);
    let without = extern_fn_name_spec(Option::None, trait_name, fn_name);
    assert(with_ns.len() == "__"@.len() + ns.len() + "_"@.len() + trait_name.len() + "_"@.len()
        + fn_name.len());
    assert(without.len() == "__"@.len() + trait_name.len() + "_"@.len() + fn_name.len());
    reveal_strlit("_");
    assert(with_ns.len() > without.len());
}

/// Two different method names give two different proxy function names.
pub proof fn lemma_self_proxy_name_injective(m1: Seq<char>, m2: Seq<char>)
    requires
        self_proxy_name_spec(m1) == self_proxy_name_spec(m2),
    ensures
        m1 == m2,
{
    lemma_concat_left_cancel("__self_proxy_"@, m1, m2);
}

/// With underscore-free namespaces the symbol formula keeps both the
/// namespace and the method apart at once: the namespace is everything up
/// to the first separator. (A namespace containing an underscore can in
/// principle collide with another pairing — the formula is injective for
/// the names used in practice, and this lemma states exactly when.)
pub proof fn lemma_extern_fn_name_ns_fn_injective(
    ns1: Seq<char>,
    ns2: Seq<char>,
    trait_name: Seq<char>,
    fn1: Seq<char>,
    fn2: Seq<char>,
)
    requires
        forall|k: int| 0 <= k < ns1.len() ==> ns1[k] != '_',
        forall|k: int| 0 <= k < ns2.len() ==> ns2[k] != '_',
        extern_fn_name_spec(Option::Some(ns1), trait_name, fn1) == extern_fn_name_spec(
            Option::Some(ns2),
            trait_name,
            fn2,
        ),
    ensures
        ns1 == ns2,
        fn1 == fn2,
{
    reveal_strlit("__");
    reveal_strlit("_");
    let s1 = extern_fn_name_spec(Option::Some(ns1), trait_name, fn1);
    let s2 = extern_fn_name_spec(Option::Some(ns2), trait_name, fn2);
    if ns1.len() < ns2.len() {
        assert(s1[2 + ns1.len() as int] == '_');
        assert(s2[2 + ns1.len() as int] == ns2[ns1.len() as int]);
        assert(false);
    }
    if ns2.len() < ns1.len() {
        assert(s2[2 + ns2.len() as int] == '_');
        assert(s1[2 + ns2.len() as int] == ns1[ns2.len() as int]);
        assert(false);
    }
    assert forall|k: int| 0 <= k < ns1.len() implies ns1[k] == ns2[k] by {
        assert(s1[2 + k] == ns1[k]);
        assert(s2[2 + k] == ns2[k]);
    }
    assert(ns1 =~= ns2);
    assert(s1 =~= ("__"@ + ns1 + "_"@ + trait_name + "_"@) + fn1);
    assert(s2 =~= ("__"@ + ns1 + "_"@ + trait_name + "_"@) + fn2);
    lemma_concat_left_cancel("__"@ + ns1 + "_"@ + trait_name + "_"@, fn1, fn2);
}

/// Two different trait names give two different alias guards, so an
/// implementation that names the interface through an alias asks for a guard
/// constant the definition never declared.
pub proof fn lemma_alias_guard_name_injective(trait1: Seq<char>, trait2: Seq<char>)
    requires
        alias_guard_name_spec(trait1) == alias_guard_name_spec(trait2),
    ensures
        trait1 == trait2,
{
    lemma_concat_left_cancel("__MustNotAnAlias__"@, trait1, trait2);
}

/// Two different namespaces give two different namespace guards, so a
/// mismatched implementation asks for a guard constant the definition never
/// declared.
pub proof fn lemma_namespace_guard_name_injective(ns1: Seq<char>, ns2: Seq<char>)
    requires
        namespace_guard_name_spec(ns1) == namespace_guard_name_spec(ns2),
    ensures
        ns1 == ns2,
{
    lemma_concat_left_cancel("__NamespaceGuard__"@, ns1, ns2);
}

/// An alias guard never collides with a namespace guard: the two families
/// already differ in their third character.
pub proof fn lemma_guard_families_disjoint(trait_name: Seq<char>, ns: Seq<char>)
    ensures
        alias_guard_name_spec(trait_name) != namespace_guard_name_spec(ns),
{
    reveal_strlit("__MustNotAnAlias__");
    reveal_strlit("__NamespaceGuard__");
    let a = alias_guard_name_spec(trait_name);
    let n = namespace_guard_name_spec(ns);
    assert(a[2] == 'M');
    assert(n[2] == 'N');
}

} // verus!
