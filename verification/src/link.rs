//! The link stage, modelled: collecting every unit's symbol definitions,
//! rejecting duplicate strong definitions, resolving a symbol to the
//! definition the linker would bind — a strong definition beats any weak
//! one — and evaluating a call through the resolved table.
//!
//! This is the semantics of the symbol protocol. Resolution happens by
//! name at call time through the linked table, which is exactly what makes
//! overriding and late binding work: the properties proved in [`crate::laws`]
//! and exercised by the tests all run through this model.

use vstd::prelude::*;

use crate::emit::{ProxyFn, SymbolDef};
use crate::expr::{Expr, Value};

verus! {

/// One compilation unit's contribution to the link: its emitted symbol
/// definitions, weak or strong.
#[derive(Debug)]
pub struct LinkUnit {
    /// The definitions, in emission order.
    pub defs: Vec<SymbolDef>,
}

/// A linked program: every definition of every unit, with no symbol
/// defined strongly twice.
#[derive(Debug)]
pub struct LinkedProgram {
    /// All definitions, in unit order.
    pub defs: Vec<SymbolDef>,
}

/// Linking fails only one way: two units provide a strong definition of
/// the same symbol.
#[derive(Debug, Clone, PartialEq, Eq)]
pub enum LinkError {
    /// A symbol with more than one strong definition; carries the symbol.
    DuplicateSymbol(String),
}

/// The first definition of the given symbol and strength, in unit order.
pub open spec fn first_def_with(defs: Seq<SymbolDef>, s: Seq<char>, weak: bool) -> Option<
    SymbolDef,
>
    decreases defs.len(),
{
    if defs.len() == 0 {
        Option::None
    } else if defs[0].symbol@ == s && defs[0].weak == weak {
        Option::Some(defs[0])
    } else {
        first_def_with(defs.drop_first(), s, weak)
    }
}

/// The definition the linker binds the symbol to: the strong definition if
/// any unit provides one, else the weak one, else nothing — an unresolved
/// symbol, which in the real toolchain is a build failure at the link
/// stage.
pub open spec fn resolve_spec(defs: Seq<SymbolDef>, s: Seq<char>) -> Option<SymbolDef> {
    match first_def_with(defs, s, false) {
        Option::Some(d) => Option::Some(d),
        Option::None => first_def_with(defs, s, true),
    }
}

/// Whether two strong definitions share a symbol: the one situation the
/// link rejects outright.
pub open spec fn has_duplicate_strong(defs: Seq<SymbolDef>) -> bool {
    exists|i: int, j: int|
        0 <= i < j < defs.len() && !defs[i].weak && !defs[j].weak && defs[i].symbol@
            == defs[j].symbol@
}

/// The concatenation of every unit's definitions, in unit order.
pub open spec fn units_defs(us: Seq<LinkUnit>) -> Seq<SymbolDef>
    decreases us.len(),
{
    if us.len() == 0 {
        Seq::empty()
    } else {
        units_defs(us.drop_last()) + us.last().defs@
    }
}

/// Link a set of units: collect every definition and reject a symbol that
/// two units define strongly. Weak definitions never conflict — the linker
/// discards them freely — and resolution itself happens lazily, per
/// symbol, in [`LinkedProgram::resolve`].
pub fn link(units: Vec<LinkUnit>) -> (r: Result<LinkedProgram, LinkError>)
    ensures
        match r {
            Result::Ok(p) => p.defs@ == units_defs(units@) && !has_duplicate_strong(p.defs@),
            Result::Err(e) => {
                &&& has_duplicate_strong(units_defs(units@))
                &&& e matches LinkError::DuplicateSymbol(s)
                &&& exists|i: int, j: int|
                    0 <= i < j < units_defs(units@).len() && !units_defs(units@)[i].weak
                        && !units_defs(units@)[j].weak && units_defs(units@)[i].symbol@ == s@
                        && units_defs(units@)[j].symbol@ == s@
            },
        },
        r is Ok <==> !has_duplicate_strong(units_defs(units@)),
{
    let ghost all_units = units@;
    let mut pending = units;
    let mut all_defs: Vec<SymbolDef> = Vec::new();
    let ghost mut k: int = 0;
    proof {
        assert(all_units.subrange(0, 0) =~= Seq::<LinkUnit>::empty());
        assert(pending@ =~= all_units.subrange(0, all_units.len() as int));
    }
    while pending.len() > 0
        invariant
            0 <= k <= all_units.len(),
            all_units == units@,
            pending@ == all_units.subrange(k, all_units.len() as int),
            all_defs@ == units_defs(all_units.subrange(0, k)),
        decreases pending.len(),
    {
        let mut u = pending.remove(0);
        all_defs.append(&mut u.defs);
        proof {
            let pre = all_units.subrange(0, k);
            let post = all_units.subrange(0, k + 1);
            assert(post.drop_last() =~= pre);
            assert(post.last() == all_units[k]);
            assert(pending@ =~= all_units.subrange(k + 1, all_units.len() as int));
            k = k + 1;
        }
    }
    proof {
        assert(all_units.subrange(0, all_units.len() as int) =~= all_units);
    }
    let mut i: usize = 0;
    while i < all_defs.len()
        invariant
            i <= all_defs.len(),
            all_units == units@,
            all_defs@ == units_defs(all_units),
            forall|a: int, b: int|
                0 <= a < b < all_defs@.len() && b < i ==> !(!all_defs@[a].weak
                    && !all_defs@[b].weak && all_defs@[a].symbol@ == all_defs@[b].symbol@),
        decreases all_defs.len() - i,
    {
        let mut j: usize = 0;
        if !all_defs[i].weak {
            while j < i
                invariant
                    j <= i < all_defs@.len(),
                    all_units == units@,
                    all_defs@ == units_defs(all_units),
                    !all_defs@[i as int].weak,
                    forall|a: int|
                        0 <= a < j ==> !(!all_defs@[a].weak && all_defs@[a].symbol@
                            == all_defs@[i as int].symbol@),
                decreases i - j,
            {
                if !all_defs[j].weak && crate::args::str_eq(
                    all_defs[j].symbol.as_str(),
                    all_defs[i].symbol.as_str(),
                ) {
                    proof {
                        assert(0 <= j < i < all_defs@.len() && !all_defs@[j as int].weak
                            && !all_defs@[i as int].weak && all_defs@[j as int].symbol@
                            == all_defs@[i as int].symbol@);
                        assert(has_duplicate_strong(all_defs@));
                        assert(all_defs@ == units_defs(all_units));
                        assert(all_units == units@);
                    }
                    return Result::Err(LinkError::DuplicateSymbol(all_defs[i].symbol.clone()));
                }
                j = j + 1;
            }
        }
        i = i + 1;
    }
    Result::Ok(LinkedProgram { defs: all_defs })
}

impl LinkedProgram {
    /// Find the first definition of the symbol with the given strength.
    fn find_def(&self, symbol: &str, weak: bool) -> (r: Option<&SymbolDef>)
        ensures
            match first_def_with(self.defs@, symbol@, weak) {
                Option::Some(d) => r matches Option::Some(rd) && *rd == d,
                Option::None => r is None,
            },
    {
        let mut i: usize = 0;
        proof {
            assert(self.defs@.subrange(0, self.defs@.len() as int) =~= self.defs@);
        }
        while i < self.defs.len()
            invariant
                i <= self.defs.len(),
                first_def_with(self.defs@, symbol@, weak) == first_def_with(
                    self.defs@.subrange(i as int, self.defs@.len() as int),
                    symbol@,
                    weak,
                ),
            decreases self.defs.len() - i,
        {
            proof {
                let suffix = self.defs@.subrange(i as int, self.defs@.len() as int);
                assert(suffix[0] == self.defs@[i as int]);
                assert(suffix.drop_first() =~= self.defs@.subrange(
                    i as int + 1,
                    self.defs@.len() as int,
                ));
            }
            if self.defs[i].weak == weak && crate::args::str_eq(
                self.defs[i].symbol.as_str(),
                symbol,
            ) {
                return Option::Some(&self.defs[i]);
            }
            i = i + 1;
        }
        proof {
            assert(self.defs@.subrange(self.defs@.len() as int, self.defs@.len() as int)
                =~= Seq::<SymbolDef>::empty());
        }
        Option::None
    }

    /// Resolve a symbol as the linker would: a strong definition wins over
    /// a weak one; an unbound symbol resolves to nothing.
    pub fn resolve(&self, symbol: &str) -> (r: Option<&SymbolDef>)
        ensures
            match resolve_spec(self.defs@, symbol@) {
                Option::Some(d) => r matches Option::Some(rd) && *rd == d,
                Option::None => r is None,
            },
    {
        match self.find_def(symbol, false) {
            Option::Some(d) => Option::Some(d),
            Option::None => self.find_def(symbol, true),
        }
    }
}

/// Whether any definition of the given symbol and strength exists.
pub open spec fn has_def_with(defs: Seq<SymbolDef>, s: Seq<char>, weak: bool) -> bool {
    exists|i: int| 0 <= i < defs.len() && defs[i].symbol@ == s && defs[i].weak == weak
}

/// A definition of the given symbol and strength is found exactly when one
/// exists.
pub proof fn lemma_first_def_with_iff(defs: Seq<SymbolDef>, s: Seq<char>, weak: bool)
    ensures
        first_def_with(defs, s, weak) is Some <==> has_def_with(defs, s, weak),
    decreases defs.len(),
{
    if defs.len() == 0 {
    } else if defs[0].symbol@ == s && defs[0].weak == weak {
        assert(has_def_with(defs, s, weak));
    } else {
        lemma_first_def_with_iff(defs.drop_first(), s, weak);
        if has_def_with(defs.drop_first(), s, weak) {
            let i = choose|i: int|
                0 <= i < defs.drop_first().len() && defs.drop_first()[i].symbol@ == s
                    && defs.drop_first()[i].weak == weak;
            assert(defs[i + 1] == defs.drop_first()[i]);
            assert(has_def_with(defs, s, weak));
        }
        if has_def_with(defs, s, weak) {
            let i = choose|i: int|
                0 <= i < defs.len() && defs[i].symbol@ == s && defs[i].weak == weak;
            assert(i != 0);
            assert(defs.drop_first()[i - 1] == defs[i]);
            assert(has_def_with(defs.drop_first(), s, weak));
        }
    }
}

/// Searching a concatenation searches the left part first.
pub proof fn lemma_first_def_with_concat(
    a: Seq<SymbolDef>,
    b: Seq<SymbolDef>,
    s: Seq<char>,
    weak: bool,
)
    ensures
        first_def_with(a + b, s, weak) == (match first_def_with(a, s, weak) {
            Option::Some(d) => Option::Some(d),
            Option::None => first_def_with(b, s, weak),
        }),
    decreases a.len(),
{
    if a.len() == 0 {
        assert(a + b =~= b);
    } else {
        assert((a + b)[0] == a[0]);
        assert((a + b).drop_first() =~= a.drop_first() + b);
        lemma_first_def_with_concat(a.drop_first(), b, s, weak);
    }
}

/// The first matching definition is the one at the first matching index.
pub proof fn lemma_first_def_with_at(defs: Seq<SymbolDef>, s: Seq<char>, weak: bool, j: int)
    requires
        0 <= j < defs.len(),
        defs[j].symbol@ == s,
        defs[j].weak == weak,
        forall|i: int| 0 <= i < j ==> !(defs[i].symbol@ == s && defs[i].weak == weak),
    ensures
        first_def_with(defs, s, weak) == Option::Some(defs[j]),
    decreases j,
{
    if j == 0 {
    } else {
        assert(defs.drop_first()[j - 1] == defs[j]);
        assert forall|i: int| 0 <= i < j - 1 implies !(defs.drop_first()[i].symbol@ == s
            && defs.drop_first()[i].weak == weak) by {
            assert(defs.drop_first()[i] == defs[i + 1]);
        }
        lemma_first_def_with_at(defs.drop_first(), s, weak, j - 1);
    }
}

/// No matching definition, nothing found.
pub proof fn lemma_first_def_with_absent(defs: Seq<SymbolDef>, s: Seq<char>, weak: bool)
    requires
        forall|i: int| 0 <= i < defs.len() ==> !(defs[i].symbol@ == s && defs[i].weak == weak),
    ensures
        first_def_with(defs, s, weak) is None,
{
    lemma_first_def_with_iff(defs, s, weak);
    if has_def_with(defs, s, weak) {
        let i = choose|i: int|
            0 <= i < defs.len() && defs[i].symbol@ == s && defs[i].weak == weak;
        assert(false);
    }
}

/// A found definition is an element of the searched sequence and matches
/// the searched symbol and strength.
pub proof fn lemma_first_def_with_mem(defs: Seq<SymbolDef>, s: Seq<char>, weak: bool)
    ensures
        first_def_with(defs, s, weak) matches Option::Some(d) ==> d.symbol@ == s && d.weak == weak
            && exists|i: int| 0 <= i < defs.len() && defs[i] == d,
    decreases defs.len(),
{
    if defs.len() > 0 {
        if defs[0].symbol@ == s && defs[0].weak == weak {
            assert(defs[0] == defs[0]);
        } else {
            lemma_first_def_with_mem(defs.drop_first(), s, weak);
            if first_def_with(defs.drop_first(), s, weak) is Some {
                let d = first_def_with(defs.drop_first(), s, weak)->0;
                let i = choose|i: int| 0 <= i < defs.drop_first().len() && defs.drop_first()[i] == d;
                assert(defs[i + 1] == d);
            }
        }
    }
}

/// Resolution does not depend on the order of the linked parts when no
/// symbol has a strong definition on both sides or a weak definition on
/// both sides.
pub proof fn lemma_resolve_concat_comm(a: Seq<SymbolDef>, b: Seq<SymbolDef>, s: Seq<char>)
    requires
        !(has_def_with(a, s, false) && has_def_with(b, s, false)),
        !(has_def_with(a, s, true) && has_def_with(b, s, true)),
    ensures
        resolve_spec(a + b, s) == resolve_spec(b + a, s),
{
    lemma_first_def_with_concat(a, b, s, false);
    lemma_first_def_with_concat(b, a, s, false);
    lemma_first_def_with_concat(a, b, s, true);
    lemma_first_def_with_concat(b, a, s, true);
    lemma_first_def_with_iff(a, s, false);
    lemma_first_def_with_iff(b, s, false);
    lemma_first_def_with_iff(a, s, true);
    lemma_first_def_with_iff(b, s, true);
}

/// The definitions of a unit holding only weak definitions and a unit
/// holding only strong definitions resolve the same in either order: it
/// does not matter which unit is compiled, or linked, first.
pub proof fn lemma_link_order_irrelevant(a: Seq<SymbolDef>, b: Seq<SymbolDef>, s: Seq<char>)
    requires
        forall|i: int| 0 <= i < a.len() ==> (#[trigger] a[i]).weak,
        forall|i: int| 0 <= i < b.len() ==> !(#[trigger] b[i]).weak,
    ensures
        resolve_spec(a + b, s) == resolve_spec(b + a, s),
{
    if has_def_with(a, s, false) {
        let i = choose|i: int| 0 <= i < a.len() && a[i].symbol@ == s && a[i].weak == false;
        assert(false);
    }
    if has_def_with(b, s, true) {
        let i = choose|i: int| 0 <= i < b.len() && b[i].symbol@ == s && b[i].weak == true;
        assert(false);
    }
    lemma_resolve_concat_comm(a, b, s);
}

/// The definitions of two linked units, spelled out: the bridge between
/// [`link`]'s contract and the per-definition laws.
pub proof fn lemma_units_defs_two(u1: LinkUnit, u2: LinkUnit)
    ensures
        units_defs(seq![u1, u2]) == u1.defs@ + u2.defs@,
{
    let us = seq![u1, u2];
    assert(us.drop_last() =~= seq![u1]);
    assert(us.last() == u2);
    assert(seq![u1].drop_last() =~= Seq::<LinkUnit>::empty());
    assert(seq![u1].last() == u1);
    assert(units_defs(Seq::<LinkUnit>::empty()) == Seq::<SymbolDef>::empty());
    assert(units_defs(seq![u1]) =~= u1.defs@);
}

/// The value bound to a name in an evaluation environment: the first
/// binding wins.
pub open spec fn lookup_env(env: Seq<(String, Value)>, x: Seq<char>) -> Option<Value>
    decreases env.len(),
{
    if env.len() == 0 {
        Option::None
    } else if env[0].0@ == x {
        Option::Some(env[0].1)
    } else {
        lookup_env(env.drop_first(), x)
    }
}

/// The symbol a local proxy function of the given name forwards to.
pub open spec fn lookup_local(locals: Seq<ProxyFn>, x: Seq<char>) -> Option<String>
    decreases locals.len(),
{
    if locals.len() == 0 {
        Option::None
    } else if locals[0].sig.name@ == x {
        Option::Some(locals[0].symbol)
    } else {
        lookup_local(locals.drop_first(), x)
    }
}

/// The environment binding each parameter name to the corresponding
/// argument value.
pub open spec fn mk_env(params: Seq<String>, vs: Seq<Value>) -> Seq<(String, Value)>
    recommends
        params.len() == vs.len(),
{
    Seq::new(params.len(), |i: int| (params[i], vs[i]))
}

/// What one expression evaluates to inside a linked program: the table
/// `defs`, the proxy functions `locals` declared beside the enclosing
/// body, and the parameter environment `env`. Fuel bounds the depth of
/// symbol calls; an exhausted fuel, an unbound name, an unresolved symbol,
/// an arity mismatch, a type confusion and an arithmetic overflow all
/// evaluate to nothing.
pub open spec fn eval_spec(
    defs: Seq<SymbolDef>,
    locals: Seq<ProxyFn>,
    env: Seq<(String, Value)>,
    e: Expr,
    fuel: nat,
) -> Option<Value>
    decreases fuel, e,
{
    match e {
        Expr::IntLit(i) => Option::Some(Value::Int(i)),
        Expr::StrLit(s) => Option::Some(Value::Str(s)),
        Expr::Var(x) => lookup_env(env, x@),
        Expr::Add(a, b) => {
            match (eval_spec(defs, locals, env, *a, fuel), eval_spec(defs, locals, env, *b, fuel)) {
                (Option::Some(Value::Int(x)), Option::Some(Value::Int(y))) => {
                    if i64::MIN <= x + y <= i64::MAX {
                        Option::Some(Value::Int((x + y) as i64))
                    } else {
                        Option::None
                    }
                },
                _ => Option::None,
            }
        },
        Expr::Mul(a, b) => {
            match (eval_spec(defs, locals, env, *a, fuel), eval_spec(defs, locals, env, *b, fuel)) {
                (Option::Some(Value::Int(x)), Option::Some(Value::Int(y))) => {
                    if i64::MIN <= x * y <= i64::MAX {
                        Option::Some(Value::Int((x * y) as i64))
                    } else {
                        Option::None
                    }
                },
                _ => Option::None,
            }
        },
        Expr::SelfPath(_) => Option::None,
        Expr::SymRef(s) => Option::Some(Value::Fun(s)),
        Expr::FnRef(x) => {
            match lookup_local(locals, x@) {
                Option::Some(sym) => Option::Some(Value::Fun(sym)),
                Option::None => Option::None,
            }
        },
        Expr::Call(f, args) => {
            match eval_spec(defs, locals, env, *f, fuel) {
                Option::Some(Value::Fun(s)) => {
                    match eval_list_spec(defs, locals, env, args@, fuel) {
                        Option::Some(vs) => {
                            if fuel == 0 {
                                Option::None
                            } else {
                                match resolve_spec(defs, s@) {
                                    Option::Some(d) => {
                                        if d.params@.len() == vs.len() {
                                            eval_spec(
                                                defs,
                                                d.locals@,
                                                mk_env(d.params@, vs),
                                                d.body,
                                                (fuel - 1) as nat,
                                            )
                                        } else {
                                            Option::None
                                        }
                                    },
                                    Option::None => Option::None,
                                }
                            }
                        },
                        Option::None => Option::None,
                    }
                },
                _ => Option::None,
            }
        },
    }
}

/// What an expression list evaluates to, left to right.
pub open spec fn eval_list_spec(
    defs: Seq<SymbolDef>,
    locals: Seq<ProxyFn>,
    env: Seq<(String, Value)>,
    es: Seq<Expr>,
    fuel: nat,
) -> Option<Seq<Value>>
    decreases fuel, es,
{
    if es.len() == 0 {
        Option::Some(Seq::empty())
    } else {
        match (
            eval_spec(defs, locals, env, es[0], fuel),
            eval_list_spec(defs, locals, env, es.drop_first(), fuel),
        ) {
            (Option::Some(v), Option::Some(vs)) => Option::Some(seq![v] + vs),
            _ => Option::None,
        }
    }
}

/// What calling a symbol with given argument values yields: the resolved
/// definition's body, evaluated under its parameters — the semantics of
/// the rewritten interface call and of every generated forwarding
/// function.
pub open spec fn run_call_spec(
    defs: Seq<SymbolDef>,
    s: Seq<char>,
    vs: Seq<Value>,
    fuel: nat,
) -> Option<Value> {
    if fuel == 0 {
        Option::None
    } else {
        match resolve_spec(defs, s) {
            Option::Some(d) => {
                if d.params@.len() == vs.len() {
                    eval_spec(defs, d.locals@, mk_env(d.params@, vs), d.body, (fuel - 1) as nat)
                } else {
                    Option::None
                }
            },
            Option::None => Option::None,
        }
    }
}

/// Look a name up in an execution environment.
fn lookup_env_exec(env: &Vec<(String, Value)>, x: &str) -> (r: Option<Value>)
    ensures
        r == lookup_env(env@, x@),
{
    let mut i: usize = 0;
    proof {
        assert(env@.subrange(0, env@.len() as int) =~= env@);
    }
    while i < env.len()
        invariant
            i <= env.len(),
            lookup_env(env@, x@) == lookup_env(
                env@.subrange(i as int, env@.len() as int),
                x@,
            ),
        decreases env.len() - i,
    {
        proof {
            let suffix = env@.subrange(i as int, env@.len() as int);
            assert(suffix[0] == env@[i as int]);
            assert(suffix.drop_first() =~= env@.subrange(i as int + 1, env@.len() as int));
        }
        if crate::args::str_eq(env[i].0.as_str(), x) {
            return Option::Some(env[i].1.duplicate());
        }
        i = i + 1;
    }
    proof {
        assert(env@.subrange(env@.len() as int, env@.len() as int)
            =~= Seq::<(String, Value)>::empty());
    }
    Option::None
}

/// Look a proxy function up by name.
fn lookup_local_exec(locals: &Vec<ProxyFn>, x: &str) -> (r: Option<String>)
    ensures
        r == lookup_local(locals@, x@),
{
    let mut i: usize = 0;
    proof {
        assert(locals@.subrange(0, locals@.len() as int) =~= locals@);
    }
    while i < locals.len()
        invariant
            i <= locals.len(),
            lookup_local(locals@, x@) == lookup_local(
                locals@.subrange(i as int, locals@.len() as int),
                x@,
            ),
        decreases locals.len() - i,
    {
        proof {
            let suffix = locals@.subrange(i as int, locals@.len() as int);
            assert(suffix[0] == locals@[i as int]);
            assert(suffix.drop_first() =~= locals@.subrange(
                i as int + 1,
                locals@.len() as int,
            ));
        }
        if crate::args::str_eq(locals[i].sig.name.as_str(), x) {
            return Option::Some(locals[i].symbol.clone());
        }
        i = i + 1;
    }
    proof {
        assert(locals@.subrange(locals@.len() as int, locals@.len() as int)
            =~= Seq::<ProxyFn>::empty());
    }
    Option::None
}

/// Build the environment binding each parameter to its argument value.
fn make_env(params: &Vec<String>, vs: &Vec<Value>) -> (r: Vec<(String, Value)>)
    requires
        params@.len() == vs@.len(),
    ensures
        r@ == mk_env(params@, vs@),
{
    let mut r: Vec<(String, Value)> = Vec::new();
    let mut i: usize = 0;
    while i < params.len()
        invariant
            i <= params.len(),
            params@.len() == vs@.len(),
            r@.len() == i as int,
            forall|k: int| 0 <= k < i ==> r@[k] == (params@[k], vs@[k]),
        decreases params.len() - i,
    {
        r.push((params[i].clone(), vs[i].duplicate()));
        i = i + 1;
    }
    proof {
        assert(r@ =~= mk_env(params@, vs@));
    }
    r
}

/// Evaluate one expression inside a linked program.
pub fn eval(
    program: &LinkedProgram,
    locals: &Vec<ProxyFn>,
    env: &Vec<(String, Value)>,
    e: &Expr,
    fuel: u64,
) -> (r: Option<Value>)
    ensures
        r == eval_spec(program.defs@, locals@, env@, *e, fuel as nat),
    decreases fuel, *e,
{
    match e {
        Expr::IntLit(i) => Option::Some(Value::Int(*i)),
        Expr::StrLit(s) => Option::Some(Value::Str(s.clone())),
        Expr::Var(x) => lookup_env_exec(env, x.as_str()),
        Expr::Add(a, b) => {
            proof {
                assert((*e)->Add_0 == *a && (*e)->Add_1 == *b);
                assert(decreases_to!(*e => (*e)->Add_0));
                assert(decreases_to!(*e => (*e)->Add_1));
            }
            let va = eval(program, locals, env, a, fuel);
            let vb = eval(program, locals, env, b, fuel);
            match (va, vb) {
                (Option::Some(Value::Int(x)), Option::Some(Value::Int(y))) => {
                    match x.checked_add(y) {
                        Option::Some(z) => Option::Some(Value::Int(z)),
                        Option::None => Option::None,
                    }
                },
                _ => Option::None,
            }
        },
        Expr::Mul(a, b) => {
            proof {
                assert((*e)->Mul_0 == *a && (*e)->Mul_1 == *b);
                assert(decreases_to!(*e => (*e)->Mul_0));
                assert(decreases_to!(*e => (*e)->Mul_1));
            }
            let va = eval(program, locals, env, a, fuel);
            let vb = eval(program, locals, env, b, fuel);
            match (va, vb) {
                (Option::Some(Value::Int(x)), Option::Some(Value::Int(y))) => {
                    match x.checked_mul(y) {
                        Option::Some(z) => Option::Some(Value::Int(z)),
                        Option::None => Option::None,
                    }
                },
                _ => Option::None,
            }
        },
        Expr::SelfPath(_) => Option::None,
        Expr::SymRef(s) => Option::Some(Value::Fun(s.clone())),
        Expr::FnRef(x) => {
            match lookup_local_exec(locals, x.as_str()) {
                Option::Some(sym) => Option::Some(Value::Fun(sym)),
                Option::None => Option::None,
            }
        },
        Expr::Call(f, args) => {
            proof {
                assert((*e)->Call_0 == *f && (*e)->Call_1 == *args);
                assert(decreases_to!(*e => (*e)->Call_0));
                assert(decreases_to!(*e => (*e)->Call_1));
            }
            let vf = eval(program, locals, env, f, fuel);
            match vf {
                Option::Some(Value::Fun(s)) => {
                    match eval_list(program, locals, env, args, fuel) {
                        Option::Some(vs) => {
                            if fuel == 0 {
                                Option::None
                            } else {
                                match program.resolve(s.as_str()) {
                                    Option::Some(d) => {
                                        if d.params.len() == vs.len() {
                                            let env2 = make_env(&d.params, &vs);
                                            eval(program, &d.locals, &env2, &d.body, fuel - 1)
                                        } else {
                                            Option::None
                                        }
                                    },
                                    Option::None => Option::None,
                                }
                            }
                        },
                        Option::None => Option::None,
                    }
                },
                _ => Option::None,
            }
        },
    }
}

/// Evaluate an expression list, left to right.
pub fn eval_list(
    program: &LinkedProgram,
    locals: &Vec<ProxyFn>,
    env: &Vec<(String, Value)>,
    es: &Vec<Expr>,
    fuel: u64,
) -> (r: Option<Vec<Value>>)
    ensures
        match eval_list_spec(program.defs@, locals@, env@, es@, fuel as nat) {
            Option::Some(vs) => r matches Option::Some(rv) && rv@ == vs,
            Option::None => r is None,
        },
    decreases fuel, *es,
{
    let mut out: Vec<Value> = Vec::new();
    let mut i: usize = 0;
    proof {
        assert(es@.subrange(0, es@.len() as int) =~= es@);
        if eval_list_spec(program.defs@, locals@, env@, es@, fuel as nat) is Some {
            assert(Seq::<Value>::empty() + eval_list_spec(
                program.defs@,
                locals@,
                env@,
                es@,
                fuel as nat,
            )->0 =~= eval_list_spec(program.defs@, locals@, env@, es@, fuel as nat)->0);
        }
    }
    while i < es.len()
        invariant
            i <= es.len(),
            match eval_list_spec(
                program.defs@,
                locals@,
                env@,
                es@.subrange(i as int, es@.len() as int),
                fuel as nat,
            ) {
                Option::Some(rest) => eval_list_spec(program.defs@, locals@, env@, es@, fuel as nat)
                    == Option::Some(out@ + rest),
                Option::None => eval_list_spec(program.defs@, locals@, env@, es@, fuel as nat)
                    is None,
            },
        decreases es.len() - i,
    {
        proof {
            let suffix = es@.subrange(i as int, es@.len() as int);
            assert(suffix[0] == es@[i as int]);
            assert(suffix.drop_first() =~= es@.subrange(i as int + 1, es@.len() as int));
            assert(decreases_to!(*es => es@));
            assert(decreases_to!(es@ => es@[i as int]));
            assert(decreases_to!(*es => es@[i as int]));
        }
        match eval(program, locals, env, &es[i], fuel) {
            Option::Some(v) => {
                let ghost prev = out@;
                out.push(v);
                proof {
                    let suffix = es@.subrange(i as int, es@.len() as int);
                    let rest2 = eval_list_spec(
                        program.defs@,
                        locals@,
                        env@,
                        es@.subrange(i as int + 1, es@.len() as int),
                        fuel as nat,
                    );
                    if rest2 is Some {
                        assert(prev + (seq![v] + rest2->0) =~= out@ + rest2->0);
                    }
                }
            },
            Option::None => {
                return Option::None;
            },
        }
        i = i + 1;
    }
    proof {
        assert(es@.subrange(es@.len() as int, es@.len() as int) =~= Seq::<Expr>::empty());
        if eval_list_spec(program.defs@, locals@, env@, es@, fuel as nat) is Some {
            assert(out@ + Seq::<Value>::empty() =~= out@);
        }
    }
    Option::Some(out)
}

/// Evaluation only looks at the structure and payloads of an expression:
/// two structurally equal bodies — as an emitted forwarding definition is
/// to the method it forwards to — evaluate to the same value.
pub proof fn lemma_eval_deep_eq(
    defs: Seq<SymbolDef>,
    locals: Seq<ProxyFn>,
    env: Seq<(String, Value)>,
    e1: Expr,
    e2: Expr,
    fuel: nat,
)
    requires
        crate::expr::expr_deep_eq(e1, e2),
    ensures
        eval_spec(defs, locals, env, e1, fuel) == eval_spec(defs, locals, env, e2, fuel),
    decreases fuel, e1,
{
    match (e1, e2) {
        (Expr::Add(a1, b1), Expr::Add(a2, b2)) => {
            lemma_eval_deep_eq(defs, locals, env, *a1, *a2, fuel);
            lemma_eval_deep_eq(defs, locals, env, *b1, *b2, fuel);
        },
        (Expr::Mul(a1, b1), Expr::Mul(a2, b2)) => {
            lemma_eval_deep_eq(defs, locals, env, *a1, *a2, fuel);
            lemma_eval_deep_eq(defs, locals, env, *b1, *b2, fuel);
        },
        (Expr::Call(f1, args1), Expr::Call(f2, args2)) => {
            lemma_eval_deep_eq(defs, locals, env, *f1, *f2, fuel);
            lemma_eval_list_deep_eq(defs, locals, env, args1@, args2@, fuel);
        },
        _ => {},
    }
}

/// Element-wise structural equality carries over to list evaluation.
pub proof fn lemma_eval_list_deep_eq(
    defs: Seq<SymbolDef>,
    locals: Seq<ProxyFn>,
    env: Seq<(String, Value)>,
    es1: Seq<Expr>,
    es2: Seq<Expr>,
    fuel: nat,
)
    requires
        crate::expr::exprs_deep_eq(es1, es2),
    ensures
        eval_list_spec(defs, locals, env, es1, fuel) == eval_list_spec(defs, locals, env, es2, fuel),
    decreases fuel, es1,
{
    if es1.len() > 0 {
        lemma_eval_deep_eq(defs, locals, env, es1[0], es2[0], fuel);
        lemma_eval_list_deep_eq(defs, locals, env, es1.drop_first(), es2.drop_first(), fuel);
    }
}

/// Call a symbol of the linked program with the given argument values:
/// what a rewritten interface call performs at run time.
pub fn run_call(program: &LinkedProgram, symbol: &str, args: Vec<Value>, fuel: u64) -> (r: Option<
    Value,
>)
    ensures
        r == run_call_spec(program.defs@, symbol@, args@, fuel as nat),
{
    if fuel == 0 {
        return Option::None;
    }
    match program.resolve(symbol) {
        Option::Some(d) => {
            if d.params.len() == args.len() {
                let env = make_env(&d.params, &args);
                eval(program, &d.locals, &env, &d.body, fuel - 1)
            } else {
                Option::None
            }
        },
        Option::None => Option::None,
    }
}

} // verus!
