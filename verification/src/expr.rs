//! A small model of the expressions that appear in method bodies.
//!
//! The expansion machinery treats bodies as data: it copies them, rewrites
//! `Self::method` references inside them, and wraps them into symbol
//! definitions. This module gives those bodies enough structure for the
//! rewrites to be stated exactly and for a linked program to be evaluated,
//! which is what lets the override and late-binding behaviour of the symbol
//! protocol be proved rather than assumed.

use vstd::prelude::*;

verus! {

/// One expression of a method body.
#[derive(Debug)]
pub enum Expr {
    /// An integer literal.
    IntLit(i64),
    /// A string literal.
    StrLit(String),
    /// A reference to a parameter of the enclosing function.
    Var(String),
    /// Addition of two sub-expressions.
    Add(Box<Expr>, Box<Expr>),
    /// Multiplication of two sub-expressions.
    Mul(Box<Expr>, Box<Expr>),
    /// A `Self::method` path: a reference to a sibling method of the
    /// enclosing interface through its own abstract self. Only rewritten
    /// default bodies give these a meaning.
    SelfPath(String),
    /// A direct reference to an externally-linked symbol by name.
    SymRef(String),
    /// A reference to a function declared beside the body, such as a
    /// generated proxy function.
    FnRef(String),
    /// A call of a callee expression with an argument list.
    Call(Box<Expr>, Vec<Expr>),
}

/// A run-time value of the evaluated model: what a linked program computes.
#[derive(Debug, Clone, PartialEq, Eq)]
pub enum Value {
    /// An integer.
    Int(i64),
    /// A string.
    Str(String),
    /// A function value: the name of the externally-linked symbol that the
    /// function resolves to.
    Fun(String),
}

impl Value {
    /// An explicit copy whose equality with the original is known to the
    /// verifier.
    pub fn duplicate(&self) -> (r: Value)
        ensures
            r == *self,
    {
        match self {
            Value::Int(i) => Value::Int(*i),
            Value::Str(s) => Value::Str(s.clone()),
            Value::Fun(s) => Value::Fun(s.clone()),
        }
    }
}

/// Structural equality of two expressions. Two separately built expression
/// trees are equal node by node and payload by payload; only the list and
/// box structure may have been rebuilt.
pub open spec fn expr_deep_eq(a: Expr, b: Expr) -> bool
    decreases a,
{
    match (a, b) {
        (Expr::IntLit(x), Expr::IntLit(y)) => x == y,
        (Expr::StrLit(x), Expr::StrLit(y)) => x == y,
        (Expr::Var(x), Expr::Var(y)) => x == y,
        (Expr::Add(a1, a2), Expr::Add(b1, b2)) => expr_deep_eq(*a1, *b1) && expr_deep_eq(*a2, *b2),
        (Expr::Mul(a1, a2), Expr::Mul(b1, b2)) => expr_deep_eq(*a1, *b1) && expr_deep_eq(*a2, *b2),
        (Expr::SelfPath(x), Expr::SelfPath(y)) => x == y,
        (Expr::SymRef(x), Expr::SymRef(y)) => x == y,
        (Expr::FnRef(x), Expr::FnRef(y)) => x == y,
        (Expr::Call(f, a_args), Expr::Call(g, b_args)) => expr_deep_eq(*f, *g) && exprs_deep_eq(
            a_args@,
            b_args@,
        ),
        _ => false,
    }
}

/// Structural equality of two expression lists, element by element.
pub open spec fn exprs_deep_eq(a: Seq<Expr>, b: Seq<Expr>) -> bool
    decreases a,
{
    if a.len() != b.len() {
        false
    } else if a.len() == 0 {
        true
    } else {
        expr_deep_eq(a[0], b[0]) && exprs_deep_eq(a.drop_first(), b.drop_first())
    }
}

impl Expr {
    /// An explicit deep copy, structurally equal to the original.
    pub fn duplicate(&self) -> (r: Expr)
        ensures
            expr_deep_eq(r, *self),
        decreases *self,
    {
        match self {
            Expr::IntLit(i) => Expr::IntLit(*i),
            Expr::StrLit(s) => Expr::StrLit(s.clone()),
            Expr::Var(s) => Expr::Var(s.clone()),
            Expr::Add(a, b) => Expr::Add(Box::new(a.duplicate()), Box::new(b.duplicate())),
            Expr::Mul(a, b) => Expr::Mul(Box::new(a.duplicate()), Box::new(b.duplicate())),
            Expr::SelfPath(s) => Expr::SelfPath(s.clone()),
            Expr::SymRef(s) => Expr::SymRef(s.clone()),
            Expr::FnRef(s) => Expr::FnRef(s.clone()),
            Expr::Call(f, args) => {
                let new_f = Box::new(f.duplicate());
                proof {
                    assert((*self)->Call_1 == *args);
                    assert(decreases_to!(*self => (*self)->Call_1));
                }
                let new_args = duplicate_exprs(args);
                Expr::Call(new_f, new_args)
            },
        }
    }
}

/// An explicit deep copy of an expression list, structurally equal to the
/// original element by element.
pub fn duplicate_exprs(es: &Vec<Expr>) -> (r: Vec<Expr>)
    ensures
        exprs_deep_eq(r@, es@),
    decreases *es,
{
    let mut new_es: Vec<Expr> = Vec::new();
    let mut i: usize = 0;
    while i < es.len()
        invariant
            i <= es.len(),
            new_es@.len() == i as int,
            exprs_deep_eq(new_es@, es@.subrange(0, i as int)),
        decreases es.len() - i,
    {
        proof {
            assert(decreases_to!(*es => es@));
            assert(decreases_to!(es@ => es@[i as int]));
            assert(decreases_to!(*es => es@[i as int]));
        }
        let ghost prev = new_es@;
        let d = es[i].duplicate();
        new_es.push(d);
        proof {
            lemma_exprs_deep_eq_push(prev, es@.subrange(0, i as int), d, es@[i as int]);
            assert(es@.subrange(0, i as int).push(es@[i as int]) =~= es@.subrange(
                0,
                i as int + 1,
            ));
        }
        i = i + 1;
    }
    proof {
        assert(es@.subrange(0, es@.len() as int) =~= es@);
    }
    new_es
}

/// Appending structurally equal elements keeps two expression lists
/// structurally equal.
pub proof fn lemma_exprs_deep_eq_push(a: Seq<Expr>, b: Seq<Expr>, x: Expr, y: Expr)
    requires
        exprs_deep_eq(a, b),
        expr_deep_eq(x, y),
    ensures
        exprs_deep_eq(a.push(x), b.push(y)),
    decreases a.len(),
{
    assert(a.len() == b.len());
    if a.len() == 0 {
        assert(a.push(x)[0] == x);
        assert(b.push(y)[0] == y);
        assert(a.push(x).drop_first() =~= Seq::<Expr>::empty());
        assert(b.push(y).drop_first() =~= Seq::<Expr>::empty());
        assert(exprs_deep_eq(a.push(x).drop_first(), b.push(y).drop_first()));
        assert(exprs_deep_eq(a.push(x), b.push(y)));
    } else {
        lemma_exprs_deep_eq_push(a.drop_first(), b.drop_first(), x, y);
        assert(a.push(x).drop_first() =~= a.drop_first().push(x));
        assert(b.push(y).drop_first() =~= b.drop_first().push(y));
        assert(a.push(x)[0] == a[0]);
        assert(b.push(y)[0] == b[0]);
        assert(exprs_deep_eq(a.push(x), b.push(y)));
    }
}

} // verus!
