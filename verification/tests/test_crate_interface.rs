//! The basic protocol, driven end to end through the model: define an
//! interface, implement it, link the two units, and call through the
//! rewrite path or through generated callers.

use crate_interface::args::{CallInterface, CallTok, DefInterfaceArgs, ImplInterfaceArgs};
use crate_interface::ast::{
    FnArg, ImplDecl, ImplMethod, InterfaceDecl, Method, Param, Pat, SelfTy, Signature,
};
use crate_interface::call_interface;
use crate_interface::def_interface::def_interface;
use crate_interface::expr::{Expr, Value};
use crate_interface::impl_interface::impl_interface;
use crate_interface::link::{link, run_call, LinkUnit, LinkedProgram};
use crate_interface::naming::{
    alias_guard_name, extern_fn_mod_name, extern_fn_name, namespace_guard_name, self_proxy_name,
};

fn s(x: &str) -> String {
    x.to_string()
}

fn sig(name: &str, params: &[&str], output: Option<&str>) -> Signature {
    Signature {
        name: s(name),
        generics: Vec::new(),
        inputs: params
            .iter()
            .map(|p| FnArg::Typed(Param { pat: Pat::Ident(s(p)), ty: s("i64") }))
            .collect(),
        output: output.map(s),
    }
}

fn method(name: &str, params: &[&str], default: Option<Expr>) -> Method {
    Method { sig: sig(name, params, Some("i64")), default }
}

fn var(name: &str) -> Expr {
    Expr::Var(s(name))
}

fn no_args() -> DefInterfaceArgs {
    DefInterfaceArgs { gen_caller: false, namespace: None }
}

fn link_two(a: Vec<crate_interface::emit::SymbolDef>, b: Vec<crate_interface::emit::SymbolDef>) -> LinkedProgram {
    link(vec![LinkUnit { defs: a }, LinkUnit { defs: b }]).expect("link")
}

fn call(program: &LinkedProgram, ns: Option<&str>, path: &[&str], args: Vec<Value>) -> Option<Value> {
    let cx = call_interface(CallInterface {
        namespace: ns.map(s),
        path: path.iter().map(|p| s(p)).collect(),
        args: Vec::new(),
    })
    .expect("call_interface");
    run_call(program, cx.symbol.as_str(), args, 16)
}

#[test]
fn test_calling_helper_function() {
    // trait WithCallerIf { fn baz(x: i32) -> i32; } with gen_caller,
    // implemented as x + 1: the generated caller `baz` behaves like the
    // implementation.
    let iface = InterfaceDecl {
        name: s("WithCallerIf"),
        generics: Vec::new(),
        methods: vec![method("baz", &["x"], None)],
    };
    let dexp = def_interface(
        iface,
        DefInterfaceArgs { gen_caller: true, namespace: None },
        false,
    )
    .expect("def");
    let imp = ImplDecl {
        trait_path: Some(vec![s("WithCallerIf")]),
        self_ty: SelfTy::Ident(s("WithCallerIfImpl")),
        methods: vec![ImplMethod {
            sig: sig("baz", &["x"], Some("i64")),
            body: Expr::Add(Box::new(var("x")), Box::new(Expr::IntLit(1))),
        }],
    };
    let iexp = impl_interface(imp, ImplInterfaceArgs { namespace: None }).expect("impl");
    let program = link_two(dexp.weak_defs, iexp.strong_defs);
    let baz = &dexp.callers[0];
    assert_eq!(baz.sig.name, "baz");
    assert_eq!(
        run_call(&program, baz.symbol.as_str(), vec![Value::Int(42)], 16),
        Some(Value::Int(43))
    );
}

#[test]
fn test_namespace_interface() {
    // Two interfaces named NamespaceIf, one per namespace, each
    // implemented with its own qux value: the calls do not interfere.
    let make = |ns: &str, val: i64| {
        let iface = InterfaceDecl {
            name: s("NamespaceIf"),
            generics: Vec::new(),
            methods: vec![method("qux", &[], None)],
        };
        let dexp = def_interface(
            iface,
            DefInterfaceArgs { gen_caller: true, namespace: Some(s(ns)) },
            false,
        )
        .expect("def");
        let imp = ImplDecl {
            trait_path: Some(vec![s("NamespaceIf")]),
            self_ty: SelfTy::Ident(s("NamespaceIfImpl")),
            methods: vec![ImplMethod { sig: sig("qux", &[], Some("i64")), body: Expr::IntLit(val) }],
        };
        let iexp = impl_interface(imp, ImplInterfaceArgs { namespace: Some(s(ns)) }).expect("impl");
        (dexp, iexp)
    };
    let (da, ia) = make("A_NS", 1);
    let (db, ib) = make("B_NS", 2);
    let program = link(vec![
        LinkUnit { defs: ia.strong_defs },
        LinkUnit { defs: ib.strong_defs },
    ])
    .expect("link");
    assert_eq!(
        call(&program, Some("A_NS"), &["a", "NamespaceIf", "qux"], vec![]),
        Some(Value::Int(1))
    );
    assert_eq!(
        call(&program, Some("B_NS"), &["b", "NamespaceIf", "qux"], vec![]),
        Some(Value::Int(2))
    );
    assert_eq!(
        run_call(&program, da.callers[0].symbol.as_str(), vec![], 16),
        Some(Value::Int(1))
    );
    assert_eq!(
        run_call(&program, db.callers[0].symbol.as_str(), vec![], 16),
        Some(Value::Int(2))
    );
}

#[test]
fn test_round_trip_simple() {
    // SimpleIf with get_value() -> 12345 and compute(a, b) -> a * b + 10,
    // fully implemented and called through the rewrite path: compute(10, 5)
    // yields 60.
    let iface = InterfaceDecl {
        name: s("SimpleIf"),
        generics: Vec::new(),
        methods: vec![method("get_value", &[], None), method("compute", &["a", "b"], None)],
    };
    let dexp = def_interface(iface, no_args(), false).expect("def");
    assert_eq!(dexp.module_name, "__SimpleIf_mod");
    let imp = ImplDecl {
        trait_path: Some(vec![s("SimpleIf")]),
        self_ty: SelfTy::Ident(s("SimpleImpl")),
        methods: vec![
            ImplMethod { sig: sig("get_value", &[], Some("i64")), body: Expr::IntLit(12345) },
            ImplMethod {
                sig: sig("compute", &["a", "b"], Some("i64")),
                body: Expr::Add(
                    Box::new(Expr::Mul(Box::new(var("a")), Box::new(var("b")))),
                    Box::new(Expr::IntLit(10)),
                ),
            },
        ],
    };
    let iexp = impl_interface(imp, ImplInterfaceArgs { namespace: None }).expect("impl");
    let program = link_two(dexp.weak_defs, iexp.strong_defs);
    assert_eq!(
        call(&program, None, &["SimpleIf", "get_value"], vec![]),
        Some(Value::Int(12345))
    );
    assert_eq!(
        call(
            &program,
            None,
            &["SimpleIf", "compute"],
            vec![Value::Int(10), Value::Int(5)]
        ),
        Some(Value::Int(60))
    );
}

#[test]
fn test_forwarding_caller_matches_call_form() {
    // The generated caller and the explicit call form reach the same
    // symbol and return the same values, input by input.
    let iface = InterfaceDecl {
        name: s("CallerIf"),
        generics: Vec::new(),
        methods: vec![method("add_one", &["x"], None)],
    };
    let dexp = def_interface(
        iface,
        DefInterfaceArgs { gen_caller: true, namespace: None },
        false,
    )
    .expect("def");
    let imp = ImplDecl {
        trait_path: Some(vec![s("CallerIf")]),
        self_ty: SelfTy::Ident(s("CallerImpl")),
        methods: vec![ImplMethod {
            sig: sig("add_one", &["x"], Some("i64")),
            body: Expr::Add(Box::new(var("x")), Box::new(Expr::IntLit(1))),
        }],
    };
    let iexp = impl_interface(imp, ImplInterfaceArgs { namespace: None }).expect("impl");
    let cx = call_interface(CallInterface {
        namespace: None,
        path: vec![s("CallerIf"), s("add_one")],
        args: Vec::new(),
    })
    .expect("call");
    assert_eq!(dexp.callers[0].symbol, cx.symbol);
    let program = link_two(dexp.weak_defs, iexp.strong_defs);
    for x in [-3i64, 0, 7, 99] {
        assert_eq!(
            run_call(&program, dexp.callers[0].symbol.as_str(), vec![Value::Int(x)], 16),
            run_call(&program, cx.symbol.as_str(), vec![Value::Int(x)], 16)
        );
    }
}

#[test]
fn test_namespaced_interface_with_callers() {
    // A namespace and generated callers together: process(input) -> input * 2 + 100.
    let iface = InterfaceDecl {
        name: s("AdvancedIf"),
        generics: Vec::new(),
        methods: vec![method("process", &["input"], None)],
    };
    let dexp = def_interface(
        iface,
        DefInterfaceArgs { gen_caller: true, namespace: Some(s("AdvancedNs")) },
        false,
    )
    .expect("def");
    let imp = ImplDecl {
        trait_path: Some(vec![s("AdvancedIf")]),
        self_ty: SelfTy::Ident(s("AdvancedImpl")),
        methods: vec![ImplMethod {
            sig: sig("process", &["input"], Some("i64")),
            body: Expr::Add(
                Box::new(Expr::Mul(Box::new(var("input")), Box::new(Expr::IntLit(2)))),
                Box::new(Expr::IntLit(100)),
            ),
        }],
    };
    let iexp = impl_interface(imp, ImplInterfaceArgs { namespace: Some(s("AdvancedNs")) })
        .expect("impl");
    assert_eq!(dexp.callers[0].symbol, "__AdvancedNs_AdvancedIf_process");
    let program = link_two(dexp.weak_defs, iexp.strong_defs);
    assert_eq!(
        call(
            &program,
            Some("AdvancedNs"),
            &["AdvancedIf", "process"],
            vec![Value::Int(50)]
        ),
        Some(Value::Int(200))
    );
    assert_eq!(
        run_call(&program, dexp.callers[0].symbol.as_str(), vec![Value::Int(100)], 16),
        Some(Value::Int(300))
    );
}

#[test]
fn test_symbol_formulas() {
    // The synthesized names, letter for letter, and their determinism.
    assert_eq!(extern_fn_name(None, "Tr", "f"), "__Tr_f");
    assert_eq!(extern_fn_name(Some("ns"), "Tr", "f"), "__ns_Tr_f");
    assert_eq!(extern_fn_name(Some("ns"), "Tr", "f"), extern_fn_name(Some("ns"), "Tr", "f"));
    assert_eq!(extern_fn_mod_name("Tr"), "__Tr_mod");
    assert_eq!(alias_guard_name("Tr"), "__MustNotAnAlias__Tr");
    assert_eq!(namespace_guard_name("ns"), "__NamespaceGuard__ns");
    assert_eq!(self_proxy_name("f"), "__self_proxy_f");
}

#[test]
fn test_call_rewrite_keeps_path_prefix() {
    // A call written with a longer scope prefix keeps the prefix, with the
    // interface segment replaced by the declaration module.
    let cx = call_interface(CallInterface {
        namespace: None,
        path: vec![s("outer"), s("inner"), s("SimpleIf"), s("foo")],
        args: Vec::new(),
    })
    .expect("call");
    let q: Vec<&str> = cx.qualifier.iter().map(|x| x.as_str()).collect();
    assert_eq!(q, vec!["outer", "inner", "__SimpleIf_mod"]);
    assert_eq!(cx.symbol, "__SimpleIf_foo");
}

#[test]
fn test_call_parse_forms() {
    // namespace = X, Trait::func with a trailing argument list.
    let toks = vec![
        CallTok::Ident(s("namespace")),
        CallTok::Eq,
        CallTok::Ident(s("A_NS")),
        CallTok::Comma,
        CallTok::Ident(s("NamespaceIf")),
        CallTok::PathSep,
        CallTok::Ident(s("qux")),
        CallTok::Comma,
        CallTok::Arg(Expr::IntLit(3)),
        CallTok::Comma,
        CallTok::Arg(Expr::IntLit(4)),
    ];
    let c = CallInterface::parse(toks).expect("parse");
    assert_eq!(c.namespace.as_deref(), Some("A_NS"));
    assert_eq!(c.path, vec![s("NamespaceIf"), s("qux")]);
    assert_eq!(c.args.len(), 2);
    // Trait::func(args) with a parenthesized list.
    let toks2 = vec![
        CallTok::Ident(s("SimpleIf")),
        CallTok::PathSep,
        CallTok::Ident(s("compute")),
        CallTok::ParenArgs(vec![Expr::IntLit(10), Expr::IntLit(5)]),
    ];
    let c2 = CallInterface::parse(toks2).expect("parse");
    assert_eq!(c2.namespace, None);
    assert_eq!(c2.path, vec![s("SimpleIf"), s("compute")]);
    assert_eq!(c2.args.len(), 2);
}
