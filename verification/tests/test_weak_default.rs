//! The weak-default overlay, driven end to end: defaults fall back to
//! their weak-linked bodies, strong overrides win in either link order,
//! and default bodies that reach siblings through self observe the linked
//! implementation.

use crate_interface::args::{DefInterfaceArgs, ImplInterfaceArgs};
use crate_interface::ast::{
    FnArg, ImplDecl, ImplMethod, InterfaceDecl, Method, Param, Pat, SelfTy, Signature,
};
use crate_interface::call_interface;
use crate_interface::args::CallInterface;
use crate_interface::def_interface::def_interface;
use crate_interface::emit::SymbolDef;
use crate_interface::expr::{Expr, Value};
use crate_interface::impl_interface::impl_interface;
use crate_interface::link::{link, run_call, LinkUnit, LinkedProgram};

fn s(x: &str) -> String {
    x.to_string()
}

fn sig(name: &str, params: &[&str]) -> Signature {
    Signature {
        name: s(name),
        generics: Vec::new(),
        inputs: params
            .iter()
            .map(|p| FnArg::Typed(Param { pat: Pat::Ident(s(p)), ty: s("i64") }))
            .collect(),
        output: Some(s("i64")),
    }
}

fn var(name: &str) -> Expr {
    Expr::Var(s(name))
}

fn self_call(m: &str, args: Vec<Expr>) -> Expr {
    Expr::Call(Box::new(Expr::SelfPath(s(m))), args)
}

fn call(program: &LinkedProgram, path: &[&str], args: Vec<Value>) -> Option<Value> {
    let cx = call_interface(CallInterface {
        namespace: None,
        path: path.iter().map(|p| s(p)).collect(),
        args: Vec::new(),
    })
    .expect("call_interface");
    run_call(program, cx.symbol.as_str(), args, 16)
}

/// trait DefaultMethodIf { default_method() -> 42 (default);
/// default_with_args(a, b) -> a + b (default); required_method() (required) }
fn default_method_if() -> InterfaceDecl {
    InterfaceDecl {
        name: s("DefaultMethodIf"),
        generics: Vec::new(),
        methods: vec![
            Method { sig: sig("default_method", &[]), default: Some(Expr::IntLit(42)) },
            Method {
                sig: sig("default_with_args", &["a", "b"]),
                default: Some(Expr::Add(Box::new(var("a")), Box::new(var("b")))),
            },
            Method { sig: sig("required_method", &[]), default: None },
        ],
    }
}

fn partial_impl() -> ImplDecl {
    ImplDecl {
        trait_path: Some(vec![s("DefaultMethodIf")]),
        self_ty: SelfTy::Ident(s("PartialImpl")),
        methods: vec![ImplMethod { sig: sig("required_method", &[]), body: Expr::IntLit(100) }],
    }
}

#[test]
fn test_weak_default_methods() {
    let dexp = def_interface(
        default_method_if(),
        DefInterfaceArgs { gen_caller: false, namespace: None },
        true,
    )
    .expect("def");
    let iexp = impl_interface(partial_impl(), ImplInterfaceArgs { namespace: None }).expect("impl");
    let program = link(vec![
        LinkUnit { defs: dexp.weak_defs },
        LinkUnit { defs: iexp.strong_defs },
    ])
    .expect("link");
    // The required method returns the implementation's value.
    assert_eq!(
        call(&program, &["DefaultMethodIf", "required_method"], vec![]),
        Some(Value::Int(100))
    );
    // The defaulted methods fall back to the weak default bodies.
    assert_eq!(
        call(&program, &["DefaultMethodIf", "default_method"], vec![]),
        Some(Value::Int(42))
    );
    assert_eq!(
        call(
            &program,
            &["DefaultMethodIf", "default_with_args"],
            vec![Value::Int(10), Value::Int(20)]
        ),
        Some(Value::Int(30))
    );
}

#[test]
fn test_override_precedence() {
    // default_value() left unimplemented returns the default 42; the same
    // interface with the method overridden returns 99 — in either link
    // order.
    fn iface() -> InterfaceDecl {
        InterfaceDecl {
            name: "OverrideIf".to_string(),
            generics: Vec::new(),
            methods: vec![
                Method {
                    sig: sig("default_value", &[]),
                    default: Some(Expr::IntLit(42)),
                },
                Method { sig: sig("required_value", &[]), default: None },
            ],
        }
    }
    let expand = |imp_methods: Vec<ImplMethod>| {
        let dexp = def_interface(
            iface(),
            DefInterfaceArgs { gen_caller: false, namespace: None },
            true,
        )
        .expect("def");
        let iexp = impl_interface(
            ImplDecl {
                trait_path: Some(vec![s("OverrideIf")]),
                self_ty: SelfTy::Ident(s("OverrideImpl")),
                methods: imp_methods,
            },
            ImplInterfaceArgs { namespace: None },
        )
        .expect("impl");
        (dexp.weak_defs, iexp.strong_defs)
    };
    fn partial() -> Vec<ImplMethod> {
        vec![ImplMethod { sig: sig("required_value", &[]), body: Expr::IntLit(7) }]
    }
    fn full() -> Vec<ImplMethod> {
        vec![
            ImplMethod { sig: sig("required_value", &[]), body: Expr::IntLit(7) },
            ImplMethod { sig: sig("default_value", &[]), body: Expr::IntLit(99) },
        ]
    }
    let check = |defs_a: Vec<SymbolDef>, defs_b: Vec<SymbolDef>, expected: i64| {
        let program = link(vec![LinkUnit { defs: defs_a }, LinkUnit { defs: defs_b }])
            .expect("link");
        assert_eq!(
            call(&program, &["OverrideIf", "default_value"], vec![]),
            Some(Value::Int(expected))
        );
    };
    let (w1, s1) = expand(partial());
    check(w1, s1, 42);
    let (w2, s2) = expand(partial());
    check(s2, w2, 42);
    let (w3, s3) = expand(full());
    check(w3, s3, 99);
    let (w4, s4) = expand(full());
    check(s4, w4, 99);
}

/// trait SelfRefIf { base_value() -> 100 (default);
/// derived_value() -> Self::base_value() * 2 (default); required_id() }
fn self_ref_if() -> InterfaceDecl {
    InterfaceDecl {
        name: s("SelfRefIf"),
        generics: Vec::new(),
        methods: vec![
            Method { sig: sig("base_value", &[]), default: Some(Expr::IntLit(100)) },
            Method {
                sig: sig("derived_value", &[]),
                default: Some(Expr::Mul(
                    Box::new(self_call("base_value", vec![])),
                    Box::new(Expr::IntLit(2)),
                )),
            },
            Method { sig: sig("required_id", &[]), default: None },
        ],
    }
}

#[test]
fn test_self_reference_late_binding() {
    // base_value overridden to 500: the default body of derived_value must
    // observe the override through its proxy, yielding 1000.
    let dexp = def_interface(
        self_ref_if(),
        DefInterfaceArgs { gen_caller: false, namespace: None },
        true,
    )
    .expect("def");
    // The rewritten derived_value default carries a proxy for base_value.
    let derived = &dexp.weak_defs[1];
    assert_eq!(derived.locals.len(), 1);
    assert_eq!(derived.locals[0].sig.name, "__self_proxy_base_value");
    assert_eq!(derived.locals[0].symbol, "__SelfRefIf_base_value");
    let iexp = impl_interface(
        ImplDecl {
            trait_path: Some(vec![s("SelfRefIf")]),
            self_ty: SelfTy::Ident(s("SelfRefFullImpl")),
            methods: vec![
                ImplMethod { sig: sig("required_id", &[]), body: Expr::IntLit(2) },
                ImplMethod { sig: sig("base_value", &[]), body: Expr::IntLit(500) },
            ],
        },
        ImplInterfaceArgs { namespace: None },
    )
    .expect("impl");
    let program = link(vec![
        LinkUnit { defs: dexp.weak_defs },
        LinkUnit { defs: iexp.strong_defs },
    ])
    .expect("link");
    assert_eq!(
        call(&program, &["SelfRefIf", "base_value"], vec![]),
        Some(Value::Int(500))
    );
    assert_eq!(
        call(&program, &["SelfRefIf", "derived_value"], vec![]),
        Some(Value::Int(1000))
    );
}

#[test]
fn test_self_reference_defaults() {
    // base_value left at its default 100: derived_value yields 200.
    let dexp = def_interface(
        self_ref_if(),
        DefInterfaceArgs { gen_caller: false, namespace: None },
        true,
    )
    .expect("def");
    let iexp = impl_interface(
        ImplDecl {
            trait_path: Some(vec![s("SelfRefIf")]),
            self_ty: SelfTy::Ident(s("SelfRefPartialImpl")),
            methods: vec![ImplMethod { sig: sig("required_id", &[]), body: Expr::IntLit(1) }],
        },
        ImplInterfaceArgs { namespace: None },
    )
    .expect("impl");
    let program = link(vec![
        LinkUnit { defs: dexp.weak_defs },
        LinkUnit { defs: iexp.strong_defs },
    ])
    .expect("link");
    assert_eq!(
        call(&program, &["SelfRefIf", "derived_value"], vec![]),
        Some(Value::Int(200))
    );
}

#[test]
fn test_indirect_self_reference() {
    // A sibling reached as a value — the callee position of a call — goes
    // through the same proxy and observes the override.
    let iface = InterfaceDecl {
        name: s("RefIf"),
        generics: Vec::new(),
        methods: vec![
            Method {
                sig: sig("transform", &["v"]),
                default: Some(Expr::Add(Box::new(var("v")), Box::new(Expr::IntLit(1)))),
            },
            Method {
                sig: sig("call_via_ref", &["v"]),
                default: Some(self_call("transform", vec![var("v")])),
            },
            Method { sig: sig("required_id", &[]), default: None },
        ],
    };
    let dexp = def_interface(
        iface,
        DefInterfaceArgs { gen_caller: false, namespace: None },
        true,
    )
    .expect("def");
    let iexp = impl_interface(
        ImplDecl {
            trait_path: Some(vec![s("RefIf")]),
            self_ty: SelfTy::Ident(s("RefImpl")),
            methods: vec![
                ImplMethod { sig: sig("required_id", &[]), body: Expr::IntLit(0) },
                ImplMethod {
                    sig: sig("transform", &["v"]),
                    body: Expr::Mul(Box::new(var("v")), Box::new(Expr::IntLit(10))),
                },
            ],
        },
        ImplInterfaceArgs { namespace: None },
    )
    .expect("impl");
    let program = link(vec![
        LinkUnit { defs: dexp.weak_defs },
        LinkUnit { defs: iexp.strong_defs },
    ])
    .expect("link");
    assert_eq!(
        call(&program, &["RefIf", "call_via_ref"], vec![Value::Int(5)]),
        Some(Value::Int(50))
    );
}
