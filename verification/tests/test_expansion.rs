//! The build-error surface and the emitted artifacts: option parsing,
//! signature validation, guard constants, link conflicts, and the edges of
//! the evaluation model.

use crate_interface::args::{CallInterface, CallTok, ConfigEntry, DefInterfaceArgs, ImplInterfaceArgs};
use crate_interface::ast::{
    FnArg, ImplDecl, ImplMethod, InterfaceDecl, Method, Param, Pat, SelfTy, Signature,
};
use crate_interface::call_interface;
use crate_interface::def_interface::def_interface;
use crate_interface::errors::ExpandError;
use crate_interface::expr::{Expr, Value};
use crate_interface::impl_interface::impl_interface;
use crate_interface::link::{link, run_call, LinkError, LinkUnit};
use crate_interface::naming::extract_caller_args;
use crate_interface::validator::validate_fn_signature;

fn s(x: &str) -> String {
    x.to_string()
}

fn entry(key: &str, value: Option<&str>) -> ConfigEntry {
    ConfigEntry { key: s(key), value: value.map(s) }
}

fn sig(name: &str, params: &[&str]) -> Signature {
    Signature {
        name: s(name),
        generics: Vec::new(),
        inputs: params
            .iter()
            .map(|p| FnArg::Typed(Param { pat: Pat::Ident(s(p)), ty: s("i64") }))
            .collect(),
        output: Some(s("i64")),
    }
}

#[test]
fn test_def_args_parsing() {
    let ok = DefInterfaceArgs::parse(&vec![entry("gen_caller", None), entry("namespace", Some("Ns"))])
        .expect("parse");
    assert!(ok.gen_caller);
    assert_eq!(ok.namespace.as_deref(), Some("Ns"));
    let empty = DefInterfaceArgs::parse(&vec![]).expect("parse");
    assert!(!empty.gen_caller);
    assert_eq!(empty.namespace, None);
    assert_eq!(
        DefInterfaceArgs::parse(&vec![entry("gen_caller", None), entry("gen_caller", None)]),
        Err(ExpandError::DuplicateArg(s("gen_caller")))
    );
    assert_eq!(
        DefInterfaceArgs::parse(&vec![entry("wrong", None)]),
        Err(ExpandError::UnknownArg(s("wrong")))
    );
    assert_eq!(
        DefInterfaceArgs::parse(&vec![entry("namespace", None)]),
        Err(ExpandError::MissingArgValue(s("namespace")))
    );
    assert_eq!(
        DefInterfaceArgs::parse(&vec![entry("gen_caller", Some("x"))]),
        Err(ExpandError::UnexpectedArgValue(s("gen_caller")))
    );
}

#[test]
fn test_impl_args_parsing() {
    let ok = ImplInterfaceArgs::parse(&vec![entry("namespace", Some("Ns"))]).expect("parse");
    assert_eq!(ok.namespace.as_deref(), Some("Ns"));
    assert_eq!(
        ImplInterfaceArgs::parse(&vec![entry("gen_caller", None)]),
        Err(ExpandError::UnknownArg(s("gen_caller")))
    );
    assert_eq!(
        ImplInterfaceArgs::parse(&vec![
            entry("namespace", Some("A")),
            entry("namespace", Some("B")),
        ]),
        Err(ExpandError::DuplicateArg(s("namespace")))
    );
}

#[test]
fn test_signature_validation() {
    assert!(validate_fn_signature(&sig("ok", &["a"])).is_ok());
    let mut generic = sig("bad", &[]);
    generic.generics.push(s("T"));
    assert_eq!(validate_fn_signature(&generic), Err(ExpandError::GenericNotAllowed));
    let mut with_receiver = sig("bad", &[]);
    with_receiver.inputs.insert(0, FnArg::Receiver);
    assert_eq!(validate_fn_signature(&with_receiver), Err(ExpandError::ReceiverNotAllowed));
}

#[test]
fn test_caller_args_extraction() {
    let names = extract_caller_args(&sig("f", &["a", "b"])).expect("extract");
    assert_eq!(names, vec![s("a"), s("b")]);
    let mut bad = sig("f", &[]);
    bad.inputs.push(FnArg::Typed(Param { pat: Pat::Other, ty: s("(u8, u8)") }));
    assert_eq!(extract_caller_args(&bad), Err(ExpandError::UnexpectedArgPattern));
}

#[test]
fn test_def_interface_rejections() {
    // A generic interface is rejected outright.
    let generic_iface = InterfaceDecl {
        name: s("G"),
        generics: vec![s("T")],
        methods: Vec::new(),
    };
    let r = def_interface(generic_iface, DefInterfaceArgs { gen_caller: false, namespace: None }, true);
    assert!(matches!(r, Err(ExpandError::GenericNotAllowed)));
    // A generic method is rejected.
    let mut m = Method { sig: sig("f", &[]), default: None };
    m.sig.generics.push(s("T"));
    let iface = InterfaceDecl { name: s("I"), generics: Vec::new(), methods: vec![m] };
    let r = def_interface(iface, DefInterfaceArgs { gen_caller: false, namespace: None }, true);
    assert!(matches!(r, Err(ExpandError::GenericNotAllowed)));
    // A receiver is rejected.
    let mut m = Method { sig: sig("f", &[]), default: None };
    m.sig.inputs.insert(0, FnArg::Receiver);
    let iface = InterfaceDecl { name: s("I"), generics: Vec::new(), methods: vec![m] };
    let r = def_interface(iface, DefInterfaceArgs { gen_caller: false, namespace: None }, true);
    assert!(matches!(r, Err(ExpandError::ReceiverNotAllowed)));
    // A default body without the overlay is a hard error naming the method.
    let iface = InterfaceDecl {
        name: s("I"),
        generics: Vec::new(),
        methods: vec![Method { sig: sig("with_default", &[]), default: Some(Expr::IntLit(1)) }],
    };
    let r = def_interface(iface, DefInterfaceArgs { gen_caller: false, namespace: None }, false);
    assert_eq!(r.err(), Some(ExpandError::WeakDefaultRequired(s("with_default"))));
}

#[test]
fn test_impl_interface_rejections() {
    // Not a trait implementation.
    let not_trait = ImplDecl { trait_path: None, self_ty: SelfTy::Ident(s("X")), methods: Vec::new() };
    assert!(matches!(
        impl_interface(not_trait, ImplInterfaceArgs { namespace: None }),
        Err(ExpandError::ExpectTraitImpl)
    ));
    // Not a plain type path as the implementing type.
    let odd_self = ImplDecl {
        trait_path: Some(vec![s("I")]),
        self_ty: SelfTy::Other,
        methods: Vec::new(),
    };
    assert!(matches!(
        impl_interface(odd_self, ImplInterfaceArgs { namespace: None }),
        Err(ExpandError::ExpectTraitImpl)
    ));
    // A receiver in a method is rejected on the implementation side too.
    let mut m = ImplMethod { sig: sig("f", &[]), body: Expr::IntLit(0) };
    m.sig.inputs.insert(0, FnArg::Receiver);
    let imp = ImplDecl {
        trait_path: Some(vec![s("I")]),
        self_ty: SelfTy::Ident(s("X")),
        methods: vec![m],
    };
    assert!(matches!(
        impl_interface(imp, ImplInterfaceArgs { namespace: None }),
        Err(ExpandError::ReceiverNotAllowed)
    ));
}

#[test]
fn test_call_path_too_short() {
    let r = call_interface(CallInterface { namespace: None, path: vec![s("foo")], args: Vec::new() });
    assert!(matches!(r, Err(ExpandError::ExpectTraitFunc)));
}

#[test]
fn test_call_parse_rejects_malformed() {
    // A separator with nothing after it.
    let r = CallInterface::parse(vec![CallTok::Ident(s("A")), CallTok::PathSep]);
    assert!(matches!(r, Err(ExpandError::UnexpectedToken)));
    // A namespace clause missing its value.
    let r = CallInterface::parse(vec![CallTok::Ident(s("namespace")), CallTok::Eq]);
    assert!(matches!(r, Err(ExpandError::UnexpectedToken)));
    // Trailing tokens after a parenthesized list.
    let r = CallInterface::parse(vec![
        CallTok::Ident(s("A")),
        CallTok::PathSep,
        CallTok::Ident(s("f")),
        CallTok::ParenArgs(Vec::new()),
        CallTok::Comma,
    ]);
    assert!(matches!(r, Err(ExpandError::UnexpectedToken)));
}

#[test]
fn test_guard_constants() {
    let iface = InterfaceDecl {
        name: s("GuardIf"),
        generics: Vec::new(),
        methods: vec![Method { sig: sig("f", &[]), default: None }],
    };
    let dexp = def_interface(
        iface,
        DefInterfaceArgs { gen_caller: false, namespace: Some(s("Ns")) },
        false,
    )
    .expect("def");
    // The definition declares the alias guard with a value and the
    // namespace guard without one, forcing implementations to provide it.
    assert_eq!(dexp.guards.len(), 2);
    assert_eq!(dexp.guards[0].name, "__MustNotAnAlias__GuardIf");
    assert!(dexp.guards[0].has_value);
    assert_eq!(dexp.guards[1].name, "__NamespaceGuard__Ns");
    assert!(!dexp.guards[1].has_value);
    let iexp = impl_interface(
        ImplDecl {
            trait_path: Some(vec![s("GuardIf")]),
            self_ty: SelfTy::Ident(s("GuardImpl")),
            methods: vec![ImplMethod { sig: sig("f", &[]), body: Expr::IntLit(0) }],
        },
        ImplInterfaceArgs { namespace: Some(s("Ns")) },
    )
    .expect("impl");
    // A matching implementation provides both guards, under the same names.
    assert_eq!(iexp.guards.len(), 2);
    assert_eq!(iexp.guards[0].name, dexp.guards[0].name);
    assert_eq!(iexp.guards[1].name, dexp.guards[1].name);
    assert!(iexp.guards[0].has_value && iexp.guards[1].has_value);
    // Under an alias or a different namespace the names no longer match.
    let aliased = impl_interface(
        ImplDecl {
            trait_path: Some(vec![s("GuardIf2")]),
            self_ty: SelfTy::Ident(s("GuardImpl")),
            methods: Vec::new(),
        },
        ImplInterfaceArgs { namespace: Some(s("OtherNs")) },
    )
    .expect("impl");
    assert_ne!(aliased.guards[0].name, dexp.guards[0].name);
    assert_ne!(aliased.guards[1].name, dexp.guards[1].name);
}

#[test]
fn test_link_rejects_duplicate_strong() {
    let iface = |name: &str| InterfaceDecl {
        name: s(name),
        generics: Vec::new(),
        methods: vec![Method { sig: sig("f", &[]), default: None }],
    };
    let imp = |val: i64| ImplDecl {
        trait_path: Some(vec![s("DupIf")]),
        self_ty: SelfTy::Ident(s("DupImpl")),
        methods: vec![ImplMethod { sig: sig("f", &[]), body: Expr::IntLit(val) }],
    };
    let _ = iface("DupIf");
    let e1 = impl_interface(imp(1), ImplInterfaceArgs { namespace: None }).expect("impl");
    let e2 = impl_interface(imp(2), ImplInterfaceArgs { namespace: None }).expect("impl");
    let r = link(vec![LinkUnit { defs: e1.strong_defs }, LinkUnit { defs: e2.strong_defs }]);
    assert_eq!(r.err(), Some(LinkError::DuplicateSymbol(s("__DupIf_f"))));
}

#[test]
fn test_evaluation_edges() {
    let program = link(vec![]).expect("link");
    // An unresolved symbol evaluates to nothing: the model's analogue of
    // an unresolved-symbol link failure.
    assert_eq!(run_call(&program, "__Missing_f", vec![], 16), None);
    // Arity mismatches and overflow evaluate to nothing.
    let imp = ImplDecl {
        trait_path: Some(vec![s("EdgeIf")]),
        self_ty: SelfTy::Ident(s("EdgeImpl")),
        methods: vec![ImplMethod {
            sig: sig("double", &["x"]),
            body: Expr::Mul(Box::new(Expr::Var(s("x"))), Box::new(Expr::IntLit(2))),
        }],
    };
    let iexp = impl_interface(imp, ImplInterfaceArgs { namespace: None }).expect("impl");
    let program = link(vec![LinkUnit { defs: iexp.strong_defs }]).expect("link");
    assert_eq!(run_call(&program, "__EdgeIf_double", vec![], 16), None);
    assert_eq!(
        run_call(&program, "__EdgeIf_double", vec![Value::Int(21)], 16),
        Some(Value::Int(42))
    );
    assert_eq!(run_call(&program, "__EdgeIf_double", vec![Value::Int(i64::MAX)], 16), None);
    // Exhausted fuel evaluates to nothing.
    assert_eq!(run_call(&program, "__EdgeIf_double", vec![Value::Int(1)], 0), None);
}

#[test]
fn test_string_values() {
    let imp = ImplDecl {
        trait_path: Some(vec![s("NameIf")]),
        self_ty: SelfTy::Ident(s("NameImpl")),
        methods: vec![ImplMethod {
            sig: sig("get_name", &[]),
            body: Expr::StrLit(s("SimpleImpl")),
        }],
    };
    let iexp = impl_interface(imp, ImplInterfaceArgs { namespace: None }).expect("impl");
    let program = link(vec![LinkUnit { defs: iexp.strong_defs }]).expect("link");
    assert_eq!(
        run_call(&program, "__NameIf_get_name", vec![], 16),
        Some(Value::Str(s("SimpleImpl")))
    );
}

#[test]
fn test_lite_symbol_formula() {
    assert_eq!(crate_interface::lite::lite_extern_fn_name("SimpleIf", "foo"), "__SimpleIf__foo");
    let _ = crate_interface::lite::DefaultImpl;
}
