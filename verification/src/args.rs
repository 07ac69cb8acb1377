//! Arguments of the three entry points: the configuration options attached
//! to an interface definition or implementation, and the token sequence of
//! an interface call.
//!
//! The free-form attribute text is tokenized by the front end outside this
//! crate; what reaches these parsers is a list of `key` / `key = value`
//! entries, or, for a call, a flat token sequence. The parsers here decide
//! everything the options mean: which keys exist, that none repeats, which
//! need a value, and how a call's optional namespace clause, path and
//! argument list are carved out.

use vstd::prelude::*;

use crate::errors::{duplicate_arg_error, unknown_arg_error, ExpandError};
use crate::expr::Expr;
use crate::naming::names_view;

verus! {

/// One configuration entry attached to a declaration: a key, optionally
/// with an identifier value (`namespace = Foo`).
#[derive(Debug, Clone)]
pub struct ConfigEntry {
    /// The option's name.
    pub key: String,
    /// The option's value, when one was written.
    pub value: Option<String>,
}

/// Arguments for an interface definition.
#[derive(Debug, Clone, PartialEq, Eq)]
pub struct DefInterfaceArgs {
    /// Generate forwarding caller functions for the members of the
    /// interface.
    pub gen_caller: bool,
    /// Namespace for the interface. Used to avoid name collisions and must
    /// match the one given when implementing.
    pub namespace: Option<String>,
}

/// Arguments for an interface implementation.
#[derive(Debug, Clone, PartialEq, Eq)]
pub struct ImplInterfaceArgs {
    /// Namespace for the interface. Used to avoid name collisions and must
    /// match the one given when defining.
    pub namespace: Option<String>,
}

/// What parsing the definition options yields for a given entry list,
/// processed left to right: the first offending entry decides the error.
pub open spec fn parse_def_args_rec(
    entries: Seq<ConfigEntry>,
    acc: DefInterfaceArgs,
) -> Result<DefInterfaceArgs, ExpandError>
    decreases entries.len(),
{
    if entries.len() == 0 {
        Result::Ok(acc)
    } else {
        let e = entries[0];
        if e.key@ == "gen_caller"@ {
            if acc.gen_caller {
                Result::Err(ExpandError::DuplicateArg(e.key))
            } else if e.value is Some {
                Result::Err(ExpandError::UnexpectedArgValue(e.key))
            } else {
                parse_def_args_rec(
                    entries.drop_first(),
                    DefInterfaceArgs { gen_caller: true, ..acc },
                )
            }
        } else if e.key@ == "namespace"@ {
            if acc.namespace is Some {
                Result::Err(ExpandError::DuplicateArg(e.key))
            } else {
                match e.value {
                    Option::None => Result::Err(ExpandError::MissingArgValue(e.key)),
                    Option::Some(v) => parse_def_args_rec(
                        entries.drop_first(),
                        DefInterfaceArgs { namespace: Option::Some(v), ..acc },
                    ),
                }
            }
        } else {
            Result::Err(ExpandError::UnknownArg(e.key))
        }
    }
}

/// What parsing the definition options yields, starting from the empty
/// configuration.
pub open spec fn parse_def_args_spec(entries: Seq<ConfigEntry>) -> Result<
    DefInterfaceArgs,
    ExpandError,
> {
    parse_def_args_rec(entries, DefInterfaceArgs { gen_caller: false, namespace: Option::None })
}

/// What parsing the implementation options yields: as for a definition, but
/// only `namespace` is recognized.
pub open spec fn parse_impl_args_rec(
    entries: Seq<ConfigEntry>,
    acc: ImplInterfaceArgs,
) -> Result<ImplInterfaceArgs, ExpandError>
    decreases entries.len(),
{
    if entries.len() == 0 {
        Result::Ok(acc)
    } else {
        let e = entries[0];
        if e.key@ == "namespace"@ {
            if acc.namespace is Some {
                Result::Err(ExpandError::DuplicateArg(e.key))
            } else {
                match e.value {
                    Option::None => Result::Err(ExpandError::MissingArgValue(e.key)),
                    Option::Some(v) => parse_impl_args_rec(
                        entries.drop_first(),
                        ImplInterfaceArgs { namespace: Option::Some(v) },
                    ),
                }
            }
        } else {
            Result::Err(ExpandError::UnknownArg(e.key))
        }
    }
}

/// What parsing the implementation options yields, starting from the empty
/// configuration.
pub open spec fn parse_impl_args_spec(entries: Seq<ConfigEntry>) -> Result<
    ImplInterfaceArgs,
    ExpandError,
> {
    parse_impl_args_rec(entries, ImplInterfaceArgs { namespace: Option::None })
}

/// Whether two string slices hold the same characters.
pub fn str_eq(a: &str, b: &str) -> (r: bool)
    ensures
        r == (a@ == b@),
{
    let x = a.to_owned();
    let y = b.to_owned();
    x == y
}

impl DefInterfaceArgs {
    /// Parse the configuration entries of an interface definition,
    /// rejecting unknown options, repeated options, a value on
    /// `gen_caller`, and a missing value on `namespace`.
    pub fn parse(entries: &Vec<ConfigEntry>) -> (r: Result<DefInterfaceArgs, ExpandError>)
        ensures
            r == parse_def_args_spec(entries@),
    {
        let mut gen_caller: bool = false;
        let mut namespace: Option<String> = Option::None;
        let mut i: usize = 0;
        proof {
            assert(entries@.subrange(0, entries@.len() as int) =~= entries@);
        }
        while i < entries.len()
            invariant
                i <= entries.len(),
                parse_def_args_spec(entries@) == parse_def_args_rec(
                    entries@.subrange(i as int, entries@.len() as int),
                    DefInterfaceArgs { gen_caller, namespace },
                ),
            decreases entries.len() - i,
        {
            proof {
                let suffix = entries@.subrange(i as int, entries@.len() as int);
                assert(suffix[0] == entries@[i as int]);
                assert(suffix.drop_first() =~= entries@.subrange(
                    i as int + 1,
                    entries@.len() as int,
                ));
            }
            let e = &entries[i];
            if str_eq(e.key.as_str(), "gen_caller") {
                if gen_caller {
                    return Result::Err(duplicate_arg_error(&e.key));
                }
                if e.value.is_some() {
                    return Result::Err(ExpandError::UnexpectedArgValue(e.key.clone()));
                }
                gen_caller = true;
            } else if str_eq(e.key.as_str(), "namespace") {
                if namespace.is_some() {
                    return Result::Err(duplicate_arg_error(&e.key));
                }
                match &e.value {
                    Option::None => {
                        return Result::Err(ExpandError::MissingArgValue(e.key.clone()));
                    },
                    Option::Some(v) => {
                        namespace = Option::Some(v.clone());
                    },
                }
            } else {
                return Result::Err(unknown_arg_error(&e.key));
            }
            i = i + 1;
        }
        proof {
            assert(entries@.subrange(entries@.len() as int, entries@.len() as int)
                =~= Seq::<ConfigEntry>::empty());
        }
        Result::Ok(DefInterfaceArgs { gen_caller, namespace })
    }
}

impl ImplInterfaceArgs {
    /// Parse the configuration entries of an interface implementation,
    /// rejecting unknown options, a repeated `namespace`, and a missing
    /// value on `namespace`.
    pub fn parse(entries: &Vec<ConfigEntry>) -> (r: Result<ImplInterfaceArgs, ExpandError>)
        ensures
            r == parse_impl_args_spec(entries@),
    {
        let mut namespace: Option<String> = Option::None;
        let mut i: usize = 0;
        proof {
            assert(entries@.subrange(0, entries@.len() as int) =~= entries@);
        }
        while i < entries.len()
            invariant
                i <= entries.len(),
                parse_impl_args_spec(entries@) == parse_impl_args_rec(
                    entries@.subrange(i as int, entries@.len() as int),
                    ImplInterfaceArgs { namespace },
                ),
            decreases entries.len() - i,
        {
            proof {
                let suffix = entries@.subrange(i as int, entries@.len() as int);
                assert(suffix[0] == entries@[i as int]);
                assert(suffix.drop_first() =~= entries@.subrange(
                    i as int + 1,
                    entries@.len() as int,
                ));
            }
            let e = &entries[i];
            if str_eq(e.key.as_str(), "namespace") {
                if namespace.is_some() {
                    return Result::Err(duplicate_arg_error(&e.key));
                }
                match &e.value {
                    Option::None => {
                        return Result::Err(ExpandError::MissingArgValue(e.key.clone()));
                    },
                    Option::Some(v) => {
                        namespace = Option::Some(v.clone());
                    },
                }
            } else {
                return Result::Err(unknown_arg_error(&e.key));
            }
            i = i + 1;
        }
        proof {
            assert(entries@.subrange(entries@.len() as int, entries@.len() as int)
                =~= Seq::<ConfigEntry>::empty());
        }
        Result::Ok(ImplInterfaceArgs { namespace })
    }
}

/// One token of an interface call's input, as the front end hands it over:
/// path segments with separators, the `=` and `,` punctuation, and argument
/// expressions (already parsed, either one by one after a comma or as one
/// parenthesized group).
#[derive(Debug)]
pub enum CallTok {
    /// An identifier: a path segment, the word `namespace`, or a namespace
    /// name.
    Ident(String),
    /// The `::` separator between two path segments.
    PathSep,
    /// The `=` sign of a `namespace = X` clause.
    Eq,
    /// A `,`.
    Comma,
    /// One argument expression of the trailing comma form.
    Arg(Expr),
    /// A parenthesized argument list.
    ParenArgs(Vec<Expr>),
}

/// A parsed interface call: the optional namespace, the path naming the
/// interface and method, and the argument expressions.
#[derive(Debug)]
pub struct CallInterface {
    /// Optional namespace for the interface.
    pub namespace: Option<String>,
    /// Path to the interface method to call.
    pub path: Vec<String>,
    /// Arguments to pass to the interface method.
    pub args: Vec<Expr>,
}

/// Continue a path after its first segment: consume `:: segment` pairs for
/// as long as a separator follows, and return the segments together with
/// the unconsumed tokens.
pub open spec fn parse_path_more_spec(toks: Seq<CallTok>, acc: Seq<Seq<char>>) -> Result<
    (Seq<Seq<char>>, Seq<CallTok>),
    ExpandError,
>
    decreases toks.len(),
{
    if toks.len() >= 1 && toks[0] is PathSep {
        if toks.len() >= 2 {
            match toks[1] {
                CallTok::Ident(s) => parse_path_more_spec(
                    toks.subrange(2, toks.len() as int),
                    acc.push(s@),
                ),
                _ => Result::Err(ExpandError::UnexpectedToken),
            }
        } else {
            Result::Err(ExpandError::UnexpectedToken)
        }
    } else {
        Result::Ok((acc, toks))
    }
}

/// Parse a path of one or more `::`-separated segments from the front of
/// the token sequence.
pub open spec fn parse_path_spec(toks: Seq<CallTok>) -> Result<
    (Seq<Seq<char>>, Seq<CallTok>),
    ExpandError,
> {
    if toks.len() == 0 {
        Result::Err(ExpandError::UnexpectedToken)
    } else {
        match toks[0] {
            CallTok::Ident(s) => parse_path_more_spec(toks.drop_first(), seq![s@]),
            _ => Result::Err(ExpandError::UnexpectedToken),
        }
    }
}

/// Parse a comma-separated argument list: `arg (, arg)* ,?`, possibly
/// empty.
pub open spec fn parse_arg_list_spec(toks: Seq<CallTok>, acc: Seq<Expr>) -> Result<
    Seq<Expr>,
    ExpandError,
>
    decreases toks.len(),
{
    if toks.len() == 0 {
        Result::Ok(acc)
    } else {
        match toks[0] {
            CallTok::Arg(e) => {
                if toks.len() == 1 {
                    Result::Ok(acc.push(e))
                } else if toks[1] is Comma {
                    parse_arg_list_spec(toks.subrange(2, toks.len() as int), acc.push(e))
                } else {
                    Result::Err(ExpandError::UnexpectedToken)
                }
            },
            _ => Result::Err(ExpandError::UnexpectedToken),
        }
    }
}

/// Parse what may follow the call path: nothing, a comma followed by a
/// trailing argument list, or one parenthesized argument list.
pub open spec fn parse_args_spec(toks: Seq<CallTok>) -> Result<Seq<Expr>, ExpandError> {
    if toks.len() == 0 {
        Result::Ok(Seq::empty())
    } else {
        match toks[0] {
            CallTok::Comma => parse_arg_list_spec(toks.drop_first(), Seq::empty()),
            CallTok::ParenArgs(v) => {
                if toks.len() == 1 {
                    Result::Ok(v@)
                } else {
                    Result::Err(ExpandError::UnexpectedToken)
                }
            },
            _ => Result::Err(ExpandError::UnexpectedToken),
        }
    }
}

/// What parsing a whole call input yields: an optional leading
/// `namespace = X ,` clause, then the call path, then the arguments.
///
/// The namespace clause is recognized exactly when the first path is the
/// single segment `namespace`: no interface method call can start that way,
/// since a valid call path has at least two segments.
pub open spec fn parse_call_spec(toks: Seq<CallTok>) -> Result<
    (Option<Seq<char>>, Seq<Seq<char>>, Seq<Expr>),
    ExpandError,
> {
    match parse_path_spec(toks) {
        Result::Err(e) => Result::Err(e),
        Result::Ok((path1, rest)) => {
            if path1.len() == 1 && path1[0] == "namespace"@ {
                if rest.len() >= 3 && rest[0] is Eq && rest[1] is Ident && rest[2] is Comma {
                    match rest[1] {
                        CallTok::Ident(ns) => match parse_path_spec(
                            rest.subrange(3, rest.len() as int),
                        ) {
                            Result::Err(e) => Result::Err(e),
                            Result::Ok((path2, rest2)) => match parse_args_spec(rest2) {
                                Result::Err(e) => Result::Err(e),
                                Result::Ok(args) => Result::Ok(
                                    (Option::Some(ns@), path2, args),
                                ),
                            },
                        },
                        _ => Result::Err(ExpandError::UnexpectedToken),
                    }
                } else {
                    Result::Err(ExpandError::UnexpectedToken)
                }
            } else {
                match parse_args_spec(rest) {
                    Result::Err(e) => Result::Err(e),
                    Result::Ok(args) => Result::Ok((Option::None, path1, args)),
                }
            }
        },
    }
}

/// Consume the continuation of a path from the front of `toks`, extending
/// `path` with every further segment.
fn parse_path_more(toks: &mut Vec<CallTok>, path: &mut Vec<String>) -> (r: Result<
    (),
    ExpandError,
>)
    ensures
        match parse_path_more_spec(old(toks)@, names_view(old(path)@)) {
            Result::Ok((names, rest)) => r is Ok && names_view(final(path)@) == names && final(toks)@ == rest,
            Result::Err(e) => r == Result::<(), ExpandError>::Err(e),
        },
    decreases old(toks)@.len(),
{
    let first_is_sep = if toks.len() >= 1 {
        matches!(&toks[0], CallTok::PathSep)
    } else {
        false
    };
    if !first_is_sep {
        return Result::Ok(());
    }
    if toks.len() < 2 {
        return Result::Err(ExpandError::UnexpectedToken);
    }
    let ghost toks0 = toks@;
    toks.remove(0);
    let second = toks.remove(0);
    proof {
        assert(toks@ =~= toks0.subrange(2, toks0.len() as int));
    }
    match second {
        CallTok::Ident(s) => {
            let ghost path0 = path@;
            path.push(s);
            proof {
                assert(names_view(path@) =~= names_view(path0).push(path@.last()@));
            }
            parse_path_more(toks, path)
        },
        _ => Result::Err(ExpandError::UnexpectedToken),
    }
}

/// Consume one `::`-separated path from the front of `toks`.
fn parse_path(toks: &mut Vec<CallTok>) -> (r: Result<Vec<String>, ExpandError>)
    ensures
        match parse_path_spec(old(toks)@) {
            Result::Ok((names, rest)) => r is Ok && names_view(r->Ok_0@) == names && final(toks)@ == rest,
            Result::Err(e) => r == Result::<Vec<String>, ExpandError>::Err(e),
        },
{
    if toks.len() == 0 {
        return Result::Err(ExpandError::UnexpectedToken);
    }
    let first = toks.remove(0);
    match first {
        CallTok::Ident(s) => {
            let mut path: Vec<String> = Vec::new();
            path.push(s);
            proof {
                assert(names_view(path@) =~= seq![path@[0]@]);
            }
            match parse_path_more(toks, &mut path) {
                Result::Ok(()) => Result::Ok(path),
                Result::Err(e) => Result::Err(e),
            }
        },
        _ => Result::Err(ExpandError::UnexpectedToken),
    }
}

/// Consume a trailing comma-separated argument list, extending `args`.
fn parse_arg_list(toks: &mut Vec<CallTok>, args: &mut Vec<Expr>) -> (r: Result<(), ExpandError>)
    ensures
        match parse_arg_list_spec(old(toks)@, old(args)@) {
            Result::Ok(res) => r is Ok && final(args)@ == res,
            Result::Err(e) => r == Result::<(), ExpandError>::Err(e),
        },
    decreases old(toks)@.len(),
{
    if toks.len() == 0 {
        return Result::Ok(());
    }
    let ghost toks0 = toks@;
    let first = toks.remove(0);
    match first {
        CallTok::Arg(e) => {
            args.push(e);
            if toks.len() == 0 {
                Result::Ok(())
            } else {
                let second = toks.remove(0);
                proof {
                    assert(toks@ =~= toks0.subrange(2, toks0.len() as int));
                }
                match second {
                    CallTok::Comma => parse_arg_list(toks, args),
                    _ => Result::Err(ExpandError::UnexpectedToken),
                }
            }
        },
        _ => Result::Err(ExpandError::UnexpectedToken),
    }
}

/// Consume the argument part of a call input.
fn parse_args(toks: &mut Vec<CallTok>) -> (r: Result<Vec<Expr>, ExpandError>)
    ensures
        match parse_args_spec(old(toks)@) {
            Result::Ok(res) => r is Ok && r->Ok_0@ == res,
            Result::Err(e) => r == Result::<Vec<Expr>, ExpandError>::Err(e),
        },
{
    if toks.len() == 0 {
        return Result::Ok(Vec::new());
    }
    let first = toks.remove(0);
    match first {
        CallTok::Comma => {
            let mut args: Vec<Expr> = Vec::new();
            match parse_arg_list(toks, &mut args) {
                Result::Ok(()) => Result::Ok(args),
                Result::Err(e) => Result::Err(e),
            }
        },
        CallTok::ParenArgs(v) => {
            if toks.len() == 0 {
                Result::Ok(v)
            } else {
                Result::Err(ExpandError::UnexpectedToken)
            }
        },
        _ => Result::Err(ExpandError::UnexpectedToken),
    }
}

impl CallInterface {
    /// Parse a call input: an optional `namespace = X ,` clause, a path of
    /// `::`-separated segments, and the arguments, given either as a
    /// trailing comma list or as one parenthesized list.
    pub fn parse(input: Vec<CallTok>) -> (r: Result<CallInterface, ExpandError>)
        ensures
            match parse_call_spec(input@) {
                Result::Ok((ns, path, args)) => {
                    &&& r is Ok
                    &&& match (r->Ok_0.namespace, ns) {
                        (Option::Some(a), Option::Some(b)) => a@ == b,
                        (Option::None, Option::None) => true,
                        _ => false,
                    }
                    &&& names_view(r->Ok_0.path@) == path
                    &&& r->Ok_0.args@ == args
                },
                Result::Err(e) => r == Result::<CallInterface, ExpandError>::Err(e),
            },
    {
        let mut toks = input;
        let first_path = match parse_path(&mut toks) {
            Result::Ok(p) => p,
            Result::Err(e) => {
                return Result::Err(e);
            },
        };
        let mut namespace: Option<String> = Option::None;
        let mut path = first_path;
        if path.len() == 1 && str_eq(path[0].as_str(), "namespace") {
            let shape_ok = if toks.len() >= 3 {
                let a = matches!(&toks[0], CallTok::Eq);
                let b = matches!(&toks[1], CallTok::Ident(_));
                let c = matches!(&toks[2], CallTok::Comma);
                a && b && c
            } else {
                false
            };
            if !shape_ok {
                return Result::Err(ExpandError::UnexpectedToken);
            }
            let ghost toks1 = toks@;
            toks.remove(0);
            let ns_tok = toks.remove(0);
            toks.remove(0);
            proof {
                assert(toks@ =~= toks1.subrange(3, toks1.len() as int));
            }
            match ns_tok {
                CallTok::Ident(ns) => {
                    namespace = Option::Some(ns);
                },
                _ => {
                    return Result::Err(ExpandError::UnexpectedToken);
                },
            }
            path = match parse_path(&mut toks) {
                Result::Ok(p) => p,
                Result::Err(e) => {
                    return Result::Err(e);
                },
            };
        }
        let args = match parse_args(&mut toks) {
            Result::Ok(a) => a,
            Result::Err(e) => {
                return Result::Err(e);
            },
        };
        Result::Ok(CallInterface { namespace, path, args })
    }
}

} // verus!
