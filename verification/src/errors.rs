//! The build-time errors that an expansion can report.
//!
//! Every detectable misuse of the interface machinery surfaces as one of
//! these values; nothing is retried or recovered. Errors that only the
//! linker can detect (a missing implementation, an alias or namespace
//! mismatch) are deliberately absent: those are deferred to the link stage
//! by design.

use vstd::prelude::*;

verus! {

/// A diagnostic raised while expanding an interface definition, an interface
/// implementation, or an interface call.
#[derive(Debug, Clone, PartialEq, Eq)]
pub enum ExpandError {
    /// A configuration option was given twice; carries the option's name.
    DuplicateArg(String),
    /// A configuration option is not recognized; carries the option's name.
    UnknownArg(String),
    /// A configuration option that needs a value (`namespace = ...`) came
    /// without one; carries the option's name.
    MissingArgValue(String),
    /// A configuration option that takes no value came with one; carries the
    /// option's name.
    UnexpectedArgValue(String),
    /// A signature carries generic parameters, which interfaces reject.
    GenericNotAllowed,
    /// A signature carries an implicit receiver (`self`), which interfaces
    /// reject.
    ReceiverNotAllowed,
    /// A function argument is bound by a pattern that is not a plain
    /// identifier, so no forwarding argument list can be formed.
    UnexpectedArgPattern,
    /// A method has a default body but the weak-default overlay is off;
    /// carries the method's name.
    WeakDefaultRequired(String),
    /// An implementation declaration is not a plain `impl Trait for Type`.
    ExpectTraitImpl,
    /// An interface call path has fewer than two segments.
    ExpectTraitFunc,
    /// The token sequence handed to the call parser does not fit the
    /// `[namespace = X,] path [args]` shape.
    UnexpectedToken,
}

/// Report a configuration option that was given twice.
pub fn duplicate_arg_error(ident: &String) -> (r: ExpandError)
    ensures
        r == ExpandError::DuplicateArg(*ident),
{
    ExpandError::DuplicateArg(ident.clone())
}

/// Report a configuration option that is not recognized.
pub fn unknown_arg_error(ident: &String) -> (r: ExpandError)
    ensures
        r == ExpandError::UnknownArg(*ident),
{
    ExpandError::UnknownArg(ident.clone())
}

/// Report a signature that carries generic parameters.
pub fn generic_not_allowed_error() -> (r: ExpandError)
    ensures
        r == ExpandError::GenericNotAllowed,
{
    ExpandError::GenericNotAllowed
}

/// Report a method whose default body cannot be honoured because the
/// weak-default overlay is off.
pub fn weak_default_required_error(method_name: &String) -> (r: ExpandError)
    ensures
        r == ExpandError::WeakDefaultRequired(*method_name),
{
    ExpandError::WeakDefaultRequired(method_name.clone())
}

} // verus!
