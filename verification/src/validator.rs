//! Signature validation.
//!
//! Interfaces are monomorphic and receiver-free by design: the link-time
//! contract is one concrete external symbol per method, not a family, and a
//! stateful receiver has no place in a symbol call. The same check runs when
//! defining and when implementing an interface, since both sides must
//! produce byte-identical external signatures.

use vstd::prelude::*;

use crate::ast::{has_receiver, sig_is_valid, FnArg, Signature};
use crate::errors::{generic_not_allowed_error, ExpandError};

verus! {

/// Validate a function signature, rejecting generic parameters and
/// receivers. Generic parameters are reported first; otherwise the first
/// receiver is reported. A valid signature passes unchanged — validation
/// never degrades to a partial expansion.
pub fn validate_fn_signature(sig: &Signature) -> (r: Result<(), ExpandError>)
    ensures
        r is Ok <==> sig_is_valid(*sig),
        sig.generics@.len() > 0 ==> r == Result::<(), ExpandError>::Err(
            ExpandError::GenericNotAllowed,
        ),
        sig.generics@.len() == 0 && has_receiver(sig.inputs@) ==> r == Result::<
            (),
            ExpandError,
        >::Err(ExpandError::ReceiverNotAllowed),
{
    if sig.generics.len() > 0 {
        return Result::Err(generic_not_allowed_error());
    }
    let mut i: usize = 0;
    while i < sig.inputs.len()
        invariant
            i <= sig.inputs.len(),
            sig.generics@.len() == 0,
            forall|j: int| 0 <= j < i ==> !(sig.inputs@[j] is Receiver),
        decreases sig.inputs.len() - i,
    {
        if let FnArg::Receiver = &sig.inputs[i] {
            return Result::Err(ExpandError::ReceiverNotAllowed);
        }
        i = i + 1;
    }
    Result::Ok(())
}

} // verus!
