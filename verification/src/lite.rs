//! The lighter dialect of the protocol: no namespaces, no weak defaults,
//! no guards, and a symbol formula of its own with a double-underscore
//! separator. Calls in this dialect dispatch through a stand-in
//! implementer type instead of a rewritten path expression: the interface
//! is implemented once for [`DefaultImpl`], with every method forwarding
//! to the external symbol, and a call resolves the method on that
//! implementation.

use vstd::prelude::*;

use crate::naming::lemma_concat_left_cancel;

verus! {

/// The stand-in implementer: the type on which the dialect's generated
/// interface implementation hangs, so that a call site can name a method
/// without naming any concrete implementation.
#[derive(Debug, Clone, Copy, PartialEq, Eq)]
pub struct DefaultImpl;

/// The dialect's external symbol name: `__{trait}__{fn}`, with a
/// double-underscore separator.
pub open spec fn lite_extern_fn_name_spec(trait_name: Seq<char>, fn_name: Seq<char>) -> Seq<
    char,
> {
    "__"@ + trait_name + "__"@ + fn_name
}

/// Generate the dialect's external symbol name for one interface method.
pub fn lite_extern_fn_name(trait_name: &str, fn_name: &str) -> (r: String)
    ensures
        r@ == lite_extern_fn_name_spec(trait_name@, fn_name@),
{
    let mut s = String::new();
    s.append("__");
    s.append(trait_name);
    s.append("__");
    s.append(fn_name);
    proof {
        assert(s@ =~= lite_extern_fn_name_spec(trait_name@, fn_name@));
    }
    s
}

/// Two methods of one interface get distinct symbols in this dialect too.
pub proof fn lemma_lite_extern_fn_name_fn_injective(
    trait_name: Seq<char>,
    fn1: Seq<char>,
    fn2: Seq<char>,
)
    requires
        lite_extern_fn_name_spec(trait_name, fn1) == lite_extern_fn_name_spec(trait_name, fn2),
    ensures
        fn1 == fn2,
{
    assert(lite_extern_fn_name_spec(trait_name, fn1) =~= ("__"@ + trait_name + "__"@) + fn1);
    assert(lite_extern_fn_name_spec(trait_name, fn2) =~= ("__"@ + trait_name + "__"@) + fn2);
    lemma_concat_left_cancel("__"@ + trait_name + "__"@, fn1, fn2);
}

} // verus!
