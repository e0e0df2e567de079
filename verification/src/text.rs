//! Operations on text that the mappers and the field readers share.

use vstd::prelude::*;

verus! {

/// The upper-case form of a text, as `str::to_uppercase` computes it.
pub uninterp spec fn uppercase_of(s: Seq<char>) -> Seq<char>;

/// `str::to_uppercase`: the result is the upper-case form of the argument.
/// Nothing else is claimed of that form.
#[verifier::external_body]
pub(crate) fn to_upper(s: &str) -> (r: String)
    ensures
        r@ == uppercase_of(s@),
{
    s.to_uppercase()
}

/// Whether two texts hold the same characters in the same order.
pub(crate) fn same_text(a: &str, b: &str) -> (r: bool)
    ensures
        r == (a@ == b@),
{
    let x = a.to_owned();
    let y = b.to_owned();
    x == y
}

} // verus!
