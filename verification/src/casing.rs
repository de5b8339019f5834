//! Lower case, as `str::to_lowercase` makes it.
//!
//! Nothing in this file is proved: the function hands a call on to std, and
//! its contract gives the outcome a name.

use vstd::prelude::*;

verus! {

/// What `str::to_lowercase` returns for the text `s`: each character is
/// replaced by its lower-case form as Unicode defines it.
pub uninterp spec fn lowercase(s: Seq<char>) -> Seq<char>;

/// Calls `str::to_lowercase`. The contract only names the outcome: it is
/// `lowercase` of the text of `s`, whatever that is.
#[verifier::external_body]
pub(crate) fn lowercase_of(s: &str) -> (r: String)
    ensures
        r@ == lowercase(s@),
{
    s.to_lowercase()
}

} // verus!
