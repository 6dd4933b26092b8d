//! Upper case, as std computes it.
//!
//! Nothing in this file is proved: it gives a name to what `str::to_uppercase`
//! returns, and states that the call returns it.

use vstd::prelude::*;

verus! {

/// The upper-case form of a text, as `str::to_uppercase` gives it. It follows
/// Unicode, so it may be longer than the text.
pub uninterp spec fn uppercase(text: Seq<char>) -> Seq<char>;

/// `str::to_uppercase` of std: the upper-case form of the text.
#[verifier::external_body]
pub(crate) fn to_upper(text: &str) -> (upper: String)
    ensures
        upper@ == uppercase(text@),
{
    text.to_uppercase()
}

} // verus!
