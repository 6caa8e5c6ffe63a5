//! The two Unicode-table operations of the standard library that the bot
//! leans on. Their results are named, not defined: the proofs of this crate
//! hold for whatever the tables say.

use vstd::prelude::*;

verus! {

/// What `str::to_uppercase` returns for the text `s`.
pub uninterp spec fn uppercase(s: Seq<char>) -> Seq<char>;

/// What `str::trim` returns for the text `s`.
pub uninterp spec fn trimmed(s: Seq<char>) -> Seq<char>;

/// Calls `str::to_uppercase`. Believed, not proved: the result depends on
/// the text alone, so it is `uppercase` of it.
#[verifier::external_body]
pub(crate) fn to_uppercase(s: &str) -> (upper: String)
    ensures
        upper@ == uppercase(s@),
{
    s.to_uppercase()
}

/// Calls `str::trim`. Believed, not proved: the result depends on the text
/// alone, so it is `trimmed` of it.
#[verifier::external_body]
pub(crate) fn trim(s: &str) -> (inner: &str)
    ensures
        inner@ == trimmed(s@),
{
    s.trim()
}

} // verus!
