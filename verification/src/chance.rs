//! The two places where the bot asks for randomness: the coin behind the
//! unrestricted rating policy and the identity of a new prompt.

use vstd::prelude::*;

verus! {

/// Whether `c` is a digit of lower-case hexadecimal notation.
pub open spec fn is_lower_hex(c: char) -> bool {
    ('0' <= c && c <= '9') || ('a' <= c && c <= 'f')
}

/// The shape of an identity: 36 characters, hyphens at positions 8, 13, 18
/// and 23, lower-case hexadecimal digits everywhere else.
pub open spec fn is_uid_text(s: Seq<char>) -> bool {
    &&& s.len() == 36
    &&& forall|i: int|
        0 <= i < 36 ==> if i == 8 || i == 13 || i == 18 || i == 23 {
            s[i] == '-'
        } else {
            is_lower_hex(#[trigger] s[i])
        }
}

/// Flips a fair coin with `rand::random_ratio`, one chance in two. Nothing
/// is claimed of the outcome: either side may come up, on every call anew.
#[verifier::external_body]
pub(crate) fn coin_flip() -> bool {
    rand::random_ratio(1, 2)
}

/// Draws a random identity with `uuid::Uuid::new_v4` and prints it the way
/// `Uuid` displays itself. Believed, not proved: whatever is drawn, the
/// text is the hyphenated lower-case form that `is_uid_text` describes.
#[verifier::external_body]
pub(crate) fn fresh_uid() -> (uid: String)
    ensures
        is_uid_text(uid@),
{
    uuid::Uuid::new_v4().to_string()
}

} // verus!
