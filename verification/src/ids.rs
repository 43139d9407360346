//! Fresh identifiers for records and archive files.

use vstd::prelude::*;

verus! {

/// A character of Crockford's base 32 alphabet, in which identifiers are
/// written: the digits and the upper-case letters but I, L, O and U.
pub open spec fn is_id_char(c: char) -> bool {
    ||| '0' <= c <= '9'
    ||| ('A' <= c <= 'Z' && c != 'I' && c != 'L' && c != 'O' && c != 'U')
}

/// The shape of an identifier: 26 characters of the alphabet.
pub open spec fn is_id(text: Seq<char>) -> bool {
    &&& text.len() == 26
    &&& forall|i: int| 0 <= i < text.len() ==> is_id_char(#[trigger] text[i])
}

/// A new identifier from `Ulid::new`, written out by `Ulid::to_string`. It
/// holds the time and random bits, so nothing is said of it but its shape.
#[verifier::external_body]
pub(crate) fn fresh_id() -> (id: String)
    ensures
        is_id(id@),
{
    ulid::Ulid::new().to_string()
}

} // verus!
