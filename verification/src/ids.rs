//! Fresh identifiers for messages and threads.
use vstd::prelude::*;

verus! {

/// Whether a character is a hexadecimal digit in lower case.
pub open spec fn is_lower_hex(c: char) -> bool {
    ('0' <= c <= '9') || ('a' <= c <= 'f')
}

/// Whether a text has the hyphenated form of a UUID: 36 characters, of which
/// the four at 8, 13, 18 and 23 are hyphens and all others hexadecimal digits
/// in lower case.
pub open spec fn is_uuid_text(text: Seq<char>) -> bool {
    &&& text.len() == 36
    &&& forall|i: int|
        0 <= i < 36 ==> if i == 8 || i == 13 || i == 18 || i == 23 {
            #[trigger] text[i] == '-'
        } else {
            is_lower_hex(#[trigger] text[i])
        }
}

/// `uuid::Uuid::new_v4`, written out by its `Display`: a random identifier in
/// the hyphenated lower-case form. The contract states that form, which every
/// outcome has, and nothing of the digits: two calls differ.
#[verifier::external_body]
pub(crate) fn fresh_id() -> (r: String)
    ensures
        is_uuid_text(r@),
{
    uuid::Uuid::new_v4().to_string()
}

} // verus!
