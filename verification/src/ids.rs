//! Fresh identifiers.
use vstd::prelude::*;

verus! {

/// Whether `c` may stand at position `i` of a hyphenated UUID: a hyphen
/// at 8, 13, 18 and 23, a lower-case hexadecimal digit elsewhere.
pub open spec fn uuid_char_at(i: int, c: char) -> bool {
    if i == 8 || i == 13 || i == 18 || i == 23 {
        c == '-'
    } else {
        ('0' <= c && c <= '9') || ('a' <= c && c <= 'f')
    }
}

/// `uuid::Uuid::new_v4().to_string()`: a fresh random UUID in its
/// hyphenated text form: 36 characters, lower-case hexadecimal digits in
/// groups of 8, 4, 4, 4 and 12 separated by hyphens. Which UUID comes out
/// depends on chance, so nothing more is stated of it.
#[verifier::external_body]
pub(crate) fn new_uuid_string() -> (r: String)
    ensures
        r@.len() == 36,
        forall|i: int| 0 <= i < 36 ==> uuid_char_at(i, #[trigger] r@[i]),
{
    uuid::Uuid::new_v4().to_string()
}

} // verus!
