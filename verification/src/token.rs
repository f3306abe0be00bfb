//! Fresh validation tokens: one random UUID per hook invocation, passed to
//! the hook as `HOOK_VALIDATION` in place of a real challenge-response value.

use vstd::prelude::*;

verus! {

/// A lowercase hexadecimal digit.
pub open spec fn is_lower_hex_char(c: char) -> bool {
    ('0' <= c && c <= '9') || ('a' <= c && c <= 'f')
}

/// The shape of a hyphenated UUID rendering: 36 characters, hyphens exactly
/// at positions 8, 13, 18 and 23, lowercase hex digits everywhere else.
pub open spec fn is_uuid_text(s: Seq<char>) -> bool {
    &&& s.len() == 36
    &&& s[8] == '-'
    &&& s[13] == '-'
    &&& s[18] == '-'
    &&& s[23] == '-'
    &&& forall|i: int|
        0 <= i < 36 && i != 8 && i != 13 && i != 18 && i != 23 ==> is_lower_hex_char(#[trigger] s[i])
}

/// Relies on uuid::Uuid::new_v4 and its Display impl: a fresh random UUID,
/// rendered hyphenated in lowercase hex (8-4-4-4-12 digits). The value is
/// random, so nothing relates one call's result to another's.
#[verifier::external_body]
pub(crate) fn fresh_validation_token() -> (r: String)
    ensures
        is_uuid_text(r@),
{
    uuid::Uuid::new_v4().to_string()
}

} // verus!
