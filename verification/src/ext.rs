//! The two calls the library takes from outside crates: drawing a fresh
//! identifier and reading the clock.

use vstd::prelude::*;

verus! {

/// A character that can appear in a hyphenated lower-case UUID rendering.
pub open spec fn is_uuid_char(c: char) -> bool {
    (('0' as u32) <= (c as u32) && (c as u32) <= ('9' as u32)) || (('a' as u32) <= (c as u32) && (
    c as u32) <= ('f' as u32)) || c == '-'
}

/// A hyphenated lower-case UUID rendering: 36 such characters.
pub open spec fn is_uuid_seq(s: Seq<char>) -> bool {
    s.len() == 36 && forall|i: int| 0 <= i < s.len() ==> is_uuid_char(#[trigger] s[i])
}

/// Relies on uuid::Uuid::new_v4 and uuid's `Display` impl, which renders the
/// hyphenated form: 36 lower-case hexadecimal digits and hyphens. The value
/// is random, so nothing relates two calls.
#[verifier::external_body]
pub(crate) fn fresh_uuid_string() -> (r: String)
    ensures
        is_uuid_seq(r@),
{
    uuid::Uuid::new_v4().to_string()
}

/// Relies on time::OffsetDateTime::now_utc and its `Display` impl. The result
/// depends on the clock, so nothing is promised of it.
#[verifier::external_body]
pub(crate) fn now_utc_string() -> (r: String) {
    time::OffsetDateTime::now_utc().to_string()
}

} // verus!
