//! The collection timestamp: the current UTC instant as RFC 3339 text.

use vstd::prelude::*;

verus! {

/// Relies on `chrono::Utc::now` and `chrono::DateTime::to_rfc3339`: the
/// current instant as RFC 3339 text with timezone offset. The value depends
/// on the clock, so nothing is promised of it beyond being non-empty.
#[verifier::external_body]
pub fn now_rfc3339() -> (r: String)
    ensures
        r@.len() > 0,
{
    chrono::Utc::now().to_rfc3339()
}

} // verus!
