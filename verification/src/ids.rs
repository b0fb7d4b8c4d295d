//! Fresh identifiers and timestamps from the outside world.

use vstd::prelude::*;

verus! {

/// Relies on uuid::Uuid::new_v4 and its Display form: a version-4 UUID
/// printed as the 36-character hyphenated text. The value is random, so
/// nothing beyond its length is promised.
#[verifier::external_body]
pub fn new_uuid() -> (r: String)
    ensures
        r@.len() == 36,
{
    uuid::Uuid::new_v4().to_string()
}

/// Relies on chrono::Utc::now and DateTime::to_rfc3339: the current moment
/// printed in RFC 3339 form, which is never empty. The value depends on the
/// clock, so nothing beyond that is promised.
#[verifier::external_body]
pub fn now_rfc3339() -> (r: String)
    ensures
        r@.len() > 0,
{
    chrono::Utc::now().to_rfc3339()
}

} // verus!
