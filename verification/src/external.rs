//! Calls into outside crates whose results depend on chance or on the
//! clock.  Nothing is promised of the values; every caller states what
//! holds whatever comes back.

use vstd::prelude::*;

verus! {

/// Relies on uuid::Uuid::new_v4 (and as_u128 to read its bits) for a
/// fresh random identifier.  The value is random; nothing is promised
/// of it, and uniqueness is enforced by the registry itself.
#[verifier::external_body]
pub fn random_u128() -> u128 {
    uuid::Uuid::new_v4().as_u128()
}

/// Relies on chrono::Utc::now, rendered with DateTime::to_rfc3339, for
/// the current time as an RFC 3339 string.  The value depends on the
/// clock; nothing is promised of it.
#[verifier::external_body]
pub fn now_rfc3339() -> String {
    chrono::Utc::now().to_rfc3339()
}

} // verus!
