//! Fresh random identifiers for rooms, users and sessions.

use uuid::Uuid;
use vstd::prelude::*;

verus! {

/// Relies on `uuid::Uuid::new_v4` and its `Display`: a random version-4 uuid
/// in the hyphenated form, 36 characters. Two calls may return anything,
/// equal values included, so nothing more is said of the result.
#[verifier::external_body]
pub(crate) fn random_uuid() -> (s: String)
    ensures
        s@.len() == 36,
{
    Uuid::new_v4().to_string()
}

} // verus!
