//! Operation ids: process-unique identifiers correlating one transfer with
//! its progress stream.

use vstd::prelude::*;

verus! {

/// Relies on `uuid::Uuid::new_v4` and its `Display` form: a random
/// version-4 UUID rendered as the 36-character hyphenated string.  The value
/// is random, so nothing beyond its length is promised.
#[verifier::external_body]
fn fresh_uuid_string() -> (r: String)
    ensures
        r@.len() == 36,
{
    uuid::Uuid::new_v4().to_string()
}

/// Mints the id for a new transfer operation.  Randomness makes a collision
/// with an id already in flight unlikely; no contract relies on that, since
/// every contract keyed by an operation id holds for arbitrary id values.
pub fn new_operation_id() -> (r: String)
    ensures
        r@.len() == 36,
{
    fresh_uuid_string()
}

} // verus!
