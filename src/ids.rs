//! Fresh identifiers for filesystem tasks and preview requests.

use vstd::prelude::*;

verus! {

/// Relies on uuid's `Uuid::new_v4` and `Uuid::as_u128`: a random version-4
/// identifier, as its 128-bit value. Nothing is known of which one.
#[verifier::external_body]
pub(crate) fn random_id() -> u128 {
    uuid::Uuid::new_v4().as_u128()
}

} // verus!
