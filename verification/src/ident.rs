//! Fresh recording identifiers.

use vstd::prelude::*;

verus! {

/// Relies on uuid's `Uuid::new_v4` and its hyphenated `Display` form: a
/// freshly drawn random identifier, always rendered as 36 characters.
/// The draw is random, so nothing relates one call to another; global
/// uniqueness is enforced by the store, not assumed here.
#[verifier::external_body]
pub(crate) fn fresh_id() -> (r: String)
    ensures
        r@.len() == 36,
{
    uuid::Uuid::new_v4().to_string()
}

} // verus!
