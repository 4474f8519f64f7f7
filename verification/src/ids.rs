//! Identifiers of tabs.

use vstd::prelude::*;

verus! {

/// `uuid::Uuid::new_v4`, as the 128-bit number that `Uuid::as_u128` gives for
/// it. The identifier is drawn at random: nothing is claimed of its value, and
/// two calls may return the same one.
#[verifier::external_body]
pub(crate) fn random_tab_id() -> (id: u128) {
    uuid::Uuid::new_v4().as_u128()
}

} // verus!
