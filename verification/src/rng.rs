//! The simulation's only source of chance. Everything derived from it
//! (spawn positions, drift directions) is computed by verified code from
//! the raw value, so every caller is correct for every outcome.

use vstd::prelude::*;

verus! {

/// Relies on rand::random: one value drawn from the thread-local
/// generator. Nothing is promised of the result.
#[verifier::external_body]
pub(crate) fn random_u64() -> u64 {
    rand::random::<u64>()
}

} // verus!
