//! Random seeds, drawn through `rand`.

use vstd::prelude::*;

verus! {

/// Calls `rand::random` for a `u32`. What comes back differs from call to
/// call, so nothing is claimed of it.
#[verifier::external_body]
pub(crate) fn random_seed() -> u32 {
    rand::random::<u32>()
}

} // verus!
