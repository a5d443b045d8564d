//! The wall clock, read through `chrono`.

use vstd::prelude::*;

verus! {

/// Calls `chrono::Utc::now` and takes the seconds since the Unix epoch
/// from it. What comes back depends on the moment of the call, so nothing
/// is claimed of it. `chrono` takes the system clock to stand at or after
/// the epoch.
#[verifier::external_body]
pub(crate) fn unix_now() -> i64 {
    chrono::Utc::now().timestamp()
}

} // verus!
