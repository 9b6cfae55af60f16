//! The wall clock, read through chrono. The current instant depends on
//! the machine, so nothing is promised of the returned timestamp; every
//! contract that mentions it takes the timestamp as an argument instead.

use vstd::prelude::*;

verus! {

/// Relies on chrono's `Utc::now` and `DateTime::to_rfc3339`, for the
/// current instant as an RFC 3339 timestamp. `Utc::now` panics on a
/// machine whose clock is set before the Unix epoch — an environmental
/// edge, independent of any input.
#[verifier::external_body]
pub(crate) fn now_rfc3339() -> String {
    chrono::Utc::now().to_rfc3339()
}

} // verus!
