//! The wall clock, read in milliseconds.

use vstd::prelude::*;

verus! {

/// Milliseconds since the Unix epoch, read through `std::time::SystemTime::now`.
/// Nothing is claimed of the value: it depends on the machine's clock, and two
/// readings may differ in either direction.
#[verifier::external_body]
pub(crate) fn now_millis() -> u64 {
    std::time::SystemTime::now()
        .duration_since(std::time::UNIX_EPOCH)
        .map(|d| d.as_millis() as u64)
        .unwrap_or(0)
}

} // verus!
