//! The wall clock, read through the `time` crate.

use vstd::prelude::*;

verus! {

/// `time::OffsetDateTime::now_utc()` formatted as RFC 3339. The result
/// depends on the moment of the call; nothing is promised of it.
#[verifier::external_body]
pub fn now_timestamp() -> (s: String) {
    time::OffsetDateTime::now_utc()
        .format(&time::format_description::well_known::Rfc3339)
        .unwrap_or_default()
}

} // verus!
