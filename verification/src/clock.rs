//! Wall-clock readings. Both functions depend on the machine's clock, so
//! nothing can be promised of their results; callers state what holds for
//! every reading.

use vstd::prelude::*;

verus! {

/// Relies on std::time::SystemTime::now: seconds since the Unix epoch. A
/// clock before the epoch reads as zero.
#[verifier::external_body]
pub fn unix_now() -> u64 {
    std::time::SystemTime::now().duration_since(std::time::UNIX_EPOCH).map(
        |d| d.as_secs(),
    ).unwrap_or(0)
}

/// Relies on chrono::DateTime::from_timestamp and to_rfc3339: the
/// current UTC wall-clock time written as an RFC 3339 timestamp. A clock
/// before the epoch reads as the epoch, and a reading chrono cannot
/// represent becomes the empty string, so the call never panics.
#[verifier::external_body]
pub fn now_rfc3339() -> String {
    let since_epoch = std::time::SystemTime::now().duration_since(
        std::time::UNIX_EPOCH,
    ).unwrap_or(std::time::Duration::ZERO);
    match chrono::DateTime::<chrono::Utc>::from_timestamp(
        since_epoch.as_secs() as i64,
        since_epoch.subsec_nanos(),
    ) {
        Some(t) => t.to_rfc3339(),
        None => String::new(),
    }
}

} // verus!
