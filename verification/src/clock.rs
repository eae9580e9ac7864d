//! Wall-clock access for timestamping transitions.
//!
//! The engine itself is pure: every transition rule is verified for an
//! arbitrary timestamp, and this module only supplies the value that callers
//! feed in.

use vstd::prelude::*;

verus! {

/// Relies on `std::time::SystemTime::now` and
/// `SystemTime::duration_since(UNIX_EPOCH)`: the current wall-clock time in
/// milliseconds since the epoch, or 0 when the clock reads earlier than the
/// epoch. Nothing is assumed of the value; contracts hold for every timestamp.
#[verifier::external_body]
pub fn current_timestamp() -> i64 {
    std::time::SystemTime::now()
        .duration_since(std::time::UNIX_EPOCH)
        .map(|d| d.as_millis() as i64)
        .unwrap_or(0)
}

/// Relies on `std::time::SystemTime::now` and `Duration::subsec_nanos`: the
/// sub-second part of the current time in nanoseconds, documented to be below
/// one billion, or 0 when the clock reads earlier than the epoch.
#[verifier::external_body]
pub fn subsec_nanos_now() -> (nanos: u32)
    ensures
        nanos < 1000000000,
{
    std::time::SystemTime::now()
        .duration_since(std::time::UNIX_EPOCH)
        .map(|d| d.subsec_nanos())
        .unwrap_or(0)
}

} // verus!
