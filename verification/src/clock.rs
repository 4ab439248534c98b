//! Wall-clock time, read from `std::time::SystemTime`.
use vstd::prelude::*;

verus! {

/// The largest timestamp, in milliseconds since the Unix epoch, that the game
/// arithmetic works with (about the year 285,000).
pub const MAX_TIMESTAMP_MS: i64 = 9_007_199_254_740_992;

/// Milliseconds since the Unix epoch from `SystemTime::now()`, or 0 when the clock
/// reads a time before the epoch. Trusted: nothing is known of the value.
#[verifier::external_body]
fn system_millis() -> (r: u128) {
    std::time::SystemTime::now()
        .duration_since(std::time::UNIX_EPOCH)
        .map(|d| d.as_millis())
        .unwrap_or(0)
}

/// The current time in milliseconds since the Unix epoch, capped at
/// `MAX_TIMESTAMP_MS`.
pub fn now_millis() -> (r: i64)
    ensures
        0 <= r <= MAX_TIMESTAMP_MS,
{
    let ms = system_millis();
    if ms > MAX_TIMESTAMP_MS as u128 {
        MAX_TIMESTAMP_MS
    } else {
        ms as i64
    }
}

/// The current time in whole seconds since the Unix epoch.
pub fn now_secs() -> (r: i64)
    ensures
        0 <= r <= MAX_TIMESTAMP_MS / 1000,
{
    now_millis() / 1000
}

} // verus!
