use vstd::prelude::*;

use std::time::{Duration, SystemTime};

verus! {

#[verifier::external_type_specification]
#[verifier::external_body]
pub struct ExSystemTime(SystemTime);

/// Relies on std::time::SystemTime::now; nothing is known of the reading.
pub assume_specification[ SystemTime::now ]() -> SystemTime;

/// Relies on std::time::Duration::as_nanos; nothing is stated of the count.
pub assume_specification[ Duration::as_nanos ](d: &Duration) -> u128;

/// Relies on std::time::SystemTime::duration_since against the Unix epoch:
/// `None` where `t` lies before it.
#[verifier::external_body]
fn since_unix_epoch(t: &SystemTime) -> (r: Option<Duration>) {
    t.duration_since(std::time::UNIX_EPOCH).ok()
}

/// A reading as nanoseconds in a `u64`: 0 for a reading before the epoch
/// (`None`), `u64::MAX` for a count past the range of `u64`.
pub fn reading_ns(since_epoch: Option<u128>) -> (r: u64)
    ensures
        since_epoch is None ==> r == 0,
        since_epoch is Some && since_epoch->0 <= u64::MAX ==> r == since_epoch->0,
        since_epoch is Some && since_epoch->0 > u64::MAX ==> r == u64::MAX,
{
    match since_epoch {
        Some(ns) => {
            if ns > u64::MAX as u128 {
                u64::MAX
            } else {
                ns as u64
            }
        },
        None => 0,
    }
}

/// Nanoseconds since the Unix epoch by the system clock, as `reading_ns`
/// states them. Nothing is known of the reading itself.
pub fn wall_clock_ns() -> (r: u64) {
    let now = SystemTime::now();
    let since_epoch = match since_unix_epoch(&now) {
        Some(d) => Some(d.as_nanos()),
        None => None,
    };
    reading_ns(since_epoch)
}

} // verus!
