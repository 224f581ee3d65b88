//! Login: the OAuth redirect callback and the OAuth token state, and the
//! clock that token expiry is measured against.

use vstd::prelude::*;

pub mod listener;
pub mod oauth;

verus! {

/// A reading of the system clock.
#[verifier::external_type_specification]
#[verifier::external_body]
pub struct ExSystemTime(std::time::SystemTime);

/// Reads the system clock with `SystemTime::now`. Nothing is claimed of the
/// reading: it depends on the machine and the moment.
#[verifier::external_body]
fn system_now() -> std::time::SystemTime {
    std::time::SystemTime::now()
}

/// The time from the Unix epoch to `t`, through
/// `SystemTime::duration_since(UNIX_EPOCH)`; `None` when `t` lies before the
/// epoch (the only case in which `duration_since` fails). Nothing more is
/// claimed: the value depends on the clock reading.
#[verifier::external_body]
fn since_epoch(t: &std::time::SystemTime) -> Option<core::time::Duration> {
    match t.duration_since(std::time::UNIX_EPOCH) {
        Ok(d) => Some(d),
        Err(_) => None,
    }
}

/// The whole seconds of a duration, through `Duration::as_secs`. Nothing is
/// claimed: a `Duration` is opaque here.
#[verifier::external_body]
fn whole_seconds(d: &core::time::Duration) -> u64 {
    d.as_secs()
}

/// Unix time in seconds from the seconds elapsed since the epoch: a clock
/// before the epoch (never expected in practice) clamps to 0 rather than
/// failing; the count is reinterpreted as a signed number.
pub fn unix_seconds(since_epoch: Option<u64>) -> (r: i64)
    ensures
        r == match since_epoch {
            Some(s) => s as i64,
            None => 0,
        },
{
    match since_epoch {
        Some(s) => {
            #[verifier::truncate]
            (s as i64)
        },
        None => 0,
    }
}

/// Seconds since the Unix epoch, per the system clock (0 for a clock before
/// the epoch). The value is whatever the clock reads.
pub fn unix_now() -> i64 {
    let t = system_now();
    let secs = match since_epoch(&t) {
        Some(d) => Some(whole_seconds(&d)),
        None => None,
    };
    unix_seconds(secs)
}

} // verus!
