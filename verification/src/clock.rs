//! Wall-clock readings, and the moments at which playback events happen.

use std::time::UNIX_EPOCH;
use vstd::prelude::*;

verus! {

/// A point in time: what the wall clock shows, and a tick count that never runs
/// backwards, from which listening time is measured.
#[derive(Clone, Copy, Debug)]
pub struct Moment {
    /// Milliseconds since the Unix epoch.
    pub wall_ms: i64,
    /// Nanoseconds since some fixed instant of this run.
    pub tick_ns: u64,
}

/// `std::time::SystemTime::elapsed`, of the Unix epoch: the time since then in
/// nanoseconds, and `None` where the clock shows an earlier time. Nothing is claimed
/// of the number, which depends on the clock alone.
#[verifier::external_body]
fn epoch_nanos() -> Option<u128> {
    UNIX_EPOCH.elapsed().ok().map(|span| span.as_nanos())
}

/// Whole seconds of a reading of the clock, in nanoseconds since the epoch.
pub open spec fn seconds_in(nanos: Option<u128>) -> u64 {
    match nanos {
        Some(n) => (n / 1_000_000_000) as u64,
        None => 0,
    }
}

/// Whole milliseconds of a reading of the clock, in nanoseconds since the epoch.
pub open spec fn millis_in(nanos: Option<u128>) -> i64 {
    match nanos {
        Some(n) => (n / 1_000_000) as i64,
        None => 0,
    }
}

/// Whole seconds of a reading; 0 where the clock is before the epoch.
pub fn seconds_of(nanos: Option<u128>) -> (secs: u64)
    ensures
        secs == seconds_in(nanos),
{
    match nanos {
        Some(n) => {
            let whole: u128 = n / 1_000_000_000;
            #[verifier::truncate]
            (whole as u64)
        },
        None => 0,
    }
}

/// Whole milliseconds of a reading; 0 where the clock is before the epoch.
pub fn millis_of(nanos: Option<u128>) -> (millis: i64)
    ensures
        millis == millis_in(nanos),
{
    match nanos {
        Some(n) => {
            let whole: u128 = n / 1_000_000;
            #[verifier::truncate]
            (whole as i64)
        },
        None => 0,
    }
}

/// Seconds since the Unix epoch, by the wall clock. The clock may show any time, so the
/// clause binds no number; what is made of a reading is what [`seconds_of`] states.
pub fn now_secs() -> (secs: u64)
    ensures
        exists|nanos: Option<u128>| secs == #[trigger] seconds_in(nanos),
{
    let nanos = epoch_nanos();
    seconds_of(nanos)
}

/// Milliseconds since the Unix epoch, by the wall clock. The clock may show any time, so
/// the clause binds no number; what is made of a reading is what [`millis_of`] states.
pub fn now_ms() -> (millis: i64)
    ensures
        exists|nanos: Option<u128>| millis == #[trigger] millis_in(nanos),
{
    let nanos = epoch_nanos();
    millis_of(nanos)
}

/// A reading is cut to whole units, never rounded up: the seconds and milliseconds that
/// it holds in full, as far as they fit.
pub proof fn law_readings_are_cut_to_whole_units(nanos: u128)
    ensures
        nanos / 1_000_000_000 <= u64::MAX ==> seconds_in(Some(nanos)) * 1_000_000_000 <= nanos < (
        seconds_in(Some(nanos)) + 1) * 1_000_000_000,
        nanos / 1_000_000 <= i64::MAX ==> millis_in(Some(nanos)) * 1_000_000 <= nanos < (millis_in(
            Some(nanos),
        ) + 1) * 1_000_000,
        seconds_in(None) == 0 && millis_in(None) == 0,
{
}

} // verus!
