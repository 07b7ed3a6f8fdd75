use std::time::{Duration, Instant, SystemTime};

use vstd::prelude::*;

verus! {

#[verifier::external_type_specification]
#[verifier::external_body]
pub struct ExInstant(Instant);

#[verifier::external_type_specification]
#[verifier::external_body]
pub struct ExSystemTime(SystemTime);

/// Calls `SystemTime::now`: the wall clock, of which nothing can be promised.
#[verifier::external_body]
fn system_now() -> SystemTime {
    SystemTime::now()
}

/// Calls `SystemTime::duration_since` with `UNIX_EPOCH`: `None` when the clock
/// reads earlier than the epoch. Nothing is claimed of the value.
#[verifier::external_body]
fn since_unix_epoch(t: &SystemTime) -> Option<Duration> {
    t.duration_since(std::time::UNIX_EPOCH).ok()
}

/// Calls `Instant::now`: the monotonic clock, of which nothing can be promised.
#[verifier::external_body]
pub(crate) fn instant_now() -> Instant {
    Instant::now()
}

/// Calls `Instant::saturating_duration_since`: the time from `earlier` to `later`,
/// zero when `earlier` is the later one. The claim is only that an instant is
/// no time from itself; the clock's readings are opaque here.
#[verifier::external_body]
pub(crate) fn elapsed_between(later: &Instant, earlier: &Instant) -> (d: Duration)
    ensures
        *later == *earlier ==> d == duration_from_micros(0),
{
    later.saturating_duration_since(*earlier)
}

/// Calls `Duration::as_millis`. The claim is only that no time is zero
/// milliseconds: a `Duration` is opaque here.
#[verifier::external_body]
pub(crate) fn whole_millis(d: &Duration) -> (ms: u128)
    ensures
        *d == duration_from_micros(0) ==> ms == 0,
{
    d.as_millis()
}

/// Calls `Duration::as_secs`. The claim is only that no time is zero seconds:
/// a `Duration` is opaque here.
#[verifier::external_body]
pub(crate) fn whole_secs(d: &Duration) -> (s: u64)
    ensures
        *d == duration_from_micros(0) ==> s == 0,
{
    d.as_secs()
}

/// The duration of `us` microseconds, as `Duration::from_micros` makes it: a
/// function of `us` alone.
pub uninterp spec fn duration_from_micros(us: u64) -> Duration;

/// Calls `Duration::from_micros`, whose result is named `duration_from_micros`.
#[verifier::external_body]
pub(crate) fn micros(us: u64) -> (d: Duration)
    ensures
        d == duration_from_micros(us),
{
    Duration::from_micros(us)
}

/// The time since the Unix epoch, or `None` when the system clock reads
/// earlier than the epoch.
pub fn now_unix_time() -> Option<Duration> {
    since_unix_epoch(&system_now())
}

} // verus!
