//! Durations and the monotonic clock, as the rest of the library sees them:
//! a duration by its length in nanoseconds, the clock only through what it
//! reads.

use vstd::prelude::*;
use std::time::{Duration, Instant};

verus! {

#[verifier::external_type_specification]
#[verifier::external_body]
pub struct ExInstant(std::time::Instant);

/// `Duration` is `Copy`: its `clone` returns the same duration.
pub assume_specification[ <Duration as Clone>::clone ](d: &Duration) -> (r: Duration)
    ensures
        r == *d,
;

/// The length of a duration in nanoseconds.
pub uninterp spec fn nanos_of(d: Duration) -> nat;

/// `Duration::from_secs`: a duration of `secs` seconds.
#[verifier::external_body]
pub(crate) fn duration_from_secs(secs: u64) -> (d: Duration)
    ensures
        nanos_of(d) == secs * 1_000_000_000,
{
    Duration::from_secs(secs)
}

/// `Duration::from_millis`: a duration of `millis` milliseconds.
#[verifier::external_body]
pub(crate) fn duration_from_millis(millis: u64) -> (d: Duration)
    ensures
        nanos_of(d) == millis * 1_000_000,
{
    Duration::from_millis(millis)
}

/// `Duration::as_nanos`: the whole length in nanoseconds.
#[verifier::external_body]
pub(crate) fn duration_as_nanos(d: &Duration) -> (n: u128)
    ensures
        n == nanos_of(*d),
{
    d.as_nanos()
}

/// `Duration::as_secs`: the whole seconds of a duration.
#[verifier::external_body]
pub(crate) fn duration_as_secs(d: &Duration) -> (n: u64)
    ensures
        n == nanos_of(*d) / 1_000_000_000,
{
    d.as_secs()
}

/// The length of `d` in nanoseconds, or `u64::MAX` when longer.
pub fn duration_nanos_u64(d: &Duration) -> (n: u64)
    ensures
        n == if nanos_of(*d) > u64::MAX { u64::MAX as nat } else { nanos_of(*d) },
{
    let n = duration_as_nanos(d);
    if n > u64::MAX as u128 {
        u64::MAX
    } else {
        n as u64
    }
}

/// `Instant::now`: the current reading of the monotonic clock. Nothing is
/// stated of it: it depends on the time of the call.
#[verifier::external_body]
pub(crate) fn instant_now() -> Instant {
    Instant::now()
}

/// `Instant::elapsed`: the time since `i` was read. Nothing is stated of it:
/// it depends on the time of the call.
#[verifier::external_body]
pub(crate) fn instant_elapsed(i: &Instant) -> Duration {
    i.elapsed()
}

/// Nanoseconds since `epoch`, saturating at `u64::MAX`.
pub fn nanos_since(epoch: &Instant) -> u64 {
    let d = instant_elapsed(epoch);
    duration_nanos_u64(&d)
}

} // verus!

verus! {

/// `chrono::Utc::now().timestamp()`: seconds since the Unix epoch, now.
/// Which value comes back depends on the time of the call; it is never
/// negative, as `Utc::now` stops (panics) on a clock before the epoch, and
/// on a reading too large for its signed seconds.
#[verifier::external_body]
pub(crate) fn unix_timestamp() -> (t: i64)
    ensures
        t >= 0,
{
    chrono::Utc::now().timestamp()
}

/// `chrono::Utc::now().timestamp_millis()`: milliseconds since the Unix
/// epoch, now. Which value comes back depends on the time of the call; it
/// is never negative, for the reasons given for `unix_timestamp`.
#[verifier::external_body]
pub(crate) fn unix_timestamp_millis() -> (t: i64)
    ensures
        t >= 0,
{
    chrono::Utc::now().timestamp_millis()
}

/// A lower-case hexadecimal digit or a hyphen: the characters of a UUID's
/// hyphenated form.
pub open spec fn uuid_char(c: char) -> bool {
    ('0' <= c && c <= '9') || ('a' <= c && c <= 'f') || c == '-'
}

/// `uuid::Uuid::new_v4().to_string()`: a random UUID in its hyphenated form,
/// 36 characters of lower-case hexadecimal digits and hyphens. Which UUID
/// comes out is left unsaid: it is random.
#[verifier::external_body]
pub(crate) fn uuid_v4_string() -> (s: String)
    ensures
        s@.len() == 36,
        forall|i: int| 0 <= i < 36 ==> uuid_char(#[trigger] s@[i]),
{
    uuid::Uuid::new_v4().to_string()
}

} // verus!
