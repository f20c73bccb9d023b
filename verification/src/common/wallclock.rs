use std::time::{Duration, SystemTime};
use vstd::prelude::*;

verus! {

/// `std::time::SystemTime`, a time of the system's clock. Nothing is known
/// of a value but what the functions below say.
#[verifier::external_type_specification]
#[verifier::external_body]
pub struct ExSystemTime(std::time::SystemTime);

/// The whole seconds of a `std::time::Duration`.
pub uninterp spec fn duration_secs(duration: Duration) -> u64;

/// The nanoseconds of a `std::time::Duration` beyond its whole seconds.
pub uninterp spec fn duration_subsec_nanos(duration: Duration) -> u32;

/// The span from the Unix epoch to a `std::time::SystemTime`, or `None` for
/// a time before the epoch.
pub uninterp spec fn unix_duration(time: SystemTime) -> Option<Duration>;

/// `Duration::as_secs`: the whole seconds of the duration.
pub assume_specification[ std::time::Duration::as_secs ](duration: &Duration) -> (secs: u64)
    ensures
        secs == duration_secs(*duration),
;

/// `Duration::subsec_nanos`: the nanoseconds beyond the whole seconds, less
/// than a second's worth.
pub assume_specification[ std::time::Duration::subsec_nanos ](duration: &Duration) -> (nanos: u32)
    ensures
        nanos == duration_subsec_nanos(*duration),
        nanos < 1_000_000_000,
;

/// `Duration::new`: the duration of `secs` seconds and `nanos` nanoseconds.
/// Whole seconds among the nanoseconds are carried over to the seconds; the
/// call panics where that overflows.
pub assume_specification[ std::time::Duration::new ](secs: u64, nanos: u32) -> (duration: Duration)
    requires
        secs + nanos / 1_000_000_000 <= u64::MAX,
    ensures
        duration_secs(duration) == secs + nanos / 1_000_000_000,
        duration_subsec_nanos(duration) == nanos % 1_000_000_000,
;

/// `SystemTime::duration_since` with `UNIX_EPOCH`: the span from the epoch
/// to `time`, or `None` where `time` lies before the epoch.
#[verifier::external_body]
pub(crate) fn since_unix_epoch(time: SystemTime) -> (span: Option<Duration>)
    ensures
        span == unix_duration(time),
{
    time.duration_since(std::time::UNIX_EPOCH).ok()
}

/// `SystemTime::checked_add` on `UNIX_EPOCH`: a time of the system's clock
/// for the time that lies `span` after the epoch, or `None` where the clock
/// cannot hold it. The clock keeps the time as finely as the system does, so
/// that the time need not lie exactly `span` after the epoch; it does not lie
/// before the epoch.
#[verifier::external_body]
pub(crate) fn after_unix_epoch(span: Duration) -> (time: Option<SystemTime>)
    ensures
        time matches Some(t) ==> unix_duration(t).is_some(),
{
    std::time::UNIX_EPOCH.checked_add(span)
}

} // verus!
