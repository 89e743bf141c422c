//! Points in time as whole seconds and nanoseconds since the Unix epoch,
//! within the range that `chrono` can represent.

use vstd::prelude::*;

verus! {

/// Seconds since the epoch of the earliest instant `chrono` represents
/// (the first second of year -262143).
pub const MIN_UTC_SECS: i64 = -8334601315200;

/// Seconds since the epoch of the last whole second `chrono` represents
/// (the last second of year 262142).
pub const MAX_UTC_SECS: i64 = 8210266876799;

/// Nanoseconds in a second.
pub const NANOS_PER_SEC: u32 = 1_000_000_000;

/// An instant: `secs` seconds and `nanos` nanoseconds after the Unix epoch.
#[derive(Debug, Clone, Copy)]
pub struct Timestamp {
    pub secs: i64,
    pub nanos: u32,
}

impl Timestamp {
    /// Less than a second of nanoseconds, within `chrono`'s range.
    pub open spec fn wf(self) -> bool {
        &&& self.nanos < NANOS_PER_SEC
        &&& MIN_UTC_SECS <= self.secs <= MAX_UTC_SECS
    }

    /// The instant in nanoseconds since the epoch.
    pub open spec fn total_nanos(self) -> int {
        self.secs * 1_000_000_000 + self.nanos
    }
}

#[verifier::external_type_specification]
#[verifier::external_body]
pub struct ExSystemTime(std::time::SystemTime);

/// `std::time::SystemTime::now()`: a reading of the system clock; which
/// time it gives is left unsaid.
#[verifier::external_body]
fn system_time_now() -> std::time::SystemTime {
    std::time::SystemTime::now()
}

/// `SystemTime::duration_since(UNIX_EPOCH)`: the time elapsed from the
/// epoch to `t`, as whole seconds and the nanoseconds beyond them, which
/// are under a second; nothing when `t` is before the epoch. Which of the
/// two it gives depends on `t`, of which nothing is known here.
#[verifier::external_body]
fn since_unix_epoch(t: std::time::SystemTime) -> (r: Option<(u64, u32)>)
    ensures
        r matches Some((_, n)) ==> n < NANOS_PER_SEC,
{
    t.duration_since(std::time::UNIX_EPOCH).ok().map(|d| (d.as_secs(), d.subsec_nanos()))
}

/// `chrono::DateTime::<Utc>::from_timestamp`: the instant `secs` seconds
/// and `nanos` nanoseconds after the epoch, which exists exactly when
/// `secs` lies within `chrono`'s range; it keeps both numbers.
#[verifier::external_body]
fn utc_from_timestamp(secs: i64, nanos: u32) -> (r: Option<Timestamp>)
    requires
        nanos < NANOS_PER_SEC,
    ensures
        r is Some <==> MIN_UTC_SECS <= secs <= MAX_UTC_SECS,
        r matches Some(t) ==> t.secs == secs && t.nanos == nanos,
{
    chrono::DateTime::from_timestamp(secs, nanos).map(
        |t| Timestamp { secs: t.timestamp(), nanos: t.timestamp_subsec_nanos() },
    )
}

/// Whole seconds as the signed number they become when cast to `i64`.
pub open spec fn secs_as_i64(secs: u64) -> int {
    if secs <= i64::MAX {
        secs as int
    } else {
        secs - 0x1_0000_0000_0000_0000int
    }
}

/// The instant `secs` seconds and `nanos` nanoseconds after the epoch, as
/// `Utc::now` builds it from the time elapsed since the epoch: the seconds
/// are cast to `i64`, and there is an instant exactly when they then lie
/// within `chrono`'s range.
pub fn timestamp_from_epoch(secs: u64, nanos: u32) -> (r: Option<Timestamp>)
    requires
        nanos < NANOS_PER_SEC,
    ensures
        r is Some <==> MIN_UTC_SECS <= secs_as_i64(secs) <= MAX_UTC_SECS,
        r matches Some(t) ==> t.secs == secs_as_i64(secs) && t.nanos == nanos,
{
    let signed: i64 = if secs <= 9_223_372_036_854_775_807u64 {
        secs as i64
    } else {
        -((u64::MAX - secs) as i64) - 1
    };
    utc_from_timestamp(signed, nanos)
}

/// The current time as `chrono::Utc::now` reads it: the time elapsed since
/// the epoch on the system clock, when the clock is not before the epoch
/// and that time lies within `chrono`'s range. Where this gives nothing,
/// `Utc::now` panics.
pub fn utc_now() -> (r: Option<Timestamp>)
    ensures
        r matches Some(t) ==> t.wf(),
{
    let clock = system_time_now();
    match since_unix_epoch(clock) {
        None => None,
        Some((secs, nanos)) => timestamp_from_epoch(secs, nanos),
    }
}

} // verus!
