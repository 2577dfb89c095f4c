use crate::schema::Timestamp;
use vstd::prelude::*;

verus! {

pub const MICROS_PER_HOUR: i64 = 3_600_000_000;

pub const MICROS_PER_DAY: i64 = 86_400_000_000;

/// `micros` moved by `delta`, clamped to the range a timestamp can hold.
pub open spec fn clamp_offset(micros: i64, delta: int) -> i64 {
    let t = micros + delta;
    if t < i64::MIN {
        i64::MIN
    } else if t > i64::MAX {
        i64::MAX
    } else {
        t as i64
    }
}

/// Relies on spacetimedb's `Timestamp::checked_add`: the sum of the two microsecond
/// counts when it fits in an `i64`, else `None`.
#[verifier::external_body]
fn checked_later(ts: Timestamp, micros: i64) -> (r: Option<Timestamp>)
    ensures
        match r {
            Some(t) => ts.micros + micros == t.micros as int,
            None => ts.micros + micros < i64::MIN || ts.micros + micros > i64::MAX,
        },
{
    spacetimedb::Timestamp::from_micros_since_unix_epoch(ts.micros)
        .checked_add(spacetimedb::TimeDuration::from_micros(micros))
        .map(|t| Timestamp { micros: t.to_micros_since_unix_epoch() })
}

/// Relies on spacetimedb's `Timestamp::checked_sub`: the difference of the two
/// microsecond counts when it fits in an `i64`, else `None`.
#[verifier::external_body]
fn checked_earlier(ts: Timestamp, micros: i64) -> (r: Option<Timestamp>)
    ensures
        match r {
            Some(t) => ts.micros - micros == t.micros as int,
            None => ts.micros - micros < i64::MIN || ts.micros - micros > i64::MAX,
        },
{
    spacetimedb::Timestamp::from_micros_since_unix_epoch(ts.micros)
        .checked_sub(spacetimedb::TimeDuration::from_micros(micros))
        .map(|t| Timestamp { micros: t.to_micros_since_unix_epoch() })
}

/// `ts` moved `micros` later, saturating at the latest representable time.
pub fn saturating_later(ts: Timestamp, micros: i64) -> (r: Timestamp)
    requires
        micros >= 0,
    ensures
        r.micros == clamp_offset(ts.micros, micros as int),
{
    match checked_later(ts, micros) {
        Some(t) => t,
        None => Timestamp { micros: i64::MAX },
    }
}

/// `ts` moved `micros` earlier, saturating at the earliest representable time.
pub fn saturating_earlier(ts: Timestamp, micros: i64) -> (r: Timestamp)
    requires
        micros >= 0,
    ensures
        r.micros == clamp_offset(ts.micros, -micros),
{
    match checked_earlier(ts, micros) {
        Some(t) => t,
        None => Timestamp { micros: i64::MIN },
    }
}

/// `ts` moved `d` days earlier (saturating).
pub fn days_before(ts: Timestamp, d: i64) -> (r: Timestamp)
    requires
        0 <= d <= 106_751,
    ensures
        r.micros == clamp_offset(ts.micros, -(d * MICROS_PER_DAY)),
{
    saturating_earlier(ts, d * MICROS_PER_DAY)
}

/// `ts` moved `d` days later (saturating).
pub fn days_after(ts: Timestamp, d: i64) -> (r: Timestamp)
    requires
        0 <= d <= 106_751,
    ensures
        r.micros == clamp_offset(ts.micros, d * MICROS_PER_DAY),
{
    saturating_later(ts, d * MICROS_PER_DAY)
}

/// `ts` moved `h` hours later (saturating).
pub fn hours_after(ts: Timestamp, h: i64) -> (r: Timestamp)
    requires
        0 <= h <= 2_562_047,
    ensures
        r.micros == clamp_offset(ts.micros, h * MICROS_PER_HOUR),
{
    saturating_later(ts, h * MICROS_PER_HOUR)
}

} // verus!
