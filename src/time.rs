//! Timestamps as delivered by the event source: a count of 100-nanosecond
//! ticks since 1601-01-01 00:00:00 UTC.

use vstd::prelude::*;
use chrono::{Datelike, TimeZone, Timelike};

verus! {

/// Ticks per second of a tick count.
pub const TICKS_PER_SEC: u64 = 10_000_000;

/// Nanoseconds per tick.
pub const NANOS_PER_TICK: u64 = 100;

/// Seconds per day.
pub const SECS_PER_DAY: u64 = 86_400;

/// Largest seconds count that a tick count in `u64` can give.
pub const MAX_EPOCH_SECS: u64 = 1_844_674_407_370;

/// A UTC instant, as whole seconds and nanoseconds since 1601-01-01 00:00:00 UTC.
#[derive(Clone, Copy, Debug, PartialEq, Eq, Structural)]
pub struct Instant {
    pub secs: u64,
    pub nanos: u32,
}

impl Instant {
    /// Nanoseconds stay below one second.
    pub open spec fn wf(self) -> bool {
        self.nanos < 1_000_000_000
    }

    /// Within range of a tick count, with nanoseconds below one second.
    pub open spec fn valid(self) -> bool {
        self.wf() && self.secs <= MAX_EPOCH_SECS
    }

    /// Every tick count denotes a valid instant.
    pub proof fn of_ticks_valid(ticks: u64)
        ensures
            Instant::of_ticks(ticks).valid(),
    {
        let rem = ticks % 10_000_000;
        assert(rem * 100 < 1_000_000_000) by (nonlinear_arith)
            requires
                rem < 10_000_000,
        ;
    }

    /// The instant that a tick count denotes.
    pub open spec fn of_ticks(ticks: u64) -> Instant {
        Instant {
            secs: (ticks / TICKS_PER_SEC) as u64,
            nanos: ((ticks % TICKS_PER_SEC) * NANOS_PER_TICK) as u32,
        }
    }

    /// Converts a tick count into seconds and nanoseconds past the epoch.
    pub fn from_ticks(ticks: u64) -> (r: Instant)
        ensures
            r == Instant::of_ticks(ticks),
            r.valid(),
            r.secs * TICKS_PER_SEC + r.nanos as int / NANOS_PER_TICK as int == ticks,
    {
        let secs = ticks / TICKS_PER_SEC;
        let rem = ticks % TICKS_PER_SEC;
        assert(rem * 100 < 1_000_000_000) by (nonlinear_arith)
            requires
                rem < 10_000_000,
        ;
        let nanos = (rem * NANOS_PER_TICK) as u32;
        assert(secs * 10_000_000 + rem == ticks) by (nonlinear_arith)
            requires
                secs == ticks / 10_000_000,
                rem == ticks % 10_000_000,
        ;
        assert((rem * 100) / 100 == rem) by (nonlinear_arith);
        Instant { secs, nanos }
    }

    /// The calendar reading of this instant in UTC.
    pub fn to_civil(&self) -> (r: CivilTime)
        requires
            self.valid(),
        ensures
            r.holds(self.secs, self.nanos),
    {
        civil_of_epoch_secs(self.secs, self.nanos)
    }
}

/// A UTC calendar date and time of day.
#[derive(Clone, Copy, Debug, PartialEq, Eq, Structural)]
pub struct CivilTime {
    pub year: i32,
    pub month: u32,
    pub day: u32,
    pub hour: u32,
    pub minute: u32,
    pub second: u32,
    pub nanos: u32,
}

/// The proleptic Gregorian (year, month, day) of the day that lies `days`
/// whole days after 1601-01-01.
pub uninterp spec fn civil_date_of(days: int) -> (int, int, int);

impl CivilTime {
    /// This reading is the one of `secs` seconds and `nanos` nanoseconds past
    /// 1601-01-01 00:00:00 UTC: UTC days have 86400 seconds here.
    pub open spec fn holds(self, secs: u64, nanos: u32) -> bool {
        &&& (self.year as int, self.month as int, self.day as int) == civil_date_of(
            secs as int / SECS_PER_DAY as int,
        )
        &&& 1 <= self.month <= 12
        &&& 1 <= self.day <= 31
        &&& self.hour == (secs % SECS_PER_DAY) / 3600
        &&& self.minute == (secs % 3600) / 60
        &&& self.second == secs % 60
        &&& self.nanos == nanos
    }
}

/// Relies on chrono: `Utc.with_ymd_and_hms(1601, 1, 1, 0, 0, 0)` plus
/// `TimeDelta::seconds` and `TimeDelta::nanoseconds`, read back through the
/// `Datelike` and `Timelike` getters. chrono adds a `TimeDelta` without leap
/// seconds, so the time of day is the remainder of the seconds count.
#[verifier::external_body]
fn civil_of_epoch_secs(secs: u64, nanos: u32) -> (r: CivilTime)
    requires
        secs <= MAX_EPOCH_SECS,
        nanos < 1_000_000_000,
    ensures
        (r.year as int, r.month as int, r.day as int) == civil_date_of(secs as int / SECS_PER_DAY as int),
        r.holds(secs, nanos),
{
    let base = chrono::Utc.with_ymd_and_hms(1601, 1, 1, 0, 0, 0).unwrap();
    let t = base + chrono::TimeDelta::seconds(secs as i64)
        + chrono::TimeDelta::nanoseconds(nanos as i64);
    CivilTime {
        year: t.year(),
        month: t.month(),
        day: t.day(),
        hour: t.hour(),
        minute: t.minute(),
        second: t.second(),
        nanos: t.nanosecond(),
    }
}

} // verus!
