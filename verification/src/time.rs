use vstd::prelude::*;

verus! {

/// Nanoseconds in one second.
pub const NANOS_PER_SEC: u32 = 1_000_000_000;

/// Seconds in one hour.
pub const SECS_PER_HOUR: i64 = 3_600;

/// Seconds in one day.
pub const SECS_PER_DAY: i64 = 86_400;

/// No clock reading is later than this many seconds after the epoch: the
/// calendar that the clock is read through ends before the year 262 143,
/// and no year has more than 366 days.
pub const CLOCK_SECS_LIMIT: i64 = 8_289_590_803_200;

/// An instant on the UTC time line: `secs` whole seconds after the Unix
/// epoch, and `nanos` nanoseconds after that second.
#[derive(Debug, Clone, Copy, PartialEq, Eq, Structural)]
pub struct Timestamp {
    pub secs: i64,
    pub nanos: u32,
}

impl Timestamp {
    /// The instant as a number of nanoseconds after the epoch.
    pub open spec fn nanos_since_epoch(self) -> int {
        self.secs * 1_000_000_000 + self.nanos
    }

    /// The instant `secs` seconds after `self`.
    pub open spec fn plus_secs(self, secs: int) -> Timestamp {
        Timestamp { secs: (self.secs + secs) as i64, nanos: self.nanos }
    }

    /// Whether a clock can have shown this instant.
    pub open spec fn is_clock_reading(self) -> bool {
        0 <= self.secs < CLOCK_SECS_LIMIT && self.nanos < NANOS_PER_SEC
    }

    pub fn new(secs: i64, nanos: u32) -> (t: Timestamp)
        ensures
            t.secs == secs,
            t.nanos == nanos,
    {
        Timestamp { secs, nanos }
    }

    /// The present instant.
    pub fn now() -> (t: Timestamp)
        ensures
            t.is_clock_reading(),
    {
        read_clock()
    }

    /// Whether `self` is strictly later than `other`.
    pub fn is_after(&self, other: &Timestamp) -> (later: bool)
        ensures
            later == (self.nanos_since_epoch() > other.nanos_since_epoch()),
    {
        let mine: i128 = self.secs as i128 * 1_000_000_000 + self.nanos as i128;
        let theirs: i128 = other.secs as i128 * 1_000_000_000 + other.nanos as i128;
        mine > theirs
    }

    /// The instant `hours` hours after `self`.
    pub fn plus_hours(&self, hours: u32) -> (t: Timestamp)
        requires
            self.secs + hours * SECS_PER_HOUR <= i64::MAX,
        ensures
            t == self.plus_secs(hours * SECS_PER_HOUR),
            t.nanos_since_epoch() == self.nanos_since_epoch() + hours * SECS_PER_HOUR
                * 1_000_000_000,
    {
        let span: i64 = hours as i64 * SECS_PER_HOUR;
        Timestamp { secs: self.secs + span, nanos: self.nanos }
    }

    /// The instant `days` days after `self`.
    pub fn plus_days(&self, days: u32) -> (t: Timestamp)
        requires
            self.secs + days * SECS_PER_DAY <= i64::MAX,
        ensures
            t == self.plus_secs(days * SECS_PER_DAY),
            t.nanos_since_epoch() == self.nanos_since_epoch() + days * SECS_PER_DAY
                * 1_000_000_000,
    {
        let span: i64 = days as i64 * SECS_PER_DAY;
        Timestamp { secs: self.secs + span, nanos: self.nanos }
    }
}

/// Reads the system clock with `chrono::Utc::now`. The contract claims what
/// that function's construction of its result shows: the seconds are counted
/// from the epoch onwards and lie within the calendar's range, and the
/// nanoseconds are those of a fraction of a second.
#[verifier::external_body]
fn read_clock() -> (now: Timestamp)
    ensures
        now.is_clock_reading(),
{
    let instant = chrono::Utc::now();
    Timestamp { secs: instant.timestamp(), nanos: instant.timestamp_subsec_nanos() }
}

} // verus!
