//! Time as the library sees it: whole seconds of local wall-clock time.

use vstd::prelude::*;

verus! {

/// Seconds in one day.
pub const SECONDS_PER_DAY: i64 = 86_400;

/// Seconds in one hour.
pub const SECONDS_PER_HOUR: i64 = 3_600;

/// Every reading of the clock lies strictly between `-CLOCK_LIMIT` and
/// `CLOCK_LIMIT` seconds.
pub const CLOCK_LIMIT: i64 = 0x800_0000_0000;

/// The largest number of days, in either direction, that
/// [`Timestamp::days_ahead`] accepts: as many as can be counted in seconds
/// from any clock reading within 64 bits. No two dates that chrono can hold
/// lie a millionth as many days apart.
pub const MAX_DAYS: i64 = 100_000_000_000_000;

/// A moment of local wall-clock time, counted in whole seconds since
/// 1970-01-01 00:00:00 on the local clock. A day starts at every multiple of
/// [`SECONDS_PER_DAY`].
///
/// The count follows the face of the clock, not the time that has passed:
/// every day has 86400 seconds here, also a day on which the clocks are put
/// forward or back. Midnight `d` days ahead is therefore the midnight that
/// the local calendar shows `d` days on, as a date and time without zone. As
/// a moment in a time zone it is an hour off what chrono's zoned dates give
/// where a change of the clocks lies in between, and it exists here also
/// where the clocks skip local midnight on that day.
#[derive(Clone, Copy, Debug, PartialEq, Eq, Structural)]
pub struct Timestamp {
    pub secs: i64,
}

/// The first second of the day that holds second `t`.
pub open spec fn start_of_day(t: int) -> int {
    (t / 86_400) * 86_400
}

/// Midnight at the start of the day that lies `days` days after second `t`.
pub open spec fn midnight_days_ahead(t: int, days: int) -> int {
    start_of_day(t + days * 86_400)
}

/// Reads `chrono::Local::now()` and gives its local date and time as seconds
/// since 1970-01-01 00:00:00 of the local clock. Nothing is claimed of the
/// value but its range: chrono's dates end before the year 262143, in either
/// direction, which is fewer than 2^43 seconds from 1970. On a machine whose
/// clock stands before 1970 chrono panics and no count comes back.
#[verifier::external_body]
fn local_now_secs() -> (secs: i64)
    ensures
        -CLOCK_LIMIT < secs < CLOCK_LIMIT,
{
    chrono::Local::now().naive_local().and_utc().timestamp()
}

/// Reads `chrono::Utc::now()` and gives its count of seconds since
/// 1970-01-01 00:00:00 UTC. Nothing is claimed of the value but its range:
/// chrono takes the time as a span since 1970, so a count that comes back
/// is not negative, and its dates end before the year 262143, which is
/// fewer than 2^43 seconds from 1970. On a machine whose clock stands
/// before 1970 chrono panics and no count comes back.
#[verifier::external_body]
fn utc_now_secs() -> (secs: i64)
    ensures
        0 <= secs < CLOCK_LIMIT,
{
    chrono::Utc::now().timestamp()
}

/// Reads `chrono::Local::now()` and writes it out as chrono does, with date,
/// time and offset. Nothing is claimed of the text. On a machine whose clock
/// stands before 1970 chrono panics and no text comes back.
#[verifier::external_body]
fn local_now_text() -> String {
    chrono::Local::now().to_string()
}

/// Seconds since 1970-01-01 00:00:00 UTC at the present moment.
pub fn unix_now() -> (secs: u64)
    ensures
        secs < CLOCK_LIMIT,
{
    utc_now_secs() as u64
}

/// The present moment on the local clock, written out with date, time and
/// offset.
pub fn now_text() -> String {
    local_now_text()
}

impl Timestamp {
    /// Whether the moment lies in the range of every clock reading.
    pub open spec fn in_clock_range(self) -> bool {
        -CLOCK_LIMIT < self.secs < CLOCK_LIMIT
    }

    /// The moment `secs` seconds after the start of 1970.
    pub fn from_secs(secs: i64) -> (t: Timestamp)
        ensures
            t.secs == secs,
    {
        Timestamp { secs }
    }

    /// The present moment on the local clock.
    pub fn now() -> (t: Timestamp)
        ensures
            t.in_clock_range(),
    {
        Timestamp { secs: local_now_secs() }
    }

    /// Whether `self` comes strictly after `other`.
    pub fn is_after(&self, other: &Timestamp) -> (b: bool)
        ensures
            b == (self.secs > other.secs),
    {
        self.secs > other.secs
    }

    /// Midnight at the start of the day `days` days after `self`.
    pub fn days_ahead(&self, days: i64) -> (t: Timestamp)
        requires
            self.in_clock_range(),
            -MAX_DAYS <= days <= MAX_DAYS,
        ensures
            t.secs == midnight_days_ahead(self.secs as int, days as int),
            t.secs % 86_400 == 0,
            t.secs <= self.secs + days * 86_400 < t.secs + 86_400,
    {
        let moved: i64 = self.secs + days * SECONDS_PER_DAY;
        let rest: i64 = moved % SECONDS_PER_DAY;
        let into_day: i64 = if rest < 0 { rest + SECONDS_PER_DAY } else { rest };
        Timestamp { secs: moved - into_day }
    }
}

} // verus!
