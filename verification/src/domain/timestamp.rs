//! Points in time with a fixed offset from UTC, and the two places where the
//! library asks `chrono` for one: the system clock and the calendar.

use core::cmp::Ordering;
use vstd::prelude::*;
use vstd::std_specs::cmp::PartialEqSpecImpl;
use vstd::std_specs::cmp::PartialOrdSpecImpl;

verus! {

/// Japan Standard Time, in seconds east of UTC.
pub const JST_OFFSET_SECS: i32 = 32_400;

/// An instant and the offset it is shown in.
///
/// `secs` counts the seconds since 1970-01-01T00:00:00Z and `nanos` the
/// nanoseconds within that second (a leap second is written with a billion or
/// more). `offset_secs` is the offset east of UTC; it takes no part in
/// comparisons, which order instants.
#[derive(Clone, Copy, Debug)]
pub struct Timestamp {
    pub secs: i64,
    pub nanos: u32,
    pub offset_secs: i32,
}

impl Timestamp {
    /// The fields are in the ranges a date-time with a fixed offset can hold.
    pub open spec fn wf(self) -> bool {
        &&& self.nanos < 2_000_000_000
        &&& -86_400 < self.offset_secs < 86_400
    }

    /// `self` is the same instant as `other`, whatever the offsets.
    pub open spec fn same_instant(self, other: Timestamp) -> bool {
        self.secs == other.secs && self.nanos == other.nanos
    }

    /// `self` is strictly earlier than `other`.
    pub open spec fn before(self, other: Timestamp) -> bool {
        self.secs < other.secs || (self.secs == other.secs && self.nanos < other.nanos)
    }

    /// The instant `secs` seconds and `nanos` nanoseconds after the epoch,
    /// shown in Japan Standard Time.
    pub fn jst(secs: i64, nanos: u32) -> (r: Timestamp)
        ensures
            r.secs == secs,
            r.nanos == nanos,
            r.offset_secs == JST_OFFSET_SECS,
    {
        Timestamp { secs, nanos, offset_secs: JST_OFFSET_SECS }
    }

    /// The current time, shown in Japan Standard Time.
    ///
    /// Which instant comes back is the clock's business; the offset and the
    /// ranges hold of every reading.
    pub fn now_jst() -> (r: Timestamp)
        ensures
            r.wf(),
            r.offset_secs == JST_OFFSET_SECS,
            r.secs >= 0,
            r.nanos < 1_000_000_000,
    {
        let reading = utc_now();
        Timestamp::jst(reading.0, reading.1)
    }

    /// The instant at which a clock set to `offset_secs` east of UTC shows
    /// the given calendar date and time of day, or `None` where there is no
    /// such offset, date or time.
    pub fn from_local(
        offset_secs: i32,
        year: i32,
        month: u32,
        day: u32,
        hour: u32,
        min: u32,
        sec: u32,
    ) -> (r: Option<Timestamp>)
        ensures
            r == Timestamp::at_local(
                offset_secs,
                local_epoch_seconds(offset_secs, year, month, day, hour, min, sec),
            ),
            plain_local(offset_secs, year, month, day, hour, min, sec) ==> r.is_some(),
    {
        let found = local_to_epoch_seconds(offset_secs, year, month, day, hour, min, sec);
        Timestamp::with_offset(offset_secs, found)
    }

    /// What `from_local` makes of the calendar's answer.
    pub open spec fn at_local(offset_secs: i32, found: Option<i64>) -> Option<Timestamp> {
        match found {
            Some(secs) => Some(Timestamp { secs, nanos: 0, offset_secs }),
            None => None,
        }
    }

    /// Turns the calendar's answer for a whole second into a timestamp shown
    /// at `offset_secs`.
    pub fn with_offset(offset_secs: i32, found: Option<i64>) -> (r: Option<Timestamp>)
        ensures
            r == Timestamp::at_local(offset_secs, found),
    {
        match found {
            Some(secs) => Some(Timestamp { secs, nanos: 0, offset_secs }),
            None => None,
        }
    }
}

impl PartialEq for Timestamp {
    fn eq(&self, other: &Timestamp) -> (r: bool) {
        self.secs == other.secs && self.nanos == other.nanos
    }
}

impl PartialEqSpecImpl for Timestamp {
    open spec fn obeys_eq_spec() -> bool {
        true
    }

    open spec fn eq_spec(&self, other: &Timestamp) -> bool {
        self.same_instant(*other)
    }
}

impl PartialOrd for Timestamp {
    fn partial_cmp(&self, other: &Timestamp) -> (r: Option<Ordering>) {
        if self.secs < other.secs {
            Some(Ordering::Less)
        } else if self.secs > other.secs {
            Some(Ordering::Greater)
        } else if self.nanos < other.nanos {
            Some(Ordering::Less)
        } else if self.nanos > other.nanos {
            Some(Ordering::Greater)
        } else {
            Some(Ordering::Equal)
        }
    }
}

impl PartialOrdSpecImpl for Timestamp {
    open spec fn obeys_partial_cmp_spec() -> bool {
        true
    }

    open spec fn partial_cmp_spec(&self, other: &Timestamp) -> Option<Ordering> {
        if self.secs < other.secs {
            Some(Ordering::Less)
        } else if self.secs > other.secs {
            Some(Ordering::Greater)
        } else if self.nanos < other.nanos {
            Some(Ordering::Less)
        } else if self.nanos > other.nanos {
            Some(Ordering::Greater)
        } else {
            Some(Ordering::Equal)
        }
    }
}

/// A date and time that every month and every supported offset has: years 1
/// to 9999, days 1 to 28, and a time of day without a leap second.
pub open spec fn plain_local(
    offset_secs: i32,
    year: i32,
    month: u32,
    day: u32,
    hour: u32,
    min: u32,
    sec: u32,
) -> bool {
    &&& -86_400 < offset_secs < 86_400
    &&& 1 <= year <= 9999
    &&& 1 <= month <= 12
    &&& 1 <= day <= 28
    &&& hour < 24
    &&& min < 60
    &&& sec < 60
}

/// The seconds since the epoch at which a clock `offset_secs` east of UTC
/// shows the given date and time in the proleptic Gregorian calendar, as
/// `chrono` computes them; `None` where `chrono` finds no such offset, date or
/// time.
pub uninterp spec fn local_epoch_seconds(
    offset_secs: i32,
    year: i32,
    month: u32,
    day: u32,
    hour: u32,
    min: u32,
    sec: u32,
) -> Option<i64>;

/// Reads the system clock with `chrono::Utc::now`.
///
/// Not proved: that the reading is at or after the epoch and that its
/// sub-second part is below one second. `chrono` builds the reading from the
/// time the system reports since the epoch, and panics where the system clock
/// is set before 1970.
#[verifier::external_body]
fn utc_now() -> (r: (i64, u32))
    ensures
        r.0 >= 0,
        r.1 < 1_000_000_000,
{
    let now = chrono::Utc::now();
    (now.timestamp(), now.timestamp_subsec_nanos())
}

/// Asks `chrono` for a local date and time at a fixed offset, with
/// `FixedOffset::east_opt` and `TimeZone::with_ymd_and_hms`, and hands back
/// the seconds since the epoch of the one instant found.
///
/// Not proved: that the answer is `local_epoch_seconds` of the arguments, and
/// that there is an answer for every plain date: `chrono` accepts offsets
/// within a day of UTC, every day up to the 28th of every month, times of day
/// below 24:00:00, and years far beyond 1 to 9999.
#[verifier::external_body]
fn local_to_epoch_seconds(
    offset_secs: i32,
    year: i32,
    month: u32,
    day: u32,
    hour: u32,
    min: u32,
    sec: u32,
) -> (r: Option<i64>)
    ensures
        r == local_epoch_seconds(offset_secs, year, month, day, hour, min, sec),
        plain_local(offset_secs, year, month, day, hour, min, sec) ==> r.is_some(),
{
    let offset = chrono::FixedOffset::east_opt(offset_secs)?;
    let found = chrono::TimeZone::with_ymd_and_hms(&offset, year, month, day, hour, min, sec);
    Some(found.single()?.timestamp())
}

} // verus!
