//! Points in time as the engine needs them: seconds since the Unix epoch,
//! and the offset of the local clock that recorded them.

use vstd::prelude::*;

verus! {

/// The first second that a [`Timestamp`] can hold: 0001-01-01T00:00:00Z.
pub const MIN_SECONDS: i64 = -62_135_596_800;

/// The last second that a [`Timestamp`] can hold: 9999-12-31T23:59:59Z.
pub const MAX_SECONDS: i64 = 253_402_300_799;

/// Seconds in a civil day.
pub const DAY_SECONDS: i64 = 86_400;

/// The day number, counted from 0001-01-01 as day 1, of 1970-01-01.
pub const EPOCH_DAY: i32 = 719_163;

/// Whether `secs` and `offset` make a timestamp: the second lies in the
/// years 1 to 9999, and the offset is less than a day either way.
pub open spec fn in_range(secs: int, offset: int) -> bool {
    &&& MIN_SECONDS <= secs <= MAX_SECONDS
    &&& -DAY_SECONDS < offset < DAY_SECONDS
}

/// The civil day on which second `secs` falls for a clock that is `offset`
/// seconds ahead of UTC, as a count of days since 0001-01-01 (day 1).
pub open spec fn day_number(secs: int, offset: int) -> int {
    (secs + offset) / (DAY_SECONDS as int) + EPOCH_DAY
}

/// A point in time, with the offset from UTC of the clock that observed it.
#[derive(Clone, Copy, Debug, PartialEq, Eq)]
pub struct Timestamp {
    secs: i64,
    offset: i32,
}

impl Timestamp {
    #[verifier::type_invariant]
    spec fn valid(self) -> bool {
        in_range(self.secs as int, self.offset as int)
    }

    /// Seconds since 1970-01-01T00:00:00Z.
    pub closed spec fn seconds(self) -> int {
        self.secs as int
    }

    /// Seconds by which the observing clock is ahead of UTC.
    pub closed spec fn utc_offset(self) -> int {
        self.offset as int
    }

    /// The civil day of this point in time on the observing clock.
    pub open spec fn day(self) -> int {
        day_number(self.seconds(), self.utc_offset())
    }

    /// A timestamp from its two parts, where they are in range.
    pub fn new(secs: i64, offset: i32) -> (made: Option<Timestamp>)
        ensures
            made.is_some() == in_range(secs as int, offset as int),
            made matches Some(t) ==> t.seconds() == secs && t.utc_offset() == offset,
    {
        if MIN_SECONDS <= secs && secs <= MAX_SECONDS && -DAY_SECONDS < (offset as i64)
            && (offset as i64) < DAY_SECONDS {
            Some(Timestamp { secs, offset })
        } else {
            None
        }
    }

    /// The Unix epoch on a UTC clock.
    pub fn epoch() -> (made: Timestamp)
        ensures
            made.seconds() == 0,
            made.utc_offset() == 0,
    {
        Timestamp { secs: 0, offset: 0 }
    }

    /// Seconds since the Unix epoch.
    pub fn timestamp(&self) -> (secs: i64)
        ensures
            secs == self.seconds(),
            in_range(self.seconds(), self.utc_offset()),
    {
        proof {
            use_type_invariant(self);
        }
        self.secs
    }

    /// Seconds by which the observing clock is ahead of UTC.
    pub fn offset(&self) -> (offset: i32)
        ensures
            offset == self.utc_offset(),
            in_range(self.seconds(), self.utc_offset()),
    {
        proof {
            use_type_invariant(self);
        }
        self.offset
    }

    /// The civil day of this point in time on the observing clock.
    pub fn num_days_from_ce(&self) -> (day: i32)
        ensures
            day == self.day(),
    {
        proof {
            use_type_invariant(self);
        }
        local_day_number(self.secs, self.offset)
    }

    /// Whether both points in time fall on one civil day, each on its own
    /// clock.
    pub fn same_day(&self, other: &Timestamp) -> (same: bool)
        ensures
            same == (self.day() == other.day()),
    {
        self.num_days_from_ce() == other.num_days_from_ce()
    }

    /// Seconds from `earlier` to this point in time; negative where
    /// `earlier` is the later of the two.
    pub fn seconds_since(&self, earlier: &Timestamp) -> (elapsed: i64)
        ensures
            elapsed == self.seconds() - earlier.seconds(),
    {
        proof {
            use_type_invariant(self);
            use_type_invariant(earlier);
        }
        self.secs - earlier.secs
    }
}

/// The date of a point in time, asked of chrono: `DateTime::from_timestamp`
/// makes the UTC date and time, `with_timezone` moves it to a `FixedOffset`,
/// `date_naive` takes the local date and `num_days_from_ce` numbers it.
/// Trusted: that number is the count of whole days that `secs + offset`
/// spans, plus the number of 1970-01-01.
#[verifier::external_body]
fn local_day_number(secs: i64, offset: i32) -> (day: i32)
    requires
        in_range(secs as int, offset as int),
    ensures
        day == day_number(secs as int, offset as int),
{
    let zone = chrono::FixedOffset::east_opt(offset).unwrap();
    let utc = chrono::DateTime::from_timestamp(secs, 0).unwrap();
    chrono::Datelike::num_days_from_ce(&utc.with_timezone(&zone).date_naive())
}

} // verus!
