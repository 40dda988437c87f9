//! A local timestamp: an instant on the UTC time line together with the
//! offset of the local zone at that instant.

use vstd::prelude::*;

verus! {

/// Unix timestamp of the first second that a chrono `DateTime` can hold.
pub const MIN_TIMESTAMP: i64 = -8_334_601_228_800;

/// Unix timestamp of the last second that a chrono `DateTime` can hold.
pub const MAX_TIMESTAMP: i64 = 8_210_266_876_799;

/// Whether the three numbers describe a timestamp: the seconds lie in the
/// range of chrono's `DateTime`, the nanoseconds are a fraction of one
/// second, and the offset is less than a day either way.
pub open spec fn representable(secs: int, nanos: int, offset: int) -> bool {
    &&& MIN_TIMESTAMP <= secs <= MAX_TIMESTAMP
    &&& 0 <= nanos < 1_000_000_000
    &&& -86_400 < offset < 86_400
}

/// The character that shows the decimal digit `d`.
pub open spec fn digit(d: int) -> char {
    seq!['0', '1', '2', '3', '4', '5', '6', '7', '8', '9'][d]
}

/// A number below one hundred written with two digits.
pub open spec fn two_digits(n: int) -> Seq<char> {
    seq![digit(n / 10), digit(n % 10)]
}

/// Hour and minute as a clock shows them: `HH:MM`.
pub open spec fn clock_face(hour: int, minute: int) -> Seq<char> {
    two_digits(hour) + seq![':'] + two_digits(minute)
}

/// The day of the month and the month, `DD-MM`, of the local calendar date
/// of the timestamp with these parts, as chrono writes them.
pub uninterp spec fn day_month_text(secs: int, nanos: int, offset: int) -> Seq<char>;

/// An instant with the local offset that applies to it.
///
/// Two values are equal when all three parts are equal.
#[derive(Clone, Copy, Debug, PartialEq, Eq, Structural)]
pub struct LocalTime {
    secs: i64,
    nanos: u32,
    offset: i32,
}

impl LocalTime {
    #[verifier::type_invariant]
    closed spec fn valid(self) -> bool {
        representable(self.secs as int, self.nanos as int, self.offset as int)
    }

    /// Whole seconds since 1970-01-01 00:00:00 UTC.
    pub closed spec fn utc_seconds(self) -> int {
        self.secs as int
    }

    /// Nanoseconds past the whole second.
    pub closed spec fn subsec_nanos(self) -> int {
        self.nanos as int
    }

    /// Seconds by which local time is ahead of UTC.
    pub closed spec fn offset_seconds(self) -> int {
        self.offset as int
    }

    /// Nanoseconds since the epoch: the position on the time line.
    pub open spec fn instant(self) -> int {
        self.utc_seconds() * 1_000_000_000 + self.subsec_nanos()
    }

    /// Seconds since the epoch as a local clock shows them.
    pub open spec fn local_seconds(self) -> int {
        self.utc_seconds() + self.offset_seconds()
    }

    /// The local calendar day, counted in days since 1970-01-01.
    pub open spec fn day(self) -> int {
        self.local_seconds() / 86_400
    }

    /// The hour of the local day, 0 to 23.
    pub open spec fn hour_of_day(self) -> int {
        (self.local_seconds() % 86_400) / 3_600
    }

    /// The minute of the local hour, 0 to 59.
    pub open spec fn minute_of_hour(self) -> int {
        (self.local_seconds() % 3_600) / 60
    }

    /// Whether the system clock can show this time: it is a timestamp, and
    /// it does not lie before the epoch, from which the clock counts.
    pub open spec fn can_be_now(self) -> bool {
        &&& representable(self.utc_seconds(), self.subsec_nanos(), self.offset_seconds())
        &&& self.utc_seconds() >= 0
    }

    /// Builds a timestamp from its three parts, if they describe one.
    pub fn new(secs: i64, nanos: u32, offset: i32) -> (made: Option<LocalTime>)
        ensures
            made is Some <==> representable(secs as int, nanos as int, offset as int),
            made matches Some(t) ==> t.utc_seconds() == secs && t.subsec_nanos() == nanos
                && t.offset_seconds() == offset,
    {
        if MIN_TIMESTAMP <= secs && secs <= MAX_TIMESTAMP && nanos < 1_000_000_000 && -86_400
            < offset && offset < 86_400 {
            Some(LocalTime { secs, nanos, offset })
        } else {
            None
        }
    }

    /// Whole seconds since the epoch.
    pub fn timestamp(&self) -> (secs: i64)
        ensures
            secs == self.utc_seconds(),
            MIN_TIMESTAMP <= secs <= MAX_TIMESTAMP,
    {
        proof {
            use_type_invariant(self);
        }
        self.secs
    }

    /// Nanoseconds past the whole second.
    pub fn timestamp_subsec_nanos(&self) -> (nanos: u32)
        ensures
            nanos == self.subsec_nanos(),
            nanos < 1_000_000_000,
    {
        proof {
            use_type_invariant(self);
        }
        self.nanos
    }

    /// Seconds by which local time is ahead of UTC.
    pub fn offset(&self) -> (offset: i32)
        ensures
            offset == self.offset_seconds(),
            -86_400 < offset < 86_400,
    {
        proof {
            use_type_invariant(self);
        }
        self.offset
    }

    /// The local calendar day, counted in days since 1970-01-01.
    pub fn day_number(&self) -> (day: i64)
        ensures
            day == self.day(),
    {
        proof {
            use_type_invariant(self);
        }
        let local: i64 = self.secs + self.offset as i64;
        match local.checked_div_euclid(86_400) {
            Some(day) => day,
            None => 0,
        }
    }

    /// The hour of the local day, 0 to 23.
    pub fn hour(&self) -> (hour: u32)
        ensures
            hour == self.hour_of_day(),
            hour < 24,
    {
        proof {
            use_type_invariant(self);
        }
        let local: i64 = self.secs + self.offset as i64;
        match local.checked_rem_euclid(86_400) {
            Some(second_of_day) => (second_of_day / 3_600) as u32,
            None => 0,
        }
    }

    /// The minute of the local hour, 0 to 59.
    pub fn minute(&self) -> (minute: u32)
        ensures
            minute == self.minute_of_hour(),
            minute < 60,
    {
        proof {
            use_type_invariant(self);
        }
        let local: i64 = self.secs + self.offset as i64;
        match local.checked_rem_euclid(3_600) {
            Some(second_of_hour) => (second_of_hour / 60) as u32,
            None => 0,
        }
    }

    /// Whether this instant is strictly earlier than the instant `seconds`
    /// after `other` (before it, where `seconds` is negative).
    pub fn is_before_plus(&self, other: &LocalTime, seconds: i64) -> (earlier: bool)
        ensures
            earlier == (self.instant() < other.instant() + seconds * 1_000_000_000),
    {
        proof {
            use_type_invariant(self);
            use_type_invariant(other);
        }
        let shifted: i128 = self.secs as i128 - seconds as i128;
        let target: i128 = other.secs as i128;
        shifted < target || (shifted == target && self.nanos < other.nanos)
    }

    /// The current time of the system clock in the local zone. Which time
    /// that is depends on the clock: promised is only that it is a timestamp
    /// at or after the epoch.
    pub fn now() -> (current: LocalTime)
        ensures
            current.can_be_now(),
    {
        let (secs, nanos, offset) = clock_reading();
        LocalTime { secs, nanos, offset }
    }
}

/// Calls `chrono::Local::now` and takes the result apart: its Unix
/// timestamp, the nanoseconds past the second and the local offset.
///
/// Trusted: the parts are those of a timestamp at or after the epoch.
/// chrono builds the time from the seconds and the nanoseconds below one
/// second that the system clock counts since the epoch, which it accepts
/// only inside its own range, and its offsets are less than a day. (With a
/// system clock set before 1970 chrono stops the program instead of
/// answering.)
#[verifier::external_body]
fn clock_reading() -> (parts: (i64, u32, i32))
    ensures
        representable(parts.0 as int, parts.1 as int, parts.2 as int),
        parts.0 >= 0,
{
    let current = chrono::Local::now();
    (current.timestamp(), current.timestamp_subsec_nanos(), current.offset().local_minus_utc())
}

/// Calls chrono's `DateTime::format` with the pattern `%H:%M` on the
/// timestamp in its own offset. The parts of a `LocalTime` are in the range
/// in which chrono builds the timestamp, so neither `unwrap` fails.
///
/// Trusted: the text is the hour and the minute of the local time of day,
/// two digits each, with a colon between them.
#[verifier::external_body]
pub(crate) fn format_hour_minute(t: &LocalTime) -> (text: String)
    ensures
        text@ == clock_face(t.hour_of_day(), t.minute_of_hour()),
{
    let zone = chrono::FixedOffset::east_opt(t.offset).unwrap();
    chrono::TimeZone::timestamp_opt(&zone, t.secs, t.nanos).unwrap().format("%H:%M").to_string()
}

/// Calls chrono's `DateTime::format` with the pattern `%d-%m` on the
/// timestamp in its own offset. The parts of a `LocalTime` are in the range
/// in which chrono builds the timestamp, so neither `unwrap` fails.
///
/// Trusted: the text depends on the three parts of the timestamp alone.
#[verifier::external_body]
pub(crate) fn format_day_month(t: &LocalTime) -> (text: String)
    ensures
        text@ == day_month_text(t.utc_seconds(), t.subsec_nanos(), t.offset_seconds()),
{
    let zone = chrono::FixedOffset::east_opt(t.offset).unwrap();
    chrono::TimeZone::timestamp_opt(&zone, t.secs, t.nanos).unwrap().format("%d-%m").to_string()
}

} // verus!
