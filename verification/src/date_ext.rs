//! Comparisons between local timestamps, by calendar day and by instant.

use vstd::prelude::*;
use crate::local_time::LocalTime;

verus! {

/// Day and instant comparisons for a value that stands for a local
/// timestamp.
pub trait DateExt {
    /// The timestamp that the value stands for.
    spec fn as_local_time(&self) -> LocalTime;

    /// Whether the local date is the date that the system clock shows now.
    ///
    /// The answer is that of `is_on_same_day_as` for a time that the clock
    /// can show. Which time the clock shows is not known beforehand, so for
    /// a time that the caller holds, `is_on_same_day_as` is the one to call.
    fn is_today(&self) -> (today: bool)
        ensures
            exists|now: LocalTime| #[trigger]
                now.can_be_now() && today == (self.as_local_time().day() == now.day()),
    ;

    /// Whether the local date is later than the date that the system clock
    /// shows now.
    ///
    /// The answer is that of `is_on_later_day_than` for a time that the
    /// clock can show. Which time the clock shows is not known beforehand,
    /// so for a time that the caller holds, `is_on_later_day_than` is the
    /// one to call.
    fn is_after_today(&self) -> (later: bool)
        ensures
            exists|now: LocalTime| #[trigger]
                now.can_be_now() && later == (self.as_local_time().day() > now.day()),
    ;

    /// Whether both timestamps fall on the same local calendar day.
    fn is_on_same_day_as(&self, other: &LocalTime) -> (same: bool)
        ensures
            same == (self.as_local_time().day() == other.day()),
    ;

    /// Whether this timestamp falls on a later local calendar day than
    /// `other`.
    fn is_on_later_day_than(&self, other: &LocalTime) -> (later: bool)
        ensures
            later == (self.as_local_time().day() > other.day()),
    ;

    /// Whether this instant is strictly earlier than `other`.
    fn is_before(&self, other: &LocalTime) -> (earlier: bool)
        ensures
            earlier == (self.as_local_time().instant() < other.instant()),
    ;

    /// Whether this instant is strictly later than `other`.
    fn is_after(&self, other: &LocalTime) -> (later: bool)
        ensures
            later == (self.as_local_time().instant() > other.instant()),
    ;
}

impl DateExt for LocalTime {
    open spec fn as_local_time(&self) -> LocalTime {
        *self
    }

    fn is_today(&self) -> (today: bool) {
        let now = LocalTime::now();
        self.is_on_same_day_as(&now)
    }

    fn is_after_today(&self) -> (later: bool) {
        let now = LocalTime::now();
        self.is_on_later_day_than(&now)
    }

    fn is_on_same_day_as(&self, other: &LocalTime) -> (same: bool) {
        self.day_number() == other.day_number()
    }

    fn is_on_later_day_than(&self, other: &LocalTime) -> (later: bool) {
        self.day_number() > other.day_number()
    }

    fn is_before(&self, other: &LocalTime) -> (earlier: bool) {
        self.is_before_plus(other, 0)
    }

    fn is_after(&self, other: &LocalTime) -> (later: bool) {
        other.is_before_plus(self, 0)
    }
}

} // verus!
