//! Calendar events as the clock shows them, and how the entries that the
//! calendar service sends become such events.

use vstd::prelude::*;
use vstd::std_specs::cmp::PartialEqSpecImpl;
use crate::local_time::LocalTime;

verus! {

/// One calendar entry: when it starts, when it ends, and what it is called.
#[derive(Debug)]
pub struct CalendarEvent {
    pub start: LocalTime,
    pub end: LocalTime,
    pub summary: String,
}

/// What a calendar entry is to the contracts: its two timestamps and the
/// characters of its summary.
pub struct EventView {
    pub start: LocalTime,
    pub end: LocalTime,
    pub summary: Seq<char>,
}

impl View for CalendarEvent {
    type V = EventView;

    open spec fn view(&self) -> EventView {
        EventView { start: self.start, end: self.end, summary: self.summary@ }
    }
}

impl PartialEq for CalendarEvent {
    /// Two events are equal when start, end and summary are.
    fn eq(&self, other: &CalendarEvent) -> (equal: bool) {
        self.start == other.start && self.end == other.end && self.summary == other.summary
    }
}

impl PartialEqSpecImpl for CalendarEvent {
    open spec fn obeys_eq_spec() -> bool {
        true
    }

    open spec fn eq_spec(&self, other: &CalendarEvent) -> bool {
        self@ == other@
    }
}

impl Clone for CalendarEvent {
    fn clone(&self) -> (copy: CalendarEvent)
        ensures
            copy@ == self@,
    {
        CalendarEvent { start: self.start, end: self.end, summary: self.summary.clone() }
    }
}

/// One entry as the calendar service sent it: each part may be missing.
#[derive(Debug)]
pub struct FetchedEvent {
    pub start: Option<LocalTime>,
    pub end: Option<LocalTime>,
    pub summary: Option<String>,
}

/// The summary shown for an entry that came without one.
pub open spec fn missing_summary() -> Seq<char> {
    "No summary"@
}

/// The event that a fetched entry becomes at time `now`: a missing
/// timestamp is `now`, a missing summary is the text `No summary`.
pub open spec fn event_of(entry: FetchedEvent, now: LocalTime) -> EventView {
    EventView {
        start: match entry.start {
            Some(t) => t,
            None => now,
        },
        end: match entry.end {
            Some(t) => t,
            None => now,
        },
        summary: match entry.summary {
            Some(text) => text@,
            None => missing_summary(),
        },
    }
}

/// The timestamp of an entry, or `fallback` where the entry has none.
pub fn extract_date_or_default(date_time: Option<LocalTime>, fallback: LocalTime) -> (t: LocalTime)
    ensures
        t == match date_time {
            Some(given) => given,
            None => fallback,
        },
{
    match date_time {
        Some(given) => given,
        None => fallback,
    }
}

/// Turns one fetched entry into an event, filling what is missing.
pub fn event_from_fetched(entry: &FetchedEvent, now: LocalTime) -> (event: CalendarEvent)
    ensures
        event@ == event_of(*entry, now),
{
    let summary = match &entry.summary {
        Some(text) => text.clone(),
        None => String::from_str("No summary"),
    };
    CalendarEvent {
        start: extract_date_or_default(entry.start, now),
        end: extract_date_or_default(entry.end, now),
        summary,
    }
}

/// The event list after a fetch. A fetch that failed (`None`) leaves no
/// events at all; one that succeeded gives one event per entry, in the
/// order in which the entries came.
pub fn events_from_fetch(fetched: &Option<Vec<FetchedEvent>>, now: LocalTime) -> (events: Vec<
    CalendarEvent,
>)
    ensures
        fetched is None ==> events@.len() == 0,
        fetched matches Some(entries) ==> {
            &&& events@.len() == entries@.len()
            &&& forall|i: int|
                0 <= i < entries@.len() ==> (#[trigger] events@[i])@ == event_of(entries@[i], now)
        },
{
    let mut events: Vec<CalendarEvent> = Vec::new();
    if let Some(entries) = fetched {
        let mut i: usize = 0;
        while i < entries.len()
            invariant
                i <= entries@.len(),
                events@.len() == i,
                forall|k: int| 0 <= k < i ==> (#[trigger] events@[k])@ == event_of(entries@[k], now),
            decreases entries@.len() - i,
        {
            events.push(event_from_fetched(&entries[i], now));
            i += 1;
        }
    }
    events
}

} // verus!
