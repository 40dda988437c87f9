//! The state of the desk clock and the steps that change it: the time moves
//! on, the event list is replaced once an hour, the filter is switched.

use vstd::prelude::*;
use crate::filter::EventFilter;
use crate::google::{event_of, events_from_fetch, CalendarEvent, FetchedEvent};
use crate::label::{format_event, label_of, Emphasis, EventLabel};
use crate::local_time::{clock_face, format_hour_minute, LocalTime};
use crate::view::{next_label_of, render_events, render_next_event, row_views, rows_of, EventRow};

verus! {

/// The event list is fetched again once more than this many whole seconds
/// have passed since the last fetch.
pub const GOOGLE_REFRESH_INTERVAL: i64 = 3_600;

/// The display is drawn again after this many seconds.
pub const REPAINT_SECONDS: u64 = 60;

/// The state of the clock.
pub struct DeskClock {
    current_time: LocalTime,
    last_event_update: LocalTime,
    events: Vec<CalendarEvent>,
    current_filter: EventFilter,
}

/// What the state is to the contracts.
pub struct ClockView {
    pub current_time: LocalTime,
    pub last_event_update: LocalTime,
    pub events: Seq<CalendarEvent>,
    pub current_filter: EventFilter,
}

impl ClockView {
    /// The last fetch does not lie after the current time.
    pub open spec fn well_timed(self) -> bool {
        self.last_event_update.instant() <= self.current_time.instant()
    }

    /// Whole seconds between the last fetch and the current time.
    pub open spec fn seconds_since_update(self) -> int {
        (self.current_time.instant() - self.last_event_update.instant()) / 1_000_000_000
    }

    /// Whether the event list is due for a fetch.
    pub open spec fn stale(self) -> bool {
        self.seconds_since_update() > GOOGLE_REFRESH_INTERVAL
    }
}

/// The text on the tab of a filter.
pub open spec fn tab_text(filter: EventFilter) -> Seq<char> {
    match filter {
        EventFilter::Today => "today"@,
        EventFilter::Later => "later"@,
    }
}

/// The tab of one filter: its text, and whether the filter is the one in
/// use.
#[derive(Debug)]
pub struct FilterTab {
    pub text: String,
    pub selected: bool,
}

impl View for DeskClock {
    type V = ClockView;

    closed spec fn view(&self) -> ClockView {
        ClockView {
            current_time: self.current_time,
            last_event_update: self.last_event_update,
            events: self.events@,
            current_filter: self.current_filter,
        }
    }
}

impl DeskClock {
    #[verifier::type_invariant]
    closed spec fn valid(self) -> bool {
        self@.well_timed()
    }

    /// The clock at its start: `events` were fetched at time `now`, and the
    /// list shows the events of today.
    pub fn new(now: LocalTime, events: Vec<CalendarEvent>) -> (clock: DeskClock)
        ensures
            clock@ == (ClockView {
                current_time: now,
                last_event_update: now,
                events: events@,
                current_filter: EventFilter::Today,
            }),
            clock@.well_timed(),
    {
        DeskClock {
            current_time: now,
            last_event_update: now,
            events,
            current_filter: EventFilter::Today,
        }
    }

    /// The current time of the clock.
    pub fn current_time(&self) -> (t: LocalTime)
        ensures
            t == self@.current_time,
            self@.well_timed(),
    {
        proof {
            use_type_invariant(self);
        }
        self.current_time
    }

    /// The time of the last fetch.
    pub fn last_event_update(&self) -> (t: LocalTime)
        ensures
            t == self@.last_event_update,
            self@.well_timed(),
    {
        proof {
            use_type_invariant(self);
        }
        self.last_event_update
    }

    /// The event list, as it was last fetched.
    pub fn events(&self) -> (events: &Vec<CalendarEvent>)
        ensures
            events@ == self@.events,
    {
        &self.events
    }

    /// The filter in use.
    pub fn current_filter(&self) -> (filter: EventFilter)
        ensures
            filter == self@.current_filter,
    {
        self.current_filter
    }

    /// Moves the clock to `now`. A reading that lies before the last fetch
    /// is turned down, and the clock stays as it is.
    pub fn update_time(&mut self, now: LocalTime) -> (accepted: bool)
        ensures
            accepted == (old(self)@.last_event_update.instant() <= now.instant()),
            accepted ==> final(self)@ == (ClockView { current_time: now, ..old(self)@ }),
            !accepted ==> final(self)@ == old(self)@,
            final(self)@.well_timed(),
    {
        proof {
            use_type_invariant(&*self);
        }
        if now.is_before_plus(&self.last_event_update, 0) {
            false
        } else {
            self.current_time = now;
            true
        }
    }

    /// Whether the event list is due for a fetch: more than an hour of
    /// whole seconds lies between the last fetch and the current time.
    pub fn refresh_due(&self) -> (due: bool)
        ensures
            due == self@.stale(),
    {
        proof {
            use_type_invariant(self);
        }
        !self.current_time.is_before_plus(&self.last_event_update, GOOGLE_REFRESH_INTERVAL + 1)
    }

    /// One tick of the clock: the time moves to `now` first, and the answer
    /// says whether the event list is then due for a fetch.
    pub fn tick(&mut self, now: LocalTime) -> (due: bool)
        ensures
            old(self)@.last_event_update.instant() <= now.instant() ==> final(self)@ == (ClockView {
                current_time: now,
                ..old(self)@
            }),
            old(self)@.last_event_update.instant() > now.instant() ==> final(self)@ == old(self)@,
            due == final(self)@.stale(),
            final(self)@.well_timed(),
    {
        self.update_time(now);
        self.refresh_due()
    }

    /// Takes the outcome of a fetch. Where the list is due for a fetch, the
    /// events are replaced as a whole by those that were fetched (by none,
    /// where the fetch failed), and the current time becomes the time of
    /// the last fetch. Where the list is not due, nothing changes.
    pub fn update_events(&mut self, fetched: &Option<Vec<FetchedEvent>>) -> (replaced: bool)
        ensures
            replaced == old(self)@.stale(),
            !replaced ==> final(self)@ == old(self)@,
            replaced ==> {
                &&& final(self)@.current_time == old(self)@.current_time
                &&& final(self)@.last_event_update == old(self)@.current_time
                &&& final(self)@.current_filter == old(self)@.current_filter
                &&& fetched is None ==> final(self)@.events.len() == 0
                &&& fetched matches Some(entries) ==> {
                    &&& final(self)@.events.len() == entries@.len()
                    &&& forall|i: int|
                        0 <= i < entries@.len() ==> (#[trigger] final(self)@.events[i])@
                            == event_of(entries@[i], old(self)@.current_time)
                }
            },
            final(self)@.well_timed(),
    {
        proof {
            use_type_invariant(&*self);
        }
        if self.refresh_due() {
            self.events = events_from_fetch(fetched, self.current_time);
            self.last_event_update = self.current_time;
            true
        } else {
            false
        }
    }

    /// Makes `filter` the filter in use.
    pub fn set_filter(&mut self, filter: EventFilter)
        ensures
            final(self)@ == (ClockView { current_filter: filter, ..old(self)@ }),
            final(self)@.well_timed(),
    {
        proof {
            use_type_invariant(&*self);
        }
        self.current_filter = filter;
    }

    /// The clock face: the current time as `HH:MM`.
    pub fn render_time(&self) -> (face: String)
        ensures
            face@ == clock_face(
                self@.current_time.hour_of_day(),
                self@.current_time.minute_of_hour(),
            ),
    {
        format_hour_minute(&self.current_time)
    }

    /// The rows of the event list under the filter in use.
    pub fn render_events(&self) -> (rows: Vec<EventRow>)
        ensures
            row_views(rows@) == rows_of(self@.events, self@.current_time, self@.current_filter),
            rows@.len() <= 10,
            self@.events.len() == 0 ==> rows@.len() == 0,
    {
        render_events(&self.events, &self.current_time, self.current_filter)
    }

    /// The label of `event` at the current time. An event that ended
    /// before the current time is struck through, whatever else holds of it.
    pub fn format_event(&self, event: &CalendarEvent) -> (label: EventLabel)
        ensures
            label@ == label_of(event@, self@.current_time, self@.events),
            event.end.instant() < self@.current_time.instant() ==> label.emphasis
                == Emphasis::Struck,
    {
        format_event(event, &self.current_time, &self.events)
    }

    /// The label of the event of the moment, or `None` where there is none.
    pub fn render_next_event(&self) -> (label: Option<EventLabel>)
        ensures
            match label {
                Some(shown) => next_label_of(self@.events, self@.current_time) == Some(shown@),
                None => next_label_of(self@.events, self@.current_time) is None,
            },
    {
        render_next_event(&self.events, &self.current_time)
    }

    /// The tab of `filter`: its text, and whether it is the filter in use.
    pub fn render_event_label(&self, filter: EventFilter) -> (tab: FilterTab)
        ensures
            tab.text@ == tab_text(filter),
            tab.selected == (self@.current_filter == filter),
    {
        let text = match filter {
            EventFilter::Today => String::from_str("today"),
            EventFilter::Later => String::from_str("later"),
        };
        FilterTab { text, selected: self.current_filter == filter }
    }
}

} // verus!
