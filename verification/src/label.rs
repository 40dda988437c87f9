//! The label of one event: its text and the one emphasis it is drawn with.

use vstd::prelude::*;
use vstd::string::StringExecFns;
use crate::date_ext::DateExt;
use crate::google::{CalendarEvent, EventView};
use crate::local_time::{clock_face, format_hour_minute, LocalTime};

verus! {

/// How a label is drawn. A label has exactly one emphasis.
#[derive(Clone, Copy, Debug, PartialEq, Eq, Structural)]
pub enum Emphasis {
    /// No emphasis.
    Plain,
    /// Light red: the event started within the last ten minutes.
    Imminent,
    /// Light green: the event has not started yet.
    Upcoming,
    /// Bold: the event leads the event list.
    Strong,
    /// Struck through: the event is over.
    Struck,
}

/// An event that starts later than this many seconds before the current
/// time counts as imminent.
pub const IMMINENT_LEAD_SECONDS: i64 = 600;

/// A label as it is handed to the display.
#[derive(Debug)]
pub struct EventLabel {
    pub text: String,
    pub emphasis: Emphasis,
}

/// What a label is to the contracts.
pub struct LabelView {
    pub text: Seq<char>,
    pub emphasis: Emphasis,
}

impl View for EventLabel {
    type V = LabelView;

    open spec fn view(&self) -> LabelView {
        LabelView { text: self.text@, emphasis: self.emphasis }
    }
}

/// The text of an event's label: start and end as `HH:MM`, then the
/// summary.
pub open spec fn label_text(event: EventView) -> Seq<char> {
    clock_face(event.start.hour_of_day(), event.start.minute_of_hour()) + " - "@ + clock_face(
        event.end.hour_of_day(),
        event.end.minute_of_hour(),
    ) + ":   "@ + event.summary
}

/// Whether `event` equals the first event of the list.
pub open spec fn leads(events: Seq<CalendarEvent>, event: EventView) -> bool {
    events.len() > 0 && events[0]@ == event
}

/// The emphasis of an event at time `now`, where `first` says whether the
/// event leads the list. An event that is over is struck through and
/// nothing else. Otherwise bold goes before light green, and light green
/// before light red.
pub open spec fn emphasis_of(event: EventView, now: LocalTime, first: bool) -> Emphasis {
    if event.end.instant() < now.instant() {
        Emphasis::Struck
    } else if first {
        Emphasis::Strong
    } else if event.start.instant() > now.instant() {
        Emphasis::Upcoming
    } else if event.start.instant() > now.instant() - IMMINENT_LEAD_SECONDS * 1_000_000_000 {
        Emphasis::Imminent
    } else {
        Emphasis::Plain
    }
}

/// The label of `event` at time `now`, in a clock whose event list is
/// `events`.
pub open spec fn label_of(event: EventView, now: LocalTime, events: Seq<CalendarEvent>)
    -> LabelView {
    LabelView {
        text: label_text(event),
        emphasis: emphasis_of(event, now, leads(events, event)),
    }
}

/// The label of `event` at time `now`. `events` is the whole event list of
/// the clock: the event that equals its first entry is drawn bold.
///
/// An event that ended before `now` is struck through, whatever else holds
/// of it.
pub fn format_event(event: &CalendarEvent, now: &LocalTime, events: &Vec<CalendarEvent>) -> (label:
    EventLabel)
    ensures
        label@ == label_of(event@, *now, events@),
        event.end.instant() < now.instant() ==> label.emphasis == Emphasis::Struck,
{
    let mut text = format_hour_minute(&event.start);
    text.append(" - ");
    let end_text = format_hour_minute(&event.end);
    text.append(end_text.as_str());
    text.append(":   ");
    text.append(event.summary.as_str());
    if event.end.is_before(now) {
        return EventLabel { text, emphasis: Emphasis::Struck };
    }
    let mut emphasis = Emphasis::Plain;
    if now.is_before_plus(&event.start, IMMINENT_LEAD_SECONDS) {
        emphasis = Emphasis::Imminent;
    }
    if event.start.is_after(now) {
        emphasis = Emphasis::Upcoming;
    }
    if events.len() > 0 && *event == events[0] {
        emphasis = Emphasis::Strong;
    }
    EventLabel { text, emphasis }
}

} // verus!
