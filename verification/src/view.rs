//! What the display draws beside the clock face: the rows of the event
//! list, the event of the moment, and the two filter tabs.

use vstd::prelude::*;
use crate::date_ext::DateExt;
use crate::filter::{
    lemma_shown_positions, selects, shown_positions, visible_events, EventFilter,
};
use crate::google::{CalendarEvent, EventView};
use crate::label::{format_event, label_of, EventLabel, LabelView};
use crate::local_time::{day_month_text, format_day_month, LocalTime};

verus! {

/// One row of the event list: a date header, where the row opens a new
/// day, and the label of the event.
#[derive(Debug)]
pub struct EventRow {
    pub date_header: Option<String>,
    pub label: EventLabel,
}

/// What a row is to the contracts.
pub struct RowView {
    pub date_header: Option<Seq<char>>,
    pub label: LabelView,
}

impl View for EventRow {
    type V = RowView;

    open spec fn view(&self) -> RowView {
        RowView {
            date_header: match self.date_header {
                Some(text) => Some(text@),
                None => None,
            },
            label: self.label@,
        }
    }
}

/// The date header of a timestamp: day and month of its local date.
pub open spec fn date_header_of(t: LocalTime) -> Seq<char> {
    day_month_text(t.utc_seconds(), t.subsec_nanos(), t.offset_seconds())
}

/// The timestamp whose day row `k` is compared with: the current time for
/// the first row, the start of the event one row up for the others.
pub open spec fn day_above(events: Seq<CalendarEvent>, at: Seq<int>, now: LocalTime, k: int)
    -> LocalTime {
    if k == 0 {
        now
    } else {
        events[at[k - 1]].start
    }
}

/// Whether a row gets a date header: only under `Later`, and only where
/// the event starts on another day than the row above.
pub open spec fn opens_day(filter: EventFilter, above: LocalTime, start: LocalTime) -> bool {
    filter == EventFilter::Later && above.day() != start.day()
}

/// Row `k` of the display of the events at the positions `at`.
pub open spec fn row_of(
    events: Seq<CalendarEvent>,
    at: Seq<int>,
    now: LocalTime,
    filter: EventFilter,
    k: int,
) -> RowView {
    let event = events[at[k]];
    RowView {
        date_header: if opens_day(filter, day_above(events, at, now, k), event.start) {
            Some(date_header_of(event.start))
        } else {
            None
        },
        label: label_of(event@, now, events),
    }
}

/// The rows of the event list at time `now` under `filter`: one row for
/// each event on display, in display order.
pub open spec fn rows_of(events: Seq<CalendarEvent>, now: LocalTime, filter: EventFilter) -> Seq<
    RowView,
> {
    let at = shown_positions(events, now, filter);
    Seq::new(at.len(), |k: int| row_of(events, at, now, filter, k))
}

/// Under `Today` no row carries a date header.
pub proof fn lemma_today_has_no_headers(events: Seq<CalendarEvent>, now: LocalTime, k: int)
    requires
        0 <= k < rows_of(events, now, EventFilter::Today).len(),
    ensures
        rows_of(events, now, EventFilter::Today)[k].date_header is None,
{
}

/// Under `Later` the first row always carries a date header: its event
/// starts on a later day than `now`.
pub proof fn lemma_later_opens_with_a_header(events: Seq<CalendarEvent>, now: LocalTime)
    requires
        rows_of(events, now, EventFilter::Later).len() > 0,
    ensures
        rows_of(events, now, EventFilter::Later)[0].date_header is Some,
{
    lemma_shown_positions(events, now, EventFilter::Later);
    let at = shown_positions(events, now, EventFilter::Later);
    assert(selects(EventFilter::Later, events[at[0]]@, now));
}

/// The views of a list of rows.
pub open spec fn row_views(rows: Seq<EventRow>) -> Seq<RowView> {
    Seq::new(rows.len(), |k: int| rows[k]@)
}

/// The rows to draw at time `now` under `filter`.
///
/// There is one row for each event that `visible_events` picks, in that
/// order, so never more than ten. A list without events gives no rows.
pub fn render_events(events: &Vec<CalendarEvent>, now: &LocalTime, filter: EventFilter) -> (rows:
    Vec<EventRow>)
    ensures
        row_views(rows@) == rows_of(events@, *now, filter),
        rows@.len() <= 10,
        events@.len() == 0 ==> rows@.len() == 0,
{
    let shown = visible_events(events, now, filter);
    let ghost at = shown_positions(events@, *now, filter);
    let mut rows: Vec<EventRow> = Vec::new();
    let mut above: LocalTime = *now;
    let mut k: usize = 0;
    while k < shown.len()
        invariant
            k <= shown@.len(),
            rows@.len() == k,
            shown@.len() == at.len(),
            forall|n: int| 0 <= n < shown@.len() ==> #[trigger] shown@[n] < events@.len(),
            forall|n: int| 0 <= n < shown@.len() ==> #[trigger] shown@[n] as int == at[n],
            above == day_above(events@, at, *now, k as int),
            forall|n: int| 0 <= n < k ==> (#[trigger] rows@[n])@ == row_of(events@, at, *now, filter, n),
        decreases shown@.len() - k,
    {
        let event = &events[shown[k]];
        let date_header = match filter {
            EventFilter::Later => {
                if !above.is_on_same_day_as(&event.start) {
                    Some(format_day_month(&event.start))
                } else {
                    None
                }
            },
            EventFilter::Today => None,
        };
        rows.push(EventRow { date_header, label: format_event(event, now, events) });
        above = event.start;
        k += 1;
    }
    proof {
        assert(row_views(rows@) =~= rows_of(events@, *now, filter));
    }
    rows
}

/// Whether the event counts as the event of the moment: it ends on the day
/// of `now`, and its end or its start lies before `now`.
pub open spec fn is_current(event: EventView, now: LocalTime) -> bool {
    &&& event.end.day() == now.day()
    &&& (event.end.instant() < now.instant() || event.start.instant() < now.instant())
}

/// The position of the first event at or after `from` that is the event
/// of the moment, or `None` where there is none.
pub open spec fn first_current_from(events: Seq<CalendarEvent>, now: LocalTime, from: int)
    -> Option<int>
    decreases events.len() - from,
{
    if from >= events.len() {
        None
    } else if is_current(events[from]@, now) {
        Some(from)
    } else {
        first_current_from(events, now, from + 1)
    }
}

/// The position of the first event of the list that is the event of the
/// moment, or `None` where there is none.
pub open spec fn first_current(events: Seq<CalendarEvent>, now: LocalTime) -> Option<int> {
    first_current_from(events, now, 0)
}

/// The position of the first event in `events` that is the event of the
/// moment, or `None` where no event is: no event at all in an empty list.
pub fn next_event(events: &Vec<CalendarEvent>, now: &LocalTime) -> (found: Option<usize>)
    ensures
        match found {
            Some(at) => {
                &&& first_current(events@, *now) == Some(at as int)
                &&& at < events@.len()
                &&& is_current(events@[at as int]@, *now)
                &&& forall|j: int| 0 <= j < at ==> !is_current(#[trigger] events@[j]@, *now)
            },
            None => {
                &&& first_current(events@, *now) is None
                &&& forall|j: int|
                    0 <= j < events@.len() ==> !is_current(#[trigger] events@[j]@, *now)
            },
        },
{
    let mut i: usize = 0;
    while i < events.len()
        invariant
            i <= events@.len(),
            first_current(events@, *now) == first_current_from(events@, *now, i as int),
            forall|j: int| 0 <= j < i ==> !is_current(#[trigger] events@[j]@, *now),
        decreases events@.len() - i,
    {
        let event = &events[i];
        if event.end.is_on_same_day_as(now) && (event.end.is_before(now) || event.start.is_before(
            now,
        )) {
            return Some(i);
        }
        i += 1;
    }
    None
}

/// The label of the event of the moment, if there is one.
pub open spec fn next_label_of(events: Seq<CalendarEvent>, now: LocalTime) -> Option<LabelView> {
    match first_current(events, now) {
        Some(at) => Some(label_of(events[at]@, now, events)),
        None => None,
    }
}

/// The label of the event of the moment, or `None` where there is none.
pub fn render_next_event(events: &Vec<CalendarEvent>, now: &LocalTime) -> (label: Option<
    EventLabel,
>)
    ensures
        match label {
            Some(shown) => next_label_of(events@, *now) == Some(shown@),
            None => next_label_of(events@, *now) is None,
        },
{
    match next_event(events, now) {
        Some(at) => Some(format_event(&events[at], now, events)),
        None => None,
    }
}

} // verus!
