//! Which events the list shows: the events of today or the later ones,
//! thinned out when there are many, and never more than ten.

use vstd::prelude::*;
use crate::date_ext::DateExt;
use crate::google::{CalendarEvent, EventView};
use crate::local_time::LocalTime;

verus! {

/// Which part of the calendar the list shows.
#[derive(Clone, Copy, Debug, PartialEq, Eq, Structural)]
pub enum EventFilter {
    /// Events that start on the current day.
    Today,
    /// Events that start on a later day.
    Later,
}

/// The list never shows more events than this.
pub const MAX_NUM_EVENTS: usize = 10;

/// With more candidates than this, the list is thinned out.
pub const CROWDED_ABOVE: usize = 5;

/// A thinned list keeps the events that ended more than this many seconds
/// before the current time.
pub const LONG_OVER_SECONDS: i64 = 3_600;

/// Whether the filter admits the event: under `Today` it starts on the day
/// of `now`, under `Later` on a day after it.
pub open spec fn selects(filter: EventFilter, event: EventView, now: LocalTime) -> bool {
    match filter {
        EventFilter::Today => event.start.day() == now.day(),
        EventFilter::Later => event.start.day() > now.day(),
    }
}

/// Whether the event ended more than an hour before `now`.
pub open spec fn long_over(event: EventView, now: LocalTime) -> bool {
    event.end.instant() < now.instant() - LONG_OVER_SECONDS * 1_000_000_000
}

/// The positions `0, 1, .., n - 1`.
pub open spec fn positions(n: nat) -> Seq<int> {
    Seq::new(n, |i: int| i)
}

/// `selects`, as a predicate on the positions of `events`.
pub open spec fn selected_at(events: Seq<CalendarEvent>, now: LocalTime, filter: EventFilter)
    -> spec_fn(int) -> bool {
    |i: int| selects(filter, events[i]@, now)
}

/// `long_over`, as a predicate on the positions of `events`.
pub open spec fn long_over_at(events: Seq<CalendarEvent>, now: LocalTime) -> spec_fn(int) -> bool {
    |i: int| long_over(events[i]@, now)
}

/// The positions of the events that the filter admits, in list order.
pub open spec fn candidates(events: Seq<CalendarEvent>, now: LocalTime, filter: EventFilter) -> Seq<
    int,
> {
    positions(events.len()).filter(selected_at(events, now, filter))
}

/// The candidates after thinning: more than five candidates are cut down to
/// those that are long over, five or fewer all stay.
pub open spec fn thinned(events: Seq<CalendarEvent>, now: LocalTime, filter: EventFilter) -> Seq<
    int,
> {
    let all = candidates(events, now, filter);
    if all.len() > CROWDED_ABOVE {
        all.filter(long_over_at(events, now))
    } else {
        all
    }
}

/// The positions of the events on display: the first ten of the thinned
/// candidates.
pub open spec fn shown_positions(events: Seq<CalendarEvent>, now: LocalTime, filter: EventFilter)
    -> Seq<int> {
    let kept = thinned(events, now, filter);
    if kept.len() > MAX_NUM_EVENTS {
        kept.take(MAX_NUM_EVENTS as int)
    } else {
        kept
    }
}

/// The events at the given positions.
pub open spec fn events_at(events: Seq<CalendarEvent>, at: Seq<int>) -> Seq<CalendarEvent> {
    Seq::new(at.len(), |k: int| events[at[k]])
}

/// The events on display, in display order.
pub open spec fn shown_events(events: Seq<CalendarEvent>, now: LocalTime, filter: EventFilter)
    -> Seq<CalendarEvent> {
    events_at(events, shown_positions(events, now, filter))
}

/// A list of positions as integers.
pub open spec fn as_positions(indices: Seq<usize>) -> Seq<int> {
    indices.map_values(|i: usize| i as int)
}

/// Whether the positions lie below `bound` and strictly increase: such a
/// list picks a subsequence of a list of `bound` items.
pub open spec fn ascending_below(at: Seq<int>, bound: int) -> bool {
    &&& forall|k: int| 0 <= k < at.len() ==> 0 <= #[trigger] at[k] < bound
    &&& forall|j: int, k: int| 0 <= j < k < at.len() ==> at[j] < at[k]
}

/// Filtering an ascending list of positions leaves an ascending list, no
/// longer than before, of positions that were there and satisfy the
/// predicate.
pub proof fn lemma_filter_ascending(at: Seq<int>, bound: int, keep: spec_fn(int) -> bool)
    requires
        ascending_below(at, bound),
    ensures
        ascending_below(at.filter(keep), bound),
        at.filter(keep).len() <= at.len(),
        forall|k: int| 0 <= k < at.filter(keep).len() ==> keep(#[trigger] at.filter(keep)[k]),
        forall|k: int| 0 <= k < at.filter(keep).len() ==> at.contains(#[trigger] at.filter(keep)[k]),
    decreases at.len(),
{
    reveal(Seq::filter);
    if at.len() > 0 {
        let front = at.drop_last();
        lemma_filter_ascending(front, bound, keep);
        let kept = front.filter(keep);
        assert forall|k: int| 0 <= k < kept.len() implies #[trigger] kept[k] < at.last() && at.contains(
            kept[k],
        ) by {
            let j = choose|j: int| 0 <= j < front.len() && front[j] == kept[k];
            assert(at[j] == kept[k]);
        }
        if keep(at.last()) {
            assert(at[at.len() - 1] == at.last());
        }
    }
}

/// A filter that every item passes changes nothing.
pub proof fn lemma_filter_keeps_all(at: Seq<int>, keep: spec_fn(int) -> bool)
    requires
        forall|k: int| 0 <= k < at.len() ==> keep(#[trigger] at[k]),
    ensures
        at.filter(keep) == at,
    decreases at.len(),
{
    reveal(Seq::filter);
    if at.len() > 0 {
        lemma_filter_keeps_all(at.drop_last(), keep);
        assert(at.drop_last().push(at.last()) =~= at);
    }
}

/// The positions on display are at most ten, strictly increase, lie inside
/// the event list, and hold events that the filter admits.
pub proof fn lemma_shown_positions(events: Seq<CalendarEvent>, now: LocalTime, filter: EventFilter)
    ensures
        shown_positions(events, now, filter).len() <= MAX_NUM_EVENTS,
        ascending_below(shown_positions(events, now, filter), events.len() as int),
        forall|k: int|
            0 <= k < shown_positions(events, now, filter).len() ==> selects(
                filter,
                events[#[trigger] shown_positions(events, now, filter)[k]]@,
                now,
            ),
        candidates(events, now, filter).len() > CROWDED_ABOVE ==> forall|k: int|
            0 <= k < shown_positions(events, now, filter).len() ==> long_over(
                events[#[trigger] shown_positions(events, now, filter)[k]]@,
                now,
            ),
        shown_positions(events, now, filter).len() <= candidates(events, now, filter).len(),
{
    let all = candidates(events, now, filter);
    let kept = thinned(events, now, filter);
    let shown = shown_positions(events, now, filter);
    lemma_filter_ascending(
        positions(events.len()),
        events.len() as int,
        selected_at(events, now, filter),
    );
    lemma_filter_ascending(all, events.len() as int, long_over_at(events, now));
    assert forall|k: int| 0 <= k < kept.len() implies selects(filter, events[#[trigger] kept[k]]@, now)
        && 0 <= kept[k] < events.len() by {
        if all.len() > CROWDED_ABOVE {
            let j = choose|j: int| 0 <= j < all.len() && all[j] == kept[k];
            assert(selected_at(events, now, filter)(all[j]));
        } else {
            assert(selected_at(events, now, filter)(all[k]));
        }
    }
    assert forall|k: int| 0 <= k < shown.len() implies shown[k] == kept[k] by {}
    if all.len() > CROWDED_ABOVE {
        assert forall|k: int| 0 <= k < shown.len() implies long_over(
            events[#[trigger] shown[k]]@,
            now,
        ) by {
            assert(long_over_at(events, now)(kept[k]));
        }
    }
}

/// The display keeps the order of the list: the positions on display
/// strictly increase and lie inside the list, so the events on display are a
/// subsequence of it.
pub proof fn lemma_display_keeps_order(
    events: Seq<CalendarEvent>,
    now: LocalTime,
    filter: EventFilter,
)
    ensures
        ascending_below(shown_positions(events, now, filter), events.len() as int),
{
    lemma_shown_positions(events, now, filter);
}

/// Under `Today` every event on display starts on the day of `now`; under
/// `Later` every event on display starts on a day after it.
pub proof fn lemma_display_respects_filter(
    events: Seq<CalendarEvent>,
    now: LocalTime,
    filter: EventFilter,
    k: int,
)
    requires
        0 <= k < shown_events(events, now, filter).len(),
    ensures
        filter == EventFilter::Today ==> shown_events(events, now, filter)[k].start.day()
            == now.day(),
        filter == EventFilter::Later ==> shown_events(events, now, filter)[k].start.day()
            > now.day(),
{
    lemma_shown_positions(events, now, filter);
    let at = shown_positions(events, now, filter)[k];
    assert(selects(filter, events[at]@, now));
}

/// The display never holds more than ten events, however long the list.
pub proof fn lemma_display_at_most_ten(
    events: Seq<CalendarEvent>,
    now: LocalTime,
    filter: EventFilter,
)
    ensures
        shown_events(events, now, filter).len() <= 10,
{
    lemma_shown_positions(events, now, filter);
}

/// Two runs of the filter on the same list, time and mode give the same
/// positions: the contract of `visible_events` leaves no choice.
pub proof fn lemma_display_repeatable(
    events: Seq<CalendarEvent>,
    now: LocalTime,
    filter: EventFilter,
    first: Seq<usize>,
    second: Seq<usize>,
)
    requires
        as_positions(first) == shown_positions(events, now, filter),
        as_positions(second) == shown_positions(events, now, filter),
    ensures
        first == second,
{
    assert(first.len() == as_positions(first).len());
    assert(second.len() == as_positions(second).len());
    assert forall|k: int| 0 <= k < first.len() implies first[k] == second[k] by {
        assert(as_positions(first)[k] == first[k] as int);
        assert(as_positions(second)[k] == second[k] as int);
    }
    assert(first =~= second);
}

/// Filtering what is on display changes nothing: with the same time and
/// mode, every event on display is displayed again, in the same order.
pub proof fn lemma_display_idempotent(
    events: Seq<CalendarEvent>,
    now: LocalTime,
    filter: EventFilter,
)
    ensures
        shown_positions(shown_events(events, now, filter), now, filter) == positions(
            shown_events(events, now, filter).len(),
        ),
        shown_events(shown_events(events, now, filter), now, filter) == shown_events(
            events,
            now,
            filter,
        ),
{
    let at = shown_positions(events, now, filter);
    let once = shown_events(events, now, filter);
    let all = positions(once.len());
    lemma_shown_positions(events, now, filter);
    assert forall|k: int| 0 <= k < all.len() implies selected_at(once, now, filter)(
        #[trigger] all[k],
    ) by {
        assert(selects(filter, events[at[k]]@, now));
    }
    lemma_filter_keeps_all(all, selected_at(once, now, filter));
    assert(candidates(once, now, filter) == all);
    if all.len() > CROWDED_ABOVE {
        assert forall|k: int| 0 <= k < all.len() implies long_over_at(once, now)(
            #[trigger] all[k],
        ) by {
            assert(long_over(events[at[k]]@, now));
        }
        lemma_filter_keeps_all(all, long_over_at(once, now));
    }
    assert(shown_positions(once, now, filter) == all);
    assert(events_at(once, all) =~= once);
}

/// Whether the filter admits the event at time `now`.
pub fn is_selected(filter: EventFilter, event: &CalendarEvent, now: &LocalTime) -> (admitted: bool)
    ensures
        admitted == selects(filter, event@, *now),
{
    match filter {
        EventFilter::Today => event.start.is_on_same_day_as(now),
        EventFilter::Later => event.start.is_on_later_day_than(now),
    }
}

/// Whether the event ended more than an hour before `now`.
pub fn is_long_over(event: &CalendarEvent, now: &LocalTime) -> (over: bool)
    ensures
        over == long_over(event@, *now),
{
    event.end.is_before_plus(now, -LONG_OVER_SECONDS)
}

/// The positions in `events` of the events to display at time `now` under
/// `filter`, in display order.
///
/// The result is a subsequence of the list: the positions strictly increase.
/// It holds at most ten positions, and only events that the filter admits.
pub fn visible_events(events: &Vec<CalendarEvent>, now: &LocalTime, filter: EventFilter) -> (shown:
    Vec<usize>)
    ensures
        as_positions(shown@) == shown_positions(events@, *now, filter),
        shown@.len() <= MAX_NUM_EVENTS,
        forall|k: int| 0 <= k < shown@.len() ==> #[trigger] shown@[k] < events@.len(),
        forall|j: int, k: int| 0 <= j < k < shown@.len() ==> shown@[j] < shown@[k],
        forall|k: int|
            0 <= k < shown@.len() ==> selects(filter, events@[#[trigger] shown@[k] as int]@, *now),
{
    let ghost admitted = selected_at(events@, *now, filter);
    let ghost over = long_over_at(events@, *now);
    let mut all: Vec<usize> = Vec::new();
    let mut i: usize = 0;
    while i < events.len()
        invariant
            i <= events@.len(),
            admitted == selected_at(events@, *now, filter),
            as_positions(all@) =~= positions(i as nat).filter(admitted),
            forall|k: int| 0 <= k < all@.len() ==> #[trigger] all@[k] < events@.len(),
        decreases events@.len() - i,
    {
        proof {
            reveal(Seq::filter);
            assert(positions((i + 1) as nat).drop_last() =~= positions(i as nat));
        }
        if is_selected(filter, &events[i], now) {
            all.push(i);
        }
        i += 1;
    }
    let mut kept: Vec<usize> = all;
    if kept.len() > CROWDED_ABOVE {
        let all = kept;
        kept = Vec::new();
        let mut j: usize = 0;
        while j < all.len()
            invariant
                j <= all@.len(),
                over == long_over_at(events@, *now),
                as_positions(kept@) =~= as_positions(all@).take(j as int).filter(over),
                forall|k: int| 0 <= k < all@.len() ==> #[trigger] all@[k] < events@.len(),
                forall|k: int| 0 <= k < kept@.len() ==> #[trigger] kept@[k] < events@.len(),
            decreases all@.len() - j,
        {
            proof {
                reveal(Seq::filter);
                assert(as_positions(all@).take(j + 1).drop_last() =~= as_positions(all@).take(
                    j as int,
                ));
            }
            let at = all[j];
            if is_long_over(&events[at], now) {
                kept.push(at);
            }
            j += 1;
        }
        proof {
            assert(as_positions(all@).take(all@.len() as int) =~= as_positions(all@));
        }
    }
    assert(as_positions(kept@) == thinned(events@, *now, filter));
    kept.truncate(MAX_NUM_EVENTS);
    proof {
        assert(as_positions(kept@) =~= shown_positions(events@, *now, filter));
        lemma_shown_positions(events@, *now, filter);
        assert forall|k: int| 0 <= k < kept@.len() implies selects(
            filter,
            events@[#[trigger] kept@[k] as int]@,
            *now,
        ) by {
            assert(as_positions(kept@)[k] == kept@[k] as int);
        }
        assert forall|j: int, k: int| 0 <= j < k < kept@.len() implies kept@[j] < kept@[k] by {
            assert(as_positions(kept@)[j] == kept@[j] as int);
            assert(as_positions(kept@)[k] == kept@[k] as int);
        }
    }
    kept
}

} // verus!
