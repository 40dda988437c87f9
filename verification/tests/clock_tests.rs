use deskclock::clock::{DeskClock, GOOGLE_REFRESH_INTERVAL};
use deskclock::filter::EventFilter;
use deskclock::google::{CalendarEvent, FetchedEvent};
use deskclock::label::Emphasis;
use deskclock::local_time::LocalTime;

/// 2024-03-15 00:00:00 UTC.
const BASE: i64 = 1_710_460_800;

fn at(hour: i64, minute: i64) -> LocalTime {
    LocalTime::new(BASE + hour * 3_600 + minute * 60, 0, 3_600).expect("a timestamp in range")
}

fn plus(t: LocalTime, secs: i64, nanos: u32) -> LocalTime {
    LocalTime::new(t.timestamp() + secs, nanos, t.offset()).expect("a timestamp in range")
}

fn event(start: LocalTime, end: LocalTime, summary: &str) -> CalendarEvent {
    CalendarEvent { start, end, summary: summary.to_string() }
}

fn entry(start: LocalTime, end: LocalTime, summary: &str) -> FetchedEvent {
    FetchedEvent { start: Some(start), end: Some(end), summary: Some(summary.to_string()) }
}

fn two_events() -> Vec<CalendarEvent> {
    vec![event(at(9, 0), at(9, 30), "Standup"), event(at(14, 0), at(15, 0), "Review")]
}

#[test]
fn a_new_clock_shows_today() {
    let clock = DeskClock::new(at(10, 0), two_events());
    assert_eq!(clock.current_time(), at(10, 0));
    assert_eq!(clock.last_event_update(), at(10, 0));
    assert_eq!(clock.events(), &two_events());
    assert_eq!(clock.current_filter(), EventFilter::Today);
    assert!(!clock.refresh_due());
}

#[test]
fn the_time_moves_forward() {
    let mut clock = DeskClock::new(at(10, 0), two_events());
    assert!(clock.update_time(at(10, 1)));
    assert_eq!(clock.current_time(), at(10, 1));
    assert_eq!(clock.last_event_update(), at(10, 0));
    assert_eq!(clock.events(), &two_events());
    assert!(clock.update_time(at(10, 1)));
    assert_eq!(clock.current_time(), at(10, 1));
}

#[test]
fn the_time_may_go_back_as_far_as_the_last_fetch() {
    let mut clock = DeskClock::new(at(10, 0), two_events());
    assert!(clock.update_time(at(10, 30)));
    assert!(clock.update_time(at(10, 10)));
    assert_eq!(clock.current_time(), at(10, 10));
    assert!(clock.update_time(at(10, 0)));
    assert_eq!(clock.current_time(), at(10, 0));
}

#[test]
fn a_time_before_the_last_fetch_is_turned_down() {
    let start = plus(at(10, 0), 0, 5);
    let mut clock = DeskClock::new(start, two_events());
    assert!(clock.update_time(at(10, 30)));
    assert!(!clock.update_time(plus(at(10, 0), 0, 4)));
    assert_eq!(clock.current_time(), at(10, 30));
    assert_eq!(clock.last_event_update(), start);
    assert!(!clock.update_time(at(9, 0)));
    assert_eq!(clock.current_time(), at(10, 30));
    assert_eq!(clock.events(), &two_events());
}

#[test]
fn a_fetch_is_due_after_more_than_an_hour_of_whole_seconds() {
    assert_eq!(GOOGLE_REFRESH_INTERVAL, 3_600);
    let mut clock = DeskClock::new(at(10, 0), Vec::new());
    assert!(!clock.refresh_due());
    clock.update_time(at(10, 59));
    assert!(!clock.refresh_due());
    clock.update_time(at(11, 0));
    assert!(!clock.refresh_due());
    clock.update_time(plus(at(11, 0), 0, 999_999_999));
    assert!(!clock.refresh_due());
    clock.update_time(plus(at(11, 0), 1, 0));
    assert!(clock.refresh_due());
    clock.update_time(at(17, 0));
    assert!(clock.refresh_due());
}

#[test]
fn whole_seconds_are_counted_from_the_exact_time_of_the_fetch() {
    let mut clock = DeskClock::new(plus(at(10, 0), 0, 500), Vec::new());
    clock.update_time(plus(at(11, 0), 1, 499));
    assert!(!clock.refresh_due());
    clock.update_time(plus(at(11, 0), 1, 500));
    assert!(clock.refresh_due());
}

#[test]
fn the_offset_does_not_count_for_the_hour() {
    let start = LocalTime::new(BASE, 0, 0).unwrap();
    let mut clock = DeskClock::new(start, Vec::new());
    clock.update_time(LocalTime::new(BASE + 3_600, 0, 7_200).unwrap());
    assert!(!clock.refresh_due());
    clock.update_time(LocalTime::new(BASE + 3_601, 0, -7_200).unwrap());
    assert!(clock.refresh_due());
}

#[test]
fn a_tick_moves_the_time_and_says_whether_a_fetch_is_due() {
    let mut clock = DeskClock::new(at(10, 0), two_events());
    assert!(!clock.tick(at(10, 30)));
    assert_eq!(clock.current_time(), at(10, 30));
    assert!(clock.tick(at(11, 30)));
    assert_eq!(clock.current_time(), at(11, 30));
    assert!(clock.tick(at(9, 0)));
    assert_eq!(clock.current_time(), at(11, 30));
}

#[test]
fn a_fetch_that_is_not_due_changes_nothing() {
    let mut clock = DeskClock::new(at(10, 0), two_events());
    clock.update_time(at(10, 30));
    let fetched = Some(vec![entry(at(12, 0), at(13, 0), "Lunch")]);
    assert!(!clock.update_events(&fetched));
    assert_eq!(clock.events(), &two_events());
    assert_eq!(clock.last_event_update(), at(10, 0));
    assert_eq!(clock.current_time(), at(10, 30));
    assert!(!clock.update_events(&None));
    assert_eq!(clock.events(), &two_events());
}

#[test]
fn a_fetch_that_is_due_replaces_the_events() {
    let mut clock = DeskClock::new(at(10, 0), two_events());
    clock.set_filter(EventFilter::Later);
    clock.update_time(at(11, 30));
    let fetched = Some(vec![
        entry(at(12, 0), at(13, 0), "Lunch"),
        FetchedEvent { start: None, end: None, summary: None },
    ]);
    assert!(clock.update_events(&fetched));
    assert_eq!(
        clock.events(),
        &vec![event(at(12, 0), at(13, 0), "Lunch"), event(at(11, 30), at(11, 30), "No summary")]
    );
    assert_eq!(clock.last_event_update(), at(11, 30));
    assert_eq!(clock.current_time(), at(11, 30));
    assert_eq!(clock.current_filter(), EventFilter::Later);
    assert!(!clock.refresh_due());
    assert!(!clock.update_events(&None));
    assert_eq!(clock.events().len(), 2);
}

#[test]
fn scenario_a_failed_fetch_clears_the_clock() {
    let mut clock = DeskClock::new(at(10, 0), two_events());
    clock.update_time(at(10, 5));
    assert!(clock.render_next_event().is_some());
    assert_eq!(clock.render_events().len(), 2);
    assert!(clock.tick(at(11, 30)));
    assert!(clock.update_events(&None));
    assert!(clock.events().is_empty());
    assert_eq!(clock.last_event_update(), at(11, 30));
    assert!(clock.render_events().is_empty());
    assert!(clock.render_next_event().is_none());
    clock.set_filter(EventFilter::Later);
    assert!(clock.render_events().is_empty());
    assert!(clock.render_next_event().is_none());
}

#[test]
fn the_last_fetch_never_lies_after_the_current_time() {
    let mut clock = DeskClock::new(at(10, 0), two_events());
    let readings = [at(10, 5), at(9, 0), at(12, 0), at(11, 0), at(13, 30), at(13, 0), at(20, 0)];
    for reading in readings {
        clock.tick(reading);
        assert!(!clock.current_time().is_before_plus(&clock.last_event_update(), 0));
        clock.update_events(&Some(Vec::new()));
        assert!(!clock.current_time().is_before_plus(&clock.last_event_update(), 0));
    }
}

#[test]
fn the_face_shows_hour_and_minute() {
    let mut clock = DeskClock::new(at(0, 0), Vec::new());
    assert_eq!(clock.render_time(), "01:00");
    clock.update_time(at(8, 5));
    assert_eq!(clock.render_time(), "09:05");
    clock.update_time(at(22, 59));
    assert_eq!(clock.render_time(), "23:59");
    clock.update_time(plus(at(23, 0), 59, 999_999_999));
    assert_eq!(clock.render_time(), "00:00");
}

#[test]
fn the_face_agrees_with_hour_and_minute() {
    let mut clock = DeskClock::new(at(0, 0), Vec::new());
    for step in 0..200 {
        let now = plus(at(0, 0), step * 431, 0);
        assert!(clock.update_time(now));
        assert_eq!(clock.render_time(), format!("{:02}:{:02}", now.hour(), now.minute()));
    }
}

#[test]
fn the_filter_is_switched_by_hand() {
    let mut clock = DeskClock::new(at(10, 0), two_events());
    clock.set_filter(EventFilter::Later);
    assert_eq!(clock.current_filter(), EventFilter::Later);
    assert_eq!(clock.events(), &two_events());
    assert_eq!(clock.current_time(), at(10, 0));
    clock.set_filter(EventFilter::Later);
    assert_eq!(clock.current_filter(), EventFilter::Later);
    clock.set_filter(EventFilter::Today);
    assert_eq!(clock.current_filter(), EventFilter::Today);
}

#[test]
fn the_tabs_say_which_filter_is_in_use() {
    let mut clock = DeskClock::new(at(10, 0), Vec::new());
    let today = clock.render_event_label(EventFilter::Today);
    assert_eq!((today.text.as_str(), today.selected), ("today", true));
    let later = clock.render_event_label(EventFilter::Later);
    assert_eq!((later.text.as_str(), later.selected), ("later", false));
    clock.set_filter(EventFilter::Later);
    assert!(!clock.render_event_label(EventFilter::Today).selected);
    assert!(clock.render_event_label(EventFilter::Later).selected);
}

#[test]
fn scenario_the_clock_draws_both_events() {
    let mut start = two_events();
    start.push(event(plus(at(23, 5), 0, 0), plus(at(23, 30), 0, 0), "Tomorrow here"));
    let clock = DeskClock::new(at(10, 0), start);
    let rows = clock.render_events();
    assert_eq!(rows.len(), 2);
    assert_eq!(rows[0].label.text, "10:00 - 10:30:   Standup");
    assert_eq!(rows[0].label.emphasis, Emphasis::Struck);
    assert_eq!(rows[1].label.text, "15:00 - 16:00:   Review");
    assert_eq!(rows[1].label.emphasis, Emphasis::Upcoming);
    let next = clock.render_next_event().unwrap();
    assert_eq!(next.text, "10:00 - 10:30:   Standup");
    assert_eq!(next.emphasis, Emphasis::Struck);
    let label = clock.format_event(&clock.events()[1]);
    assert_eq!(label.emphasis, Emphasis::Upcoming);
}

#[test]
fn the_clock_draws_later_events_with_their_date() {
    let mut clock = DeskClock::new(at(22, 50), vec![event(at(23, 5), at(23, 35), "Night shift")]);
    assert!(clock.render_events().is_empty());
    clock.set_filter(EventFilter::Later);
    let rows = clock.render_events();
    assert_eq!(rows.len(), 1);
    assert_eq!(rows[0].date_header, Some("16-03".to_string()));
    assert_eq!(rows[0].label.text, "00:05 - 00:35:   Night shift");
}

#[test]
fn the_display_is_drawn_once_a_minute() {
    assert_eq!(deskclock::clock::REPAINT_SECONDS, 60);
}
