use daygrid::calendar::Color;
use daygrid::clock::{get_utc_date_range_string, CivilDate, CivilTime, TimeWindow};
use daygrid::event::EventView;
use daygrid::render::{event_rect, event_rects, now_rect, Rect};
use daygrid::schedule::{Scheduler, Tick, CHECK_INTERVAL_MS};

fn view(start: u16, height: u16) -> EventView {
    EventView { title: "t".to_string(), height, color: Color::Red, start }
}

fn at(day: u32, hour: u32, minute: u32) -> CivilTime {
    CivilTime { year: 2023, month: 10, day, hour, minute }
}

#[test]
fn window_of_a_day_in_tokyo() {
    let window = TimeWindow::of_day("Asia/Tokyo", CivilDate { year: 2023, month: 10, day: 1 }).unwrap();
    assert_eq!(window.time_min, "2023-09-30T15:00:00+00:00");
    assert_eq!(window.time_max, "2023-10-01T14:59:59+00:00");
}

#[test]
fn window_of_a_day_in_utc_and_west_of_it() {
    let utc = TimeWindow::of_day("UTC", CivilDate { year: 2024, month: 2, day: 29 }).unwrap();
    assert_eq!(utc.time_min, "2024-02-29T00:00:00+00:00");
    assert_eq!(utc.time_max, "2024-02-29T23:59:59+00:00");
    let ny = TimeWindow::of_day("America/New_York", CivilDate { year: 2023, month: 7, day: 4 }).unwrap();
    assert_eq!(ny.time_min, "2023-07-04T04:00:00+00:00");
    assert_eq!(ny.time_max, "2023-07-05T03:59:59+00:00");
}

#[test]
fn window_of_no_day() {
    assert!(TimeWindow::of_day("Asia/Tokyo", CivilDate { year: 2023, month: 2, day: 30 }).is_none());
    assert!(TimeWindow::of_day("Asia/Tokyo", CivilDate { year: 2023, month: 13, day: 1 }).is_none());
    assert!(TimeWindow::of_day("Nowhere/Land", CivilDate { year: 2023, month: 10, day: 1 }).is_none());
    assert!(TimeWindow::at("Asia/Tokyo", None).is_none());
}

#[test]
fn window_from_bounds() {
    let window = TimeWindow::from_bounds(Some("a".to_string()), Some("b".to_string())).unwrap();
    assert_eq!(window.time_min, "a");
    assert_eq!(window.time_max, "b");
    assert!(TimeWindow::from_bounds(None, Some("b".to_string())).is_none());
    assert!(TimeWindow::from_bounds(Some("a".to_string()), None).is_none());
}

#[test]
fn window_of_the_day_of_a_moment() {
    // 2023-10-01 00:30 in Tokyo
    let window = get_utc_date_range_string("Asia/Tokyo", 1696087800).unwrap();
    assert_eq!(window.time_min, "2023-09-30T15:00:00+00:00");
    assert_eq!(window.time_max, "2023-10-01T14:59:59+00:00");
    // the same moment is still the day before in UTC
    let utc = get_utc_date_range_string("UTC", 1696087800).unwrap();
    assert_eq!(utc.time_min, "2023-09-30T00:00:00+00:00");
    assert_eq!(utc.time_max, "2023-09-30T23:59:59+00:00");
    assert!(get_utc_date_range_string("Nowhere/Land", 1696087800).is_none());
}

#[test]
fn date_of_a_time() {
    assert_eq!(at(7, 12, 30).date(), CivilDate { year: 2023, month: 10, day: 7 });
}

#[test]
fn rectangle_of_an_event() {
    let area = Rect { x: 0, y: 0, width: 80, height: 96 };
    assert_eq!(
        event_rect(area, &view(46, 2), 48),
        Some(Rect { x: 1, y: 92, width: 79, height: 4 })
    );
    assert_eq!(
        event_rect(area, &view(0, 48), 48),
        Some(Rect { x: 1, y: 0, width: 79, height: 96 })
    );
    let small = Rect { x: 3, y: 0, width: 10, height: 50 };
    assert_eq!(
        event_rect(small, &view(10, 4), 48),
        Some(Rect { x: 4, y: 10, width: 9, height: 4 })
    );
    let flat = Rect { x: 0, y: 0, width: 10, height: 40 };
    assert_eq!(
        event_rect(flat, &view(10, 4), 48),
        Some(Rect { x: 1, y: 0, width: 9, height: 0 })
    );
}

#[test]
fn rectangle_at_the_edges() {
    let edge = Rect { x: u16::MAX, y: 0, width: 0, height: u16::MAX };
    assert_eq!(
        event_rect(edge, &view(47, 1), 48),
        Some(Rect { x: u16::MAX, y: 47 * 1365, width: 0, height: 1365 })
    );
}

#[test]
fn no_rectangle_outside_the_grid() {
    let area = Rect { x: 0, y: 0, width: 80, height: 96 };
    assert_eq!(event_rect(area, &view(48, 1), 48), None);
    assert_eq!(event_rect(area, &view(47, 2), 48), None);
    assert_eq!(event_rect(area, &view(0, 0), 48), None);
    assert_eq!(event_rect(area, &view(0, 1), 0), None);
}

#[test]
fn rectangles_one_for_one() {
    let area = Rect { x: 0, y: 0, width: 80, height: 48 };
    let rects = event_rects(area, &vec![view(0, 2), view(50, 1), view(20, 3)], 48);
    assert_eq!(
        rects,
        vec![
            Some(Rect { x: 1, y: 0, width: 79, height: 2 }),
            None,
            Some(Rect { x: 1, y: 20, width: 79, height: 3 }),
        ]
    );
    assert!(event_rects(area, &Vec::new(), 48).is_empty());
}

#[test]
fn marker_of_the_present_time() {
    assert_eq!(now_rect(24), Rect { x: 0, y: 24, width: 1, height: 1 });
}

#[test]
fn day_rollover() {
    let d = CivilDate { year: 2023, month: 10, day: 1 };
    let next = CivilDate { year: 2023, month: 10, day: 2 };
    let mut scheduler = Scheduler::new(d, 0);
    let mut fetches = 0;
    for (ms, now) in [
        (60_000u64, at(2, 0, 0)),
        (120_000, at(2, 0, 1)),
        (180_000, at(2, 0, 2)),
        (240_000, at(2, 0, 30)),
    ] {
        if let Tick::Refetch(date) = scheduler.decide(false, ms, Some(now)) {
            assert_eq!(date, next);
            fetches += 1;
        }
    }
    assert_eq!(fetches, 1);
    assert_eq!(scheduler.current_date, next);
}

#[test]
fn rollover_takes_the_new_date_over() {
    let mut scheduler = Scheduler::new(CivilDate { year: 2023, month: 12, day: 31 }, 1000);
    let now = CivilTime { year: 2024, month: 1, day: 1, hour: 0, minute: 0 };
    let tick = scheduler.decide(false, 61_000, Some(now));
    assert_eq!(tick, Tick::Refetch(CivilDate { year: 2024, month: 1, day: 1 }));
    assert_eq!(scheduler.current_date, CivilDate { year: 2024, month: 1, day: 1 });
    assert_eq!(scheduler.last_check, 61_000);
}

#[test]
fn nothing_before_the_interval_is_over() {
    let d = CivilDate { year: 2023, month: 10, day: 1 };
    let mut scheduler = Scheduler::new(d, 5000);
    assert!(!scheduler.due(5000));
    assert!(!scheduler.due(5000 + CHECK_INTERVAL_MS - 1));
    assert!(scheduler.due(5000 + CHECK_INTERVAL_MS));
    assert!(!scheduler.due(0));
    assert_eq!(scheduler.decide(false, 64_999, Some(at(2, 0, 0))), Tick::Idle);
    assert_eq!(scheduler.current_date, d);
    assert_eq!(scheduler.last_check, 5000);
}

#[test]
fn redraw_at_the_full_and_the_half_hour() {
    let d = CivilDate { year: 2023, month: 10, day: 1 };
    let mut scheduler = Scheduler::new(d, 0);
    assert_eq!(scheduler.decide(false, 60_000, Some(at(1, 9, 0))), Tick::Redraw);
    assert_eq!(scheduler.last_check, 60_000);
    assert_eq!(scheduler.decide(false, 120_000, Some(at(1, 9, 1))), Tick::Idle);
    assert_eq!(scheduler.last_check, 120_000);
    assert_eq!(scheduler.decide(false, 180_000, Some(at(1, 9, 30))), Tick::Redraw);
    assert_eq!(scheduler.decide(false, 240_000, None), Tick::Idle);
    assert_eq!(scheduler.last_check, 240_000);
    assert_eq!(scheduler.current_date, d);
}

#[test]
fn quit_comes_first() {
    let d = CivilDate { year: 2023, month: 10, day: 1 };
    let mut scheduler = Scheduler::new(d, 0);
    assert_eq!(scheduler.decide(true, 60_000, Some(at(2, 0, 0))), Tick::Quit);
    assert_eq!(scheduler.current_date, d);
    assert_eq!(scheduler.last_check, 0);
}

#[test]
fn poll_reads_the_wall_clock_of_the_zone() {
    // 2023-10-01 15:00 UTC is 2023-10-02 00:00 in Tokyo.
    let d = CivilDate { year: 2023, month: 10, day: 1 };
    let mut tokyo = Scheduler::new(d, 0);
    assert_eq!(
        tokyo.poll(false, 60_000, "Asia/Tokyo", 1696172400),
        Tick::Refetch(CivilDate { year: 2023, month: 10, day: 2 })
    );
    let mut utc = Scheduler::new(d, 0);
    assert_eq!(utc.poll(false, 60_000, "UTC", 1696172400), Tick::Redraw);
    let mut early = Scheduler::new(d, 0);
    assert_eq!(early.poll(false, 100, "Asia/Tokyo", 1696172400), Tick::Idle);
    let mut leaving = Scheduler::new(d, 0);
    assert_eq!(leaving.poll(true, 60_000, "Asia/Tokyo", 1696172400), Tick::Quit);
    let mut lost = Scheduler::new(d, 0);
    assert_eq!(lost.poll(false, 60_000, "Nowhere/Land", 1696172400), Tick::Idle);
    assert_eq!(lost.last_check, 60_000);
}
