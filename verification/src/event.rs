//! Events as they arrive from the provider, and their place on the grid.

use vstd::prelude::*;

use crate::calendar::{Calendar, Color};
use crate::clock::{civil_time_in_zone, zone_civil_time, CivilTime};
use crate::text::{push_two_digits, spec_two_digits};

verus! {

/// What is read of one item of the provider's event list: the summary, and
/// the two endpoints as seconds since the Unix epoch. An endpoint is absent
/// where the item carries no date-time, as for an all-day event.
#[derive(Debug, Clone)]
pub struct EventData {
    pub summary: Option<String>,
    pub start: Option<i64>,
    pub end: Option<i64>,
}

/// The mathematical value of an [`EventData`].
pub struct EventDataView {
    pub summary: Option<Seq<char>>,
    pub start: Option<i64>,
    pub end: Option<i64>,
}

impl View for EventData {
    type V = EventDataView;

    open spec fn view(&self) -> EventDataView {
        EventDataView { summary: self.summary.deep_view(), start: self.start, end: self.end }
    }
}

impl DeepView for EventData {
    type V = EventDataView;

    open spec fn deep_view(&self) -> EventDataView {
        self.view()
    }
}

/// One event together with the calendar it was fetched from.
#[derive(Debug, Clone)]
pub struct EventModel {
    pub data: EventData,
    pub calendar_id: Calendar,
}

/// The mathematical value of an [`EventModel`].
pub struct EventModelView {
    pub data: EventDataView,
    pub calendar_id: Calendar,
}

impl View for EventModel {
    type V = EventModelView;

    open spec fn view(&self) -> EventModelView {
        EventModelView { data: self.data@, calendar_id: self.calendar_id }
    }
}

impl DeepView for EventModel {
    type V = EventModelView;

    open spec fn deep_view(&self) -> EventModelView {
        self.view()
    }
}

impl EventModel {
    /// The event `data` of the calendar `calendar_id`.
    pub fn new(data: EventData, calendar_id: Calendar) -> (event: Self)
        ensures
            event@ == (EventModelView { data: data@, calendar_id }),
    {
        EventModel { data, calendar_id }
    }
}

/// Why an event has no place on the grid.
#[derive(Debug, Clone, Copy, PartialEq, Eq, Structural)]
pub enum LayoutError {
    /// The event lacks a date-time at its start or at its end.
    MissingTimestamp,
    /// The grid does not divide the day into rows of whole minutes.
    UnsupportedGrid,
    /// The zone does not tell the civil time of an endpoint.
    UnknownLocalTime,
}

/// An event as it is drawn: its title, its first row, the number of rows it
/// takes, and its colour.
#[derive(Debug)]
pub struct EventView {
    pub title: String,
    pub height: u16,
    pub color: Color,
    pub start: u16,
}

/// The mathematical value of an [`EventView`].
pub struct EventViewView {
    pub title: Seq<char>,
    pub height: u16,
    pub color: Color,
    pub start: u16,
}

impl View for EventView {
    type V = EventViewView;

    open spec fn view(&self) -> EventViewView {
        EventViewView {
            title: self.title@,
            height: self.height,
            color: self.color,
            start: self.start,
        }
    }
}

impl DeepView for EventView {
    type V = EventViewView;

    open spec fn deep_view(&self) -> EventViewView {
        self.view()
    }
}

impl EventViewView {
    /// Whether the span lies within a grid of `grid_rows` rows and takes at
    /// least one of them.
    pub open spec fn within(self, grid_rows: int) -> bool {
        &&& self.height >= 1
        &&& self.start < grid_rows
        &&& self.start + self.height <= grid_rows
    }
}

/// Whether a grid of `grid_rows` rows divides the day evenly: each hour
/// into the same number of rows, and each row into a whole number of
/// minutes.
pub open spec fn spec_grid_supported(grid_rows: int) -> bool {
    &&& grid_rows >= 24
    &&& grid_rows % 24 == 0
    &&& grid_rows / 24 <= 60
    &&& 60int % (grid_rows / 24) == 0
}

/// The row on which the time of day `hour`:`minute` falls.
pub open spec fn spec_row(hour: int, minute: int, grid_rows: int) -> int {
    let rows_per_hour = grid_rows / 24;
    hour * rows_per_hour + minute / (60int / rows_per_hour)
}

/// The row at which a span ends that ends on row `end_row`: an end on row 0
/// is the midnight that follows, the bottom of the grid.
pub open spec fn spec_end_row(end_row: int, grid_rows: int) -> int {
    if end_row == 0 {
        grid_rows
    } else {
        end_row
    }
}

/// The number of rows of a span from `start_row` to `end_row`: the rows in
/// between, and one where that would be none or fewer.
pub open spec fn spec_row_span(start_row: int, end_row: int, grid_rows: int) -> int {
    let rows = spec_end_row(end_row, grid_rows) - start_row;
    if rows >= 1 {
        rows
    } else {
        1
    }
}

/// The row of a time of day, where the grid is supported and the time is
/// one.
pub open spec fn spec_row_of(hour: int, minute: int, grid_rows: int) -> Option<int> {
    if spec_grid_supported(grid_rows) && 0 <= hour <= 23 && 0 <= minute <= 59 {
        Some(spec_row(hour, minute, grid_rows))
    } else {
        None
    }
}

/// On a supported grid every time of day falls on a row of the grid.
pub proof fn lemma_row_within_grid(hour: int, minute: int, grid_rows: int)
    requires
        spec_grid_supported(grid_rows),
        0 <= hour <= 23,
        0 <= minute <= 59,
    ensures
        0 <= spec_row(hour, minute, grid_rows) < grid_rows,
        spec_row(hour, minute, grid_rows) <= 1439,
        60int / (grid_rows / 24) >= 1,
{
    let rows_per_hour = grid_rows / 24;
    let minutes_per_row = 60int / rows_per_hour;
    assert(1 <= rows_per_hour <= 60);
    assert(minutes_per_row * rows_per_hour == 60) by (nonlinear_arith)
        requires
            minutes_per_row == 60int / rows_per_hour,
            60int % rows_per_hour == 0,
            1 <= rows_per_hour <= 60,
    ;
    assert(minutes_per_row >= 1) by (nonlinear_arith)
        requires
            minutes_per_row * rows_per_hour == 60,
            rows_per_hour >= 1,
    ;
    assert(minute / minutes_per_row < rows_per_hour) by (nonlinear_arith)
        requires
            minutes_per_row * rows_per_hour == 60,
            0 <= minute <= 59,
            minutes_per_row >= 1,
            rows_per_hour >= 1,
    ;
    assert(minute / minutes_per_row >= 0) by (nonlinear_arith)
        requires
            0 <= minute,
            minutes_per_row >= 1,
    ;
    assert(hour * rows_per_hour <= 23 * rows_per_hour) by (nonlinear_arith)
        requires
            0 <= hour <= 23,
            rows_per_hour >= 1,
    ;
    assert(hour * rows_per_hour >= 0) by (nonlinear_arith)
        requires
            0 <= hour,
            rows_per_hour >= 1,
    ;
    assert(grid_rows == 24 * rows_per_hour);
}

/// Whether a grid of `grid_rows` rows divides the day evenly.
pub fn grid_supported(grid_rows: u16) -> (supported: bool)
    ensures
        supported == spec_grid_supported(grid_rows as int),
{
    grid_rows >= 24 && grid_rows % 24 == 0 && grid_rows / 24 <= 60 && 60 % (grid_rows / 24) == 0
}

/// The row on which the time of day `hour`:`minute` falls on a grid of
/// `grid_rows` rows.
pub fn row_of(hour: u32, minute: u32, grid_rows: u16) -> (row: Option<u16>)
    ensures
        row matches Some(r) ==> r < grid_rows,
        match row {
            Some(r) => Some(r as int),
            None => None,
        } == spec_row_of(hour as int, minute as int, grid_rows as int),
{
    if !grid_supported(grid_rows) || hour > 23 || minute > 59 {
        return None;
    }
    proof {
        lemma_row_within_grid(hour as int, minute as int, grid_rows as int);
    }
    let rows_per_hour: u32 = (grid_rows / 24) as u32;
    let minutes_per_row: u32 = 60 / rows_per_hour;
    assert(hour * rows_per_hour <= 23 * 60) by (nonlinear_arith)
        requires
            hour <= 23,
            rows_per_hour <= 60,
    ;
    let row: u32 = hour * rows_per_hour + minute / minutes_per_row;
    Some(row as u16)
}

/// The number of rows of a span from `start_row` to `end_row`, both rows of
/// a grid of `grid_rows` rows.
pub fn row_span(start_row: u16, end_row: u16, grid_rows: u16) -> (rows: u16)
    ensures
        rows == spec_row_span(start_row as int, end_row as int, grid_rows as int),
        rows >= 1,
{
    let end: u16 = if end_row == 0 {
        grid_rows
    } else {
        end_row
    };
    if end > start_row {
        end - start_row
    } else {
        1
    }
}

/// A time of day as it stands in a title: hour and minute, two digits each.
pub open spec fn spec_clock_text(hour: int, minute: int) -> Seq<char> {
    spec_two_digits(hour) + ":"@ + spec_two_digits(minute)
}

/// The title of an event: its summary, or nothing where it has none, and
/// the times of day between which it takes place.
pub open spec fn spec_title(summary: Option<Seq<char>>, start: CivilTime, end: CivilTime) -> Seq<
    char,
> {
    let summary = match summary {
        Some(summary) => summary,
        None => Seq::empty(),
    };
    summary + " "@ + spec_clock_text(start.hour as int, start.minute as int) + "~"@
        + spec_clock_text(end.hour as int, end.minute as int)
}

/// An event whose endpoints fall on the civil times `start` and `end`, as it
/// is drawn on a grid of `grid_rows` rows.
pub open spec fn spec_layout(
    event: EventModelView,
    start: CivilTime,
    end: CivilTime,
    grid_rows: int,
) -> EventViewView {
    let start_row = spec_row(start.hour as int, start.minute as int, grid_rows);
    let end_row = spec_row(end.hour as int, end.minute as int, grid_rows);
    EventViewView {
        title: spec_title(event.data.summary, start, end),
        height: spec_row_span(start_row, end_row, grid_rows) as u16,
        color: event.calendar_id.spec_color(),
        start: start_row as u16,
    }
}

/// The place of an event on a grid of `grid_rows` rows, where `start` and
/// `end` are the civil times of its endpoints as far as they are known.
///
/// An event that lacks an endpoint is refused first, then a grid that is
/// not supported, then an endpoint whose civil time is not known.
pub open spec fn spec_project(
    event: EventModelView,
    start: Option<CivilTime>,
    end: Option<CivilTime>,
    grid_rows: int,
) -> Result<EventViewView, LayoutError> {
    if event.data.start is None || event.data.end is None {
        Err(LayoutError::MissingTimestamp)
    } else if !spec_grid_supported(grid_rows) {
        Err(LayoutError::UnsupportedGrid)
    } else {
        match (start, end) {
            (Some(start), Some(end)) => if start.in_range() && end.in_range() {
                Ok(spec_layout(event, start, end, grid_rows))
            } else {
                Err(LayoutError::UnknownLocalTime)
            },
            _ => Err(LayoutError::UnknownLocalTime),
        }
    }
}

/// The civil time in the zone named `zone` of an endpoint, where the event
/// has that endpoint.
pub open spec fn spec_endpoint_time(zone: Seq<char>, endpoint: Option<i64>) -> Option<CivilTime> {
    match endpoint {
        Some(unix_seconds) => zone_civil_time(zone, unix_seconds as int),
        None => None,
    }
}

/// The place of an event on a grid of `grid_rows` rows that shows the day
/// of the zone named `zone`.
pub open spec fn spec_from_event(event: EventModelView, zone: Seq<char>, grid_rows: int) -> Result<
    EventViewView,
    LayoutError,
> {
    spec_project(
        event,
        spec_endpoint_time(zone, event.data.start),
        spec_endpoint_time(zone, event.data.end),
        grid_rows,
    )
}

/// The places of the first `n` of `events`, in their order, without those
/// that have none.
pub open spec fn spec_placed(
    events: Seq<EventModelView>,
    zone: Seq<char>,
    grid_rows: int,
    n: int,
) -> Seq<EventViewView>
    decreases n,
{
    if n <= 0 {
        Seq::empty()
    } else {
        let before = spec_placed(events, zone, grid_rows, n - 1);
        match spec_from_event(events[n - 1], zone, grid_rows) {
            Ok(view) => before.push(view),
            Err(_) => before,
        }
    }
}

/// The number of those among the first `n` of `events` that have no place.
pub open spec fn spec_skipped(
    events: Seq<EventModelView>,
    zone: Seq<char>,
    grid_rows: int,
    n: int,
) -> nat
    decreases n,
{
    if n <= 0 {
        0
    } else {
        spec_skipped(events, zone, grid_rows, n - 1) + if spec_from_event(
            events[n - 1],
            zone,
            grid_rows,
        ) is Err {
            1nat
        } else {
            0nat
        }
    }
}

/// The events that have a place on the grid, and the number of those that
/// have none.
#[derive(Debug)]
pub struct Layout {
    pub views: Vec<EventView>,
    pub skipped: usize,
}

/// The mathematical value of a layout that was made, or of the failure to
/// make one.
pub open spec fn spec_view_result(result: Result<EventView, LayoutError>) -> Result<
    EventViewView,
    LayoutError,
> {
    match result {
        Ok(view) => Ok(view@),
        Err(e) => Err(e),
    }
}

/// The row of a civil time, where the time is known.
pub open spec fn spec_height(time: Option<CivilTime>, grid_rows: int) -> Option<int> {
    match time {
        Some(time) => spec_row_of(time.hour as int, time.minute as int, grid_rows),
        None => None,
    }
}

fn push_clock(out: &mut String, time: &CivilTime)
    requires
        time.in_range(),
    ensures
        final(out)@ == old(out)@ + spec_clock_text(time.hour as int, time.minute as int),
{
    push_two_digits(out, time.hour);
    out.append(":");
    push_two_digits(out, time.minute);
    assert(old(out)@ + spec_two_digits(time.hour as int) + ":"@ + spec_two_digits(
        time.minute as int,
    ) =~= old(out)@ + spec_clock_text(time.hour as int, time.minute as int));
}

fn title(summary: Option<String>, start: &CivilTime, end: &CivilTime) -> (title: String)
    requires
        start.in_range(),
        end.in_range(),
    ensures
        title@ == spec_title(summary.deep_view(), *start, *end),
{
    let mut title: String = match summary {
        Some(summary) => summary,
        None => String::new(),
    };
    let ghost head = title@;
    title.append(" ");
    push_clock(&mut title, start);
    title.append("~");
    push_clock(&mut title, end);
    assert(title@ =~= head + " "@ + spec_clock_text(start.hour as int, start.minute as int) + "~"@
        + spec_clock_text(end.hour as int, end.minute as int));
    title
}

impl EventView {
    /// The place of `event` on a grid of `grid_rows` rows, where the civil
    /// times of its endpoints are `start` and `end`, as far as they are
    /// known.
    pub fn project(
        event: EventModel,
        start: Option<CivilTime>,
        end: Option<CivilTime>,
        grid_rows: u16,
    ) -> (result: Result<EventView, LayoutError>)
        ensures
            spec_view_result(result) == spec_project(event@, start, end, grid_rows as int),
            result matches Ok(view) ==> view@.within(grid_rows as int),
    {
        if event.data.start.is_none() || event.data.end.is_none() {
            return Err(LayoutError::MissingTimestamp);
        }
        if !grid_supported(grid_rows) {
            return Err(LayoutError::UnsupportedGrid);
        }
        match (start, end) {
            (Some(start), Some(end)) => {
                match (
                    row_of(start.hour, start.minute, grid_rows),
                    row_of(end.hour, end.minute, grid_rows),
                ) {
                    (Some(start_row), Some(end_row)) => {
                        if start.month < 1 || start.month > 12 || start.day < 1 || start.day > 31
                            || end.month < 1 || end.month > 12 || end.day < 1 || end.day > 31 {
                            return Err(LayoutError::UnknownLocalTime);
                        }
                        let color: Color = event.calendar_id.color();
                        Ok(
                            EventView {
                                title: title(event.data.summary, &start, &end),
                                height: row_span(start_row, end_row, grid_rows),
                                color,
                                start: start_row,
                            },
                        )
                    },
                    _ => Err(LayoutError::UnknownLocalTime),
                }
            },
            _ => Err(LayoutError::UnknownLocalTime),
        }
    }

    /// The place of `event` on a grid of `grid_rows` rows that shows the day
    /// of the zone named `zone`.
    pub fn from_event(event: EventModel, zone: &str, grid_rows: u16) -> (result: Result<
        EventView,
        LayoutError,
    >)
        ensures
            spec_view_result(result) == spec_from_event(event@, zone@, grid_rows as int),
            result matches Ok(view) ==> view@.within(grid_rows as int),
    {
        let start: Option<CivilTime> = match event.data.start {
            Some(unix_seconds) => civil_time_in_zone(zone, unix_seconds),
            None => None,
        };
        let end: Option<CivilTime> = match event.data.end {
            Some(unix_seconds) => civil_time_in_zone(zone, unix_seconds),
            None => None,
        };
        EventView::project(event, start, end, grid_rows)
    }

    /// The places of `events` on a grid of `grid_rows` rows that shows the
    /// day of the zone named `zone`. An event that has no place is counted
    /// and left out; the others keep their order.
    pub fn layout(events: Vec<EventModel>, zone: &str, grid_rows: u16) -> (layout: Layout)
        ensures
            layout.views.deep_view() == spec_placed(
                events.deep_view(),
                zone@,
                grid_rows as int,
                events.len() as int,
            ),
            layout.skipped == spec_skipped(
                events.deep_view(),
                zone@,
                grid_rows as int,
                events.len() as int,
            ),
            forall|i: int|
                0 <= i < layout.views.len() ==> (#[trigger] layout.views[i])@.within(
                    grid_rows as int,
                ),
    {
        let ghost all = events.deep_view();
        assert(all.len() == events.len());
        let mut views: Vec<EventView> = Vec::new();
        let mut skipped: usize = 0;
        assert(views.deep_view() =~= spec_placed(all, zone@, grid_rows as int, 0));
        for event in iter: events
            invariant
                iter.seq().len() == all.len(),
                all.len() <= usize::MAX,
                forall|k: int| 0 <= k < all.len() ==> (#[trigger] iter.seq()[k])@ == all[k],
                views.deep_view() == spec_placed(all, zone@, grid_rows as int, iter.index() as int),
                skipped == spec_skipped(all, zone@, grid_rows as int, iter.index() as int),
                skipped <= iter.index(),
                forall|i: int|
                    0 <= i < views.len() ==> (#[trigger] views[i])@.within(grid_rows as int),
        {
            let ghost before = views.deep_view();
            match EventView::from_event(event, zone, grid_rows) {
                Ok(view) => {
                    let ghost placed = view@;
                    views.push(view);
                    assert(views.deep_view() =~= before.push(placed));
                },
                Err(_) => {
                    skipped = skipped + 1;
                },
            }
        }
        Layout { views, skipped }
    }

    /// The row of the civil time `time`, where it is known, on a grid of
    /// `grid_rows` rows.
    pub fn height_of(time: Option<CivilTime>, grid_rows: u16) -> (row: Option<u16>)
        ensures
            row matches Some(r) ==> r < grid_rows,
            match row {
                Some(r) => Some(r as int),
                None => None,
            } == spec_height(time, grid_rows as int),
    {
        match time {
            Some(time) => row_of(time.hour, time.minute, grid_rows),
            None => None,
        }
    }

    /// The row on which the moment `unix_seconds` after the Unix epoch falls
    /// in the zone named `zone`, on a grid of `grid_rows` rows.
    pub fn date_time_to_height(unix_seconds: i64, zone: &str, grid_rows: u16) -> (row: Option<u16>)
        ensures
            row matches Some(r) ==> r < grid_rows,
            match row {
                Some(r) => Some(r as int),
                None => None,
            } == spec_height(zone_civil_time(zone@, unix_seconds as int), grid_rows as int),
    {
        EventView::height_of(civil_time_in_zone(zone, unix_seconds), grid_rows)
    }
}

/// On a grid of 48 rows each row is half an hour: a time of day falls on
/// the row that is twice its hour, and one more from the half hour on.
pub proof fn law_half_hour_rows(hour: int, minute: int)
    requires
        0 <= hour <= 23,
        0 <= minute <= 59,
    ensures
        spec_grid_supported(48),
        spec_row_of(hour, minute, 48) == Some(hour * 2 + minute / 30),
{
    assert(48int / 24 == 2);
    assert(60int / 2 == 30);
    assert(spec_row(hour, minute, 48) == hour * 2 + minute / 30);
}

/// An event that ends at midnight reaches the bottom of the grid: from its
/// first row on it takes all the rows that are left, and never none.
pub proof fn law_midnight_end_reaches_bottom(
    event: EventModelView,
    start: CivilTime,
    end: CivilTime,
    grid_rows: int,
)
    requires
        spec_grid_supported(grid_rows),
        start.in_range(),
        end.in_range(),
        end.hour == 0,
        end.minute == 0,
    ensures
        spec_layout(event, start, end, grid_rows).start + spec_layout(
            event,
            start,
            end,
            grid_rows,
        ).height == grid_rows,
        spec_layout(event, start, end, grid_rows).height >= 1,
{
    lemma_row_within_grid(start.hour as int, start.minute as int, grid_rows);
    lemma_row_within_grid(0, 0, grid_rows);
    assert(spec_row(0, 0, grid_rows) == 0) by (nonlinear_arith)
        requires
            60int / (grid_rows / 24) >= 1,
    ;
}

/// Every event that has a place on the grid takes at least one row, also
/// where it ends when it starts or before, and stays within the grid.
pub proof fn law_span_at_least_one_row(
    event: EventModelView,
    start: Option<CivilTime>,
    end: Option<CivilTime>,
    grid_rows: int,
)
    requires
        spec_project(event, start, end, grid_rows) is Ok,
    ensures
        spec_project(event, start, end, grid_rows)->Ok_0.within(grid_rows),
{
    let s = start->0;
    let e = end->0;
    lemma_row_within_grid(s.hour as int, s.minute as int, grid_rows);
    lemma_row_within_grid(e.hour as int, e.minute as int, grid_rows);
}

} // verus!
