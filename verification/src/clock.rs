//! Civil time in a named zone, and the window of one local day.

use vstd::prelude::*;

use chrono::{Datelike, TimeZone, Timelike};

verus! {

/// A calendar date.
#[derive(Debug, Clone, Copy, PartialEq, Eq, Structural)]
pub struct CivilDate {
    pub year: i32,
    pub month: u32,
    pub day: u32,
}

/// A calendar date and a time of day, to the minute.
#[derive(Debug, Clone, Copy, PartialEq, Eq, Structural)]
pub struct CivilTime {
    pub year: i32,
    pub month: u32,
    pub day: u32,
    pub hour: u32,
    pub minute: u32,
}

impl CivilTime {
    /// Whether month, day, hour and minute lie within a calendar's and a
    /// clock's bounds.
    pub open spec fn in_range(self) -> bool {
        &&& 1 <= self.month <= 12
        &&& 1 <= self.day <= 31
        &&& self.hour <= 23
        &&& self.minute <= 59
    }

    /// The date of this time.
    pub open spec fn spec_date(self) -> CivilDate {
        CivilDate { year: self.year, month: self.month, day: self.day }
    }

    /// The date of this time.
    pub fn date(&self) -> (date: CivilDate)
        ensures
            date == self.spec_date(),
    {
        CivilDate { year: self.year, month: self.month, day: self.day }
    }
}

/// The civil time that the zone named `zone` shows at `unix_seconds` after
/// the Unix epoch; `None` where the time zone database knows no such zone
/// or the calendar does not reach that far.
pub uninterp spec fn zone_civil_time(zone: Seq<char>, unix_seconds: int) -> Option<CivilTime>;

/// The timestamp text, in UTC, of the moment at which the zone named `zone`
/// shows the given date and time of day; `None` where it knows no such zone,
/// the date or the time does not exist, or the zone shows it twice or never.
pub uninterp spec fn zone_local_as_utc_text(
    zone: Seq<char>,
    year: int,
    month: int,
    day: int,
    hour: int,
    minute: int,
    second: int,
) -> Option<Seq<char>>;

/// Looks `zone` up with `chrono_tz::Tz`'s `from_str`, takes the moment from
/// `TimeZone::timestamp_opt` and reads it with `Datelike` and `Timelike`.
/// The result is a function of the name and the number alone. The bounds
/// are those that `chrono` documents for `month`, `day`, `hour` and
/// `minute`.
#[verifier::external_body]
pub(crate) fn civil_time_in_zone(zone: &str, unix_seconds: i64) -> (time: Option<CivilTime>)
    ensures
        time == zone_civil_time(zone@, unix_seconds as int),
        time matches Some(t) ==> t.in_range(),
{
    let tz = zone.parse::<chrono_tz::Tz>().ok()?;
    let t = tz.timestamp_opt(unix_seconds, 0).single()?;
    Some(CivilTime {
        year: t.year(),
        month: t.month(),
        day: t.day(),
        hour: t.hour(),
        minute: t.minute(),
    })
}

/// Looks `zone` up with `chrono_tz::Tz`'s `from_str`, takes the moment from
/// `TimeZone::with_ymd_and_hms`, where that names exactly one, moves it to
/// UTC with `DateTime::with_timezone` and writes it with
/// `DateTime::to_rfc3339`. The result is a function of the arguments alone.
#[verifier::external_body]
fn local_as_utc_text(
    zone: &str,
    year: i32,
    month: u32,
    day: u32,
    hour: u32,
    minute: u32,
    second: u32,
) -> (text: Option<String>)
    ensures
        text.deep_view() == zone_local_as_utc_text(
            zone@,
            year as int,
            month as int,
            day as int,
            hour as int,
            minute as int,
            second as int,
        ),
{
    let tz = zone.parse::<chrono_tz::Tz>().ok()?;
    let local = tz.with_ymd_and_hms(year, month, day, hour, minute, second).single()?;
    Some(local.with_timezone(&chrono::Utc).to_rfc3339())
}

/// The bounds of the time span for which events are asked, both in the
/// provider's timestamp notation.
#[derive(Debug)]
pub struct TimeWindow {
    pub time_min: String,
    pub time_max: String,
}

/// The mathematical value of a [`TimeWindow`].
pub struct TimeWindowView {
    pub time_min: Seq<char>,
    pub time_max: Seq<char>,
}

impl View for TimeWindow {
    type V = TimeWindowView;

    open spec fn view(&self) -> TimeWindowView {
        TimeWindowView { time_min: self.time_min@, time_max: self.time_max@ }
    }
}

/// The mathematical value of a window that may be absent.
pub open spec fn spec_window_option(window: Option<TimeWindow>) -> Option<TimeWindowView> {
    match window {
        Some(window) => Some(window@),
        None => None,
    }
}

/// The window with the given bounds, where both are there.
pub open spec fn spec_from_bounds(
    time_min: Option<Seq<char>>,
    time_max: Option<Seq<char>>,
) -> Option<TimeWindowView> {
    match (time_min, time_max) {
        (Some(time_min), Some(time_max)) => Some(TimeWindowView { time_min, time_max }),
        _ => None,
    }
}

/// The window of the local day `date` in the zone named `zone`: from its
/// first second, 00:00:00, to its last, 23:59:59, both told in UTC.
pub open spec fn spec_of_day(zone: Seq<char>, date: CivilDate) -> Option<TimeWindowView> {
    spec_from_bounds(
        zone_local_as_utc_text(zone, date.year as int, date.month as int, date.day as int, 0, 0, 0),
        zone_local_as_utc_text(
            zone,
            date.year as int,
            date.month as int,
            date.day as int,
            23,
            59,
            59,
        ),
    )
}

/// The window of the local day on which `time` falls, where the time is
/// known.
pub open spec fn spec_window_at(zone: Seq<char>, time: Option<CivilTime>) -> Option<
    TimeWindowView,
> {
    match time {
        Some(time) => spec_of_day(zone, time.spec_date()),
        None => None,
    }
}

impl TimeWindow {
    /// The window with the given bounds, where both are there.
    pub fn from_bounds(time_min: Option<String>, time_max: Option<String>) -> (window: Option<
        TimeWindow,
    >)
        ensures
            spec_window_option(window) == spec_from_bounds(
                time_min.deep_view(),
                time_max.deep_view(),
            ),
    {
        match (time_min, time_max) {
            (Some(time_min), Some(time_max)) => Some(TimeWindow { time_min, time_max }),
            _ => None,
        }
    }

    /// The window of the local day `date` in the zone named `zone`.
    pub fn of_day(zone: &str, date: CivilDate) -> (window: Option<TimeWindow>)
        ensures
            spec_window_option(window) == spec_of_day(zone@, date),
    {
        let time_min = local_as_utc_text(zone, date.year, date.month, date.day, 0, 0, 0);
        let time_max = local_as_utc_text(zone, date.year, date.month, date.day, 23, 59, 59);
        TimeWindow::from_bounds(time_min, time_max)
    }

    /// The window of the local day on which `time` falls.
    pub fn at(zone: &str, time: Option<CivilTime>) -> (window: Option<TimeWindow>)
        ensures
            spec_window_option(window) == spec_window_at(zone@, time),
    {
        match time {
            Some(time) => TimeWindow::of_day(zone, time.date()),
            None => None,
        }
    }
}

/// The window of the day that the zone named `zone` shows at `unix_seconds`
/// after the Unix epoch.
pub fn get_utc_date_range_string(zone: &str, unix_seconds: i64) -> (window: Option<TimeWindow>)
    ensures
        spec_window_option(window) == spec_window_at(
            zone@,
            zone_civil_time(zone@, unix_seconds as int),
        ),
{
    TimeWindow::at(zone, civil_time_in_zone(zone, unix_seconds))
}

} // verus!
