//! When the display is drawn again and when the day's events are fetched
//! again.

use vstd::prelude::*;

use crate::clock::{civil_time_in_zone, zone_civil_time, CivilDate, CivilTime};

verus! {

/// The time, in milliseconds, after which the wall clock is looked at again.
pub const CHECK_INTERVAL_MS: u64 = 60000;

/// The time, in milliseconds, for which a key press is waited for.
pub const POLL_TIMEOUT_MS: u64 = 100;

/// What is to be done after a poll.
#[derive(Debug, Clone, Copy, PartialEq, Eq, Structural)]
pub enum Tick {
    /// The user asked to leave.
    Quit,
    /// Nothing.
    Idle,
    /// Draw the events that are there once more.
    Redraw,
    /// The day has changed: fetch the events of this date, and draw them.
    Refetch(CivilDate),
}

/// Keeps the date whose events are shown and the time of the last look at
/// the wall clock, in milliseconds of a clock that never goes back.
#[derive(Debug, Clone, Copy, PartialEq, Eq, Structural)]
pub struct Scheduler {
    pub current_date: CivilDate,
    pub last_check: u64,
}

/// Whether, at `now_ms`, the time has come to look at the wall clock again.
pub open spec fn spec_due(scheduler: Scheduler, now_ms: u64) -> bool {
    now_ms >= scheduler.last_check && now_ms - scheduler.last_check >= CHECK_INTERVAL_MS
}

/// The scheduler after a poll at `now_ms`, and what is to be done.
///
/// A request to leave comes first. Otherwise nothing happens until a look
/// at the wall clock is due. Then a date other than the one that is shown
/// is taken over and its events are fetched and drawn; on the same date the
/// display is drawn again at the full and at the half hour. Where the wall
/// clock's time is not known, the look counts and nothing else is done.
pub open spec fn spec_poll(
    scheduler: Scheduler,
    quit: bool,
    now_ms: u64,
    now: Option<CivilTime>,
) -> (Scheduler, Tick) {
    if quit {
        (scheduler, Tick::Quit)
    } else if !spec_due(scheduler, now_ms) {
        (scheduler, Tick::Idle)
    } else {
        match now {
            None => (Scheduler { last_check: now_ms, ..scheduler }, Tick::Idle),
            Some(now) => if now.spec_date() != scheduler.current_date {
                (
                    Scheduler { current_date: now.spec_date(), last_check: now_ms },
                    Tick::Refetch(now.spec_date()),
                )
            } else if now.minute == 0 || now.minute == 30 {
                (Scheduler { last_check: now_ms, ..scheduler }, Tick::Redraw)
            } else {
                (Scheduler { last_check: now_ms, ..scheduler }, Tick::Idle)
            },
        }
    }
}

/// The scheduler that starts at `now_ms` with the day on which `now` falls,
/// where that time is known.
pub open spec fn spec_from_time(now: Option<CivilTime>, now_ms: u64) -> Option<Scheduler> {
    match now {
        Some(now) => Some(Scheduler { current_date: now.spec_date(), last_check: now_ms }),
        None => None,
    }
}

impl Scheduler {
    /// A scheduler that shows the events of `today` and has looked at the
    /// wall clock at `now_ms`.
    pub fn new(today: CivilDate, now_ms: u64) -> (scheduler: Self)
        ensures
            scheduler == (Scheduler { current_date: today, last_check: now_ms }),
    {
        Scheduler { current_date: today, last_check: now_ms }
    }

    /// A scheduler that shows the events of the day on which `now` falls,
    /// where that time is known.
    pub fn from_time(now: Option<CivilTime>, now_ms: u64) -> (scheduler: Option<Self>)
        ensures
            scheduler == spec_from_time(now, now_ms),
    {
        match now {
            Some(now) => Some(Scheduler::new(now.date(), now_ms)),
            None => None,
        }
    }

    /// A scheduler that shows the events of the day that the zone named
    /// `zone` shows at `unix_seconds` after the Unix epoch.
    pub fn starting_at(zone: &str, unix_seconds: i64, now_ms: u64) -> (scheduler: Option<Self>)
        ensures
            scheduler == spec_from_time(zone_civil_time(zone@, unix_seconds as int), now_ms),
    {
        Scheduler::from_time(civil_time_in_zone(zone, unix_seconds), now_ms)
    }

    /// Whether, at `now_ms`, the time has come to look at the wall clock
    /// again.
    pub fn due(&self, now_ms: u64) -> (due: bool)
        ensures
            due == spec_due(*self, now_ms),
    {
        now_ms >= self.last_check && now_ms - self.last_check >= CHECK_INTERVAL_MS
    }

    /// Decides after a poll at `now_ms`, where the wall clock shows `now`.
    pub fn decide(&mut self, quit: bool, now_ms: u64, now: Option<CivilTime>) -> (tick: Tick)
        ensures
            (*final(self), tick) == spec_poll(*old(self), quit, now_ms, now),
    {
        if quit {
            return Tick::Quit;
        }
        if !self.due(now_ms) {
            return Tick::Idle;
        }
        self.last_check = now_ms;
        match now {
            None => Tick::Idle,
            Some(now) => {
                let date: CivilDate = now.date();
                if date != self.current_date {
                    self.current_date = date;
                    Tick::Refetch(date)
                } else if now.minute == 0 || now.minute == 30 {
                    Tick::Redraw
                } else {
                    Tick::Idle
                }
            },
        }
    }

    /// Decides after a poll at `now_ms`, where the wall clock stands at
    /// `unix_seconds` after the Unix epoch and the day is that of the zone
    /// named `zone`.
    pub fn poll(&mut self, quit: bool, now_ms: u64, zone: &str, unix_seconds: i64) -> (tick: Tick)
        ensures
            (*final(self), tick) == spec_poll(
                *old(self),
                quit,
                now_ms,
                zone_civil_time(zone@, unix_seconds as int),
            ),
    {
        if quit || !self.due(now_ms) {
            self.decide(quit, now_ms, None)
        } else {
            self.decide(quit, now_ms, civil_time_in_zone(zone, unix_seconds))
        }
    }
}

/// Day rollover. Where a look at the wall clock is due and the clock shows
/// a date other than the one whose events are shown, the scheduler asks for
/// one fetch of the new date's events, which includes drawing them, and
/// takes the new date over. As long as the clock shows that date, no later
/// poll asks for another fetch.
pub proof fn law_day_rollover_fetches_once(
    scheduler: Scheduler,
    now_ms: u64,
    now: CivilTime,
    quit: bool,
    later_ms: u64,
    later: CivilTime,
)
    requires
        spec_due(scheduler, now_ms),
        now.spec_date() != scheduler.current_date,
        later.spec_date() == now.spec_date(),
    ensures
        spec_poll(scheduler, false, now_ms, Some(now)).1 == Tick::Refetch(now.spec_date()),
        spec_poll(scheduler, false, now_ms, Some(now)).0.current_date == now.spec_date(),
        !(spec_poll(spec_poll(scheduler, false, now_ms, Some(now)).0, quit, later_ms, Some(later)).1
            is Refetch),
        spec_poll(
            spec_poll(scheduler, false, now_ms, Some(now)).0,
            quit,
            later_ms,
            Some(later),
        ).0.current_date == now.spec_date(),
{
}

/// A fetch is asked for only when the date changes: whatever the poll, the
/// date that the scheduler shows afterwards is the date it asked to fetch,
/// and where it asked for none, the date it showed before.
pub proof fn law_fetch_follows_date(
    scheduler: Scheduler,
    quit: bool,
    now_ms: u64,
    now: Option<CivilTime>,
)
    ensures
        match spec_poll(scheduler, quit, now_ms, now).1 {
            Tick::Refetch(date) => date != scheduler.current_date && spec_poll(
                scheduler,
                quit,
                now_ms,
                now,
            ).0.current_date == date,
            _ => spec_poll(scheduler, quit, now_ms, now).0.current_date == scheduler.current_date,
        },
{
}

} // verus!
