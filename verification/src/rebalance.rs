//! Automatic rebalancing of a released cohort: when a new decision cutoff is
//! due under the mandate's schedule, and how many rebalances a day allows.
use vstd::prelude::*;
use crate::error::StoreError;
use crate::ids::{DbCounter, UtcTime, DB_MAX};
use crate::text::same_text;

verus! {

#[derive(Clone, Copy, Debug, PartialEq, Eq, Structural)]
pub enum RebalanceKind {
    Manual,
    FixedInterval,
    CalendarSession,
}

/// A mandate's rebalance schedule.
#[derive(Clone, Debug)]
pub struct RebalanceSchedule {
    pub kind: RebalanceKind,
    pub interval_seconds: Option<u32>,
    pub session_offset_seconds: Option<i32>,
    pub calendar_ref: Option<String>,
    pub timezone: String,
}

/// The registered trading calendar of the mandate's universe.
#[derive(Clone, Debug)]
pub struct SessionCalendar {
    pub calendar_ref: String,
    pub timezone: String,
    pub available_at_ns: DbCounter,
    pub coverage_start_ns: DbCounter,
    pub coverage_end_ns: DbCounter,
    /// The close of each session, in nanoseconds.
    pub session_closes: Vec<DbCounter>,
}

/// A fixed-interval schedule is due once the interval has passed since the
/// previous decision.
pub open spec fn interval_due_spec(interval: Option<u32>, previous: UtcTime, cutoff: UtcTime) -> Result<
    bool,
    StoreError,
> {
    match interval {
        None => Err(StoreError::Integrity),
        Some(s) => Ok(cutoff.nanos - previous.nanos >= s * 1_000_000_000),
    }
}

/// Some session closes after `start` and no later than `end`.
pub open spec fn closes_within(closes: Seq<DbCounter>, start: int, end: int) -> bool {
    exists|i: int|
        0 <= i < closes.len() && start < (#[trigger] closes[i]).amount() && closes[i].amount() <= end
}

/// A market closes within a window exactly when some close, at whatever
/// position, lies after its start and no later than its end.
pub proof fn close_within_anywhere(closes: Seq<DbCounter>, start: int, end: int)
    ensures
        forall|i: int|
            0 <= i < closes.len() && start < (#[trigger] closes[i]).amount() && closes[i].amount() <= end
                ==> closes_within(closes, start, end),
        closes_within(closes, start, end) ==> exists|i: int|
            0 <= i < closes.len() && start < (#[trigger] closes[i]).amount() && closes[i].amount() <= end,
{
}

/// The calendar is the schedule's, in its time zone, was available by the
/// cutoff, and covers the whole shifted window.
pub open spec fn calendar_binds(
    s: RebalanceSchedule,
    c: SessionCalendar,
    cutoff: int,
    start: int,
    end: int,
) -> bool {
    &&& (s.calendar_ref matches Some(r) && r@ == c.calendar_ref@)
    &&& s.timezone@ == c.timezone@
    &&& c.available_at_ns.amount() <= cutoff
    &&& c.coverage_start_ns.amount() <= start
    &&& end < c.coverage_end_ns.amount()
}

/// A calendar-session schedule is due when a session closed, shifted by the
/// schedule's offset, after the previous decision and by the cutoff.
pub open spec fn session_due_spec(
    s: RebalanceSchedule,
    c: SessionCalendar,
    previous: UtcTime,
    cutoff: UtcTime,
) -> Result<bool, StoreError> {
    if !(0 <= previous.nanos <= DB_MAX) || !(0 <= cutoff.nanos <= DB_MAX) {
        Err(StoreError::Integrity)
    } else {
        match s.session_offset_seconds {
            None => Err(StoreError::Integrity),
            Some(o) => {
                let offset = o * 1_000_000_000;
                let start = previous.nanos - offset;
                let end = cutoff.nanos - offset;
                if !(0 <= start <= u64::MAX) || !(0 <= end <= u64::MAX) {
                    Err(StoreError::Integrity)
                } else if !calendar_binds(s, c, cutoff.nanos as int, start, end) {
                    Err(StoreError::Invalid("rebalance_calendar_binding"))
                } else {
                    Ok(closes_within(c.session_closes@, start, end))
                }
            },
        }
    }
}

pub open spec fn due_spec(
    s: RebalanceSchedule,
    calendar: Option<SessionCalendar>,
    previous: UtcTime,
    cutoff: UtcTime,
) -> Result<bool, StoreError> {
    match s.kind {
        RebalanceKind::Manual => Ok(false),
        RebalanceKind::FixedInterval => interval_due_spec(s.interval_seconds, previous, cutoff),
        RebalanceKind::CalendarSession => session_due_spec(s, calendar->0, previous, cutoff),
    }
}

fn any_close_within(closes: &Vec<DbCounter>, start: u64, end: u64) -> (r: bool)
    ensures
        r == closes_within(closes@, start as int, end as int),
{
    let mut i: usize = 0;
    while i < closes.len()
        invariant
            i <= closes@.len(),
            forall|k: int|
                0 <= k < i ==> !(start < (#[trigger] closes@[k]).amount() && closes@[k].amount()
                    <= end),
        decreases closes@.len() - i,
    {
        let t = closes[i].get();
        if start < t && t <= end {
            return true;
        }
        i = i + 1;
    }
    false
}

/// Whether a rebalance with decision cutoff `cutoff` is due after the one
/// decided at `previous`: never under a manual schedule; after the interval
/// under a fixed one; after a (shifted) session close under a calendar one.
/// `calendar` is the universe's registered calendar, read for a calendar schedule.
pub fn rebalance_due(
    s: &RebalanceSchedule,
    calendar: &Option<SessionCalendar>,
    previous: UtcTime,
    cutoff: UtcTime,
) -> (r: Result<bool, StoreError>)
    requires
        s.kind == RebalanceKind::CalendarSession ==> calendar is Some,
    ensures
        r == due_spec(*s, *calendar, previous, cutoff),
{
    match s.kind {
        RebalanceKind::Manual => Ok(false),
        RebalanceKind::FixedInterval => match s.interval_seconds {
            None => Err(StoreError::Integrity),
            Some(secs) => {
                let gap = cutoff.nanos.checked_sub(previous.nanos);
                let needed: i128 = secs as i128 * 1_000_000_000;
                Ok(
                    match gap {
                        Some(g) => g >= needed,
                        None => cutoff.nanos > previous.nanos,
                    },
                )
            },
        },
        RebalanceKind::CalendarSession => {
            let c = match calendar {
                Some(c) => c,
                None => {
                    return Err(StoreError::Integrity);
                },
            };
            let prev = crate::portfolio::nanos(previous)?;
            let cut = crate::portfolio::nanos(cutoff)?;
            let offset: i128 = match s.session_offset_seconds {
                Some(o) => o as i128 * 1_000_000_000,
                None => {
                    return Err(StoreError::Integrity);
                },
            };
            let start = prev.get() as i128 - offset;
            let end = cut.get() as i128 - offset;
            if start < 0 || start > u64::MAX as i128 || end < 0 || end > u64::MAX as i128 {
                return Err(StoreError::Integrity);
            }
            let start = start as u64;
            let end = end as u64;
            let same_ref = match &s.calendar_ref {
                Some(r) => same_text(r.as_str(), c.calendar_ref.as_str()),
                None => false,
            };
            if !same_ref || !same_text(s.timezone.as_str(), c.timezone.as_str())
                || c.available_at_ns.get() > cut.get() || c.coverage_start_ns.get() > start
                || c.coverage_end_ns.get() <= end {
                return Err(StoreError::Invalid("rebalance_calendar_binding"));
            }
            Ok(any_close_within(&c.session_closes, start, end))
        },
    }
}

/// A day allows no more automatic builds, and no more offered Candidates, than
/// the policy's daily maximum.
pub fn check_rebalance_quota(builds_today: i64, offered_today: i64, max_per_day: u32) -> (r: Result<
    (),
    StoreError,
>)
    ensures
        (builds_today < max_per_day && offered_today < max_per_day) ==> r == Ok::<(), StoreError>(
            (),
        ),
        !(builds_today < max_per_day && offered_today < max_per_day) ==> r == Err::<(), StoreError>(
            StoreError::Invalid("automation_daily_quota"),
        ),
{
    if builds_today >= max_per_day as i64 || offered_today >= max_per_day as i64 {
        return Err(StoreError::Invalid("automation_daily_quota"));
    }
    Ok(())
}

/// Nothing is due before the previous decision: a due schedule's cutoff comes
/// strictly after it, for an interval of at least one second.
pub proof fn due_interval_moves_forward(interval: u32, previous: UtcTime, cutoff: UtcTime)
    requires
        interval >= 1,
        interval_due_spec(Some(interval), previous, cutoff) == Ok::<bool, StoreError>(true),
    ensures
        previous.nanos < cutoff.nanos,
{
}

} // verus!
