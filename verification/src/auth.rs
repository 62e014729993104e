//! Machine authentication attempts are reserved before the costly native
//! password check, in a global and a per-credential one-minute window. A
//! successful check refunds only its own window; failures, cancellations and
//! unknown outcomes stay counted.
use vstd::prelude::*;
use crate::error::StoreError;
use crate::ids::{in_utc_range, Id, UtcTime};

verus! {

/// Attempts all credentials together may make in one window.
pub const GLOBAL_ATTEMPTS: u32 = 32u32;

/// Attempts one credential may make in one window.
pub const CREDENTIAL_ATTEMPTS: u32 = 5u32;

/// Nanoseconds in one window.
pub const WINDOW_NANOS: i128 = 60000000000i128;

/// The attempts counted in one window.
#[derive(Clone, Copy, Debug, PartialEq, Eq, Structural)]
pub struct RateWindow {
    pub started_at: UtcTime,
    pub attempts: u32,
}

/// What one reservation does to a window.
#[derive(Clone, Copy, Debug, PartialEq, Eq, Structural)]
pub enum WindowStep {
    /// The attempt is counted; the window is now this.
    Counted(RateWindow),
    /// The window is full; retry after this many seconds.
    Full { retry_after_seconds: u32 },
}

/// The window has run its minute.
pub open spec fn window_over(w: RateWindow, now: UtcTime) -> bool {
    w.started_at.nanos + WINDOW_NANOS <= now.nanos
}

/// Whole seconds until a full window ends, rounded up, within `1..=60`.
pub open spec fn retry_seconds(w: RateWindow, now: UtcTime) -> int {
    let left = w.started_at.nanos + WINDOW_NANOS - now.nanos;
    let secs = if left <= 0 {
        0
    } else {
        (left + 999_999_999) / 1_000_000_000
    };
    if secs < 1 {
        1
    } else if secs > 60 {
        60
    } else {
        secs
    }
}

pub open spec fn reserve_spec(window: Option<RateWindow>, now: UtcTime, limit: u32) -> WindowStep {
    match window {
        None => WindowStep::Counted(RateWindow { started_at: now, attempts: 1 }),
        Some(w) => if window_over(w, now) {
            WindowStep::Counted(RateWindow { started_at: now, attempts: 1 })
        } else if w.attempts < limit {
            WindowStep::Counted(RateWindow { started_at: w.started_at, attempts: (w.attempts + 1) as u32 })
        } else {
            WindowStep::Full { retry_after_seconds: retry_seconds(w, now) as u32 }
        },
    }
}

/// The instants are ones PostgreSQL and chrono represent.
pub open spec fn clocks_in_range(window: Option<RateWindow>, now: UtcTime) -> bool {
    &&& in_utc_range(now.nanos as int)
    &&& (window matches Some(w) ==> in_utc_range(w.started_at.nanos as int))
}

/// Counts one attempt in a window of at most `limit` attempts: a window past
/// its minute starts afresh with this attempt; a full one refuses it.
pub fn reserve_in_window(window: Option<RateWindow>, now: UtcTime, limit: u32) -> (r: WindowStep)
    requires
        clocks_in_range(window, now),
    ensures
        r == reserve_spec(window, now, limit),
{
    match window {
        None => WindowStep::Counted(RateWindow { started_at: now, attempts: 1 }),
        Some(w) => {
            if w.started_at.nanos + WINDOW_NANOS <= now.nanos {
                WindowStep::Counted(RateWindow { started_at: now, attempts: 1 })
            } else if w.attempts < limit {
                WindowStep::Counted(RateWindow { started_at: w.started_at, attempts: w.attempts + 1 })
            } else {
                let left = w.started_at.nanos + WINDOW_NANOS - now.nanos;
                let secs: i128 = if left <= 0 {
                    0
                } else {
                    left / 1_000_000_000 + if left % 1_000_000_000 != 0 {
                        1
                    } else {
                        0
                    }
                };
                proof {
                    if left > 0 {
                        assert((left + 999_999_999) / 1_000_000_000 == left / 1_000_000_000 + if left
                            % 1_000_000_000 != 0 {
                            1int
                        } else {
                            0int
                        });
                    }
                }
                let retry: u32 = if secs < 1 {
                    1
                } else if secs > 60 {
                    60
                } else {
                    secs as u32
                };
                WindowStep::Full { retry_after_seconds: retry }
            }
        },
    }
}

/// A reservation of both windows, kept by a later refund.
#[derive(Clone, Copy, Debug, PartialEq, Eq, Structural)]
pub struct MachineAuthAttempt {
    pub credential_id: Id,
    /// The start of the global window the attempt was counted in.
    pub global_window: UtcTime,
    /// The start of the credential's window the attempt was counted in.
    pub credential_window: UtcTime,
}

/// The global window is charged first; when either is full nothing is charged
/// and the caller learns when to retry.
pub open spec fn attempt_spec(
    credential_id: Id,
    global: Option<RateWindow>,
    own: Option<RateWindow>,
    now: UtcTime,
) -> Result<(MachineAuthAttempt, RateWindow, RateWindow), StoreError> {
    match reserve_spec(global, now, GLOBAL_ATTEMPTS) {
        WindowStep::Full { retry_after_seconds } => Err(
            StoreError::AuthRateLimited { retry_after_seconds },
        ),
        WindowStep::Counted(g) => match reserve_spec(own, now, CREDENTIAL_ATTEMPTS) {
            WindowStep::Full { retry_after_seconds } => Err(
                StoreError::AuthRateLimited { retry_after_seconds },
            ),
            WindowStep::Counted(c) => Ok(
                (
                    MachineAuthAttempt {
                        credential_id,
                        global_window: g.started_at,
                        credential_window: c.started_at,
                    },
                    g,
                    c,
                ),
            ),
        },
    }
}

/// Reserves one machine authentication attempt: the new attempt, and the
/// global and per-credential windows as they then stand.
pub fn reserve_machine_auth_attempt(
    credential_id: Id,
    global: Option<RateWindow>,
    own: Option<RateWindow>,
    now: UtcTime,
) -> (r: Result<(MachineAuthAttempt, RateWindow, RateWindow), StoreError>)
    requires
        clocks_in_range(global, now),
        clocks_in_range(own, now),
    ensures
        r == attempt_spec(credential_id, global, own, now),
{
    let g = match reserve_in_window(global, now, GLOBAL_ATTEMPTS) {
        WindowStep::Full { retry_after_seconds } => {
            return Err(StoreError::AuthRateLimited { retry_after_seconds });
        },
        WindowStep::Counted(g) => g,
    };
    let c = match reserve_in_window(own, now, CREDENTIAL_ATTEMPTS) {
        WindowStep::Full { retry_after_seconds } => {
            return Err(StoreError::AuthRateLimited { retry_after_seconds });
        },
        WindowStep::Counted(c) => c,
    };
    Ok((MachineAuthAttempt {
                        credential_id,
                        global_window: g.started_at,
                        credential_window: c.started_at,
                    }, g, c))
}

pub open spec fn refund_spec(window: RateWindow, started_at: UtcTime) -> RateWindow {
    if window.started_at == started_at {
        RateWindow {
            started_at: window.started_at,
            attempts: if window.attempts == 0 {
                0
            } else {
                (window.attempts - 1) as u32
            },
        }
    } else {
        window
    }
}

/// A successful check gives its attempt back to the window it was counted in,
/// and to no later one.
pub fn refund(window: RateWindow, started_at: UtcTime) -> (r: RateWindow)
    ensures
        r == refund_spec(window, started_at),
{
    if window.started_at == started_at {
        RateWindow {
            started_at: window.started_at,
            attempts: if window.attempts == 0 {
                0
            } else {
                window.attempts - 1
            },
        }
    } else {
        window
    }
}

/// A successful check refunds the attempt in both windows it was counted in,
/// and in no window that has since started afresh.
pub fn machine_auth_succeeded(
    attempt: &MachineAuthAttempt,
    global: RateWindow,
    own: RateWindow,
) -> (r: (RateWindow, RateWindow))
    ensures
        r.0 == refund_spec(global, attempt.global_window),
        r.1 == refund_spec(own, attempt.credential_window),
{
    (refund(global, attempt.global_window), refund(own, attempt.credential_window))
}

/// A window never counts more attempts than its limit, and a refused attempt
/// is told to retry within the minute.
pub proof fn window_stays_within_limit(window: Option<RateWindow>, now: UtcTime, limit: u32)
    requires
        1 <= limit,
        window matches Some(w) ==> w.attempts <= limit,
    ensures
        match reserve_spec(window, now, limit) {
            WindowStep::Counted(w) => 1 <= w.attempts <= limit,
            WindowStep::Full { retry_after_seconds } => 1 <= retry_after_seconds <= 60,
        },
{
}

/// A refund right after a reservation in a running window restores its count.
pub proof fn refund_undoes_reservation(window: RateWindow, now: UtcTime, limit: u32)
    requires
        !window_over(window, now),
        window.attempts < limit,
    ensures
        reserve_spec(Some(window), now, limit) matches WindowStep::Counted(w) && refund_spec(
            w,
            w.started_at,
        ) == window,
{
}

/// A refund for a window that has since been replaced changes nothing.
pub proof fn stale_refund_is_ignored(window: RateWindow, started_at: UtcTime)
    requires
        window.started_at != started_at,
    ensures
        refund_spec(window, started_at) == window,
{
}

/// A successful check right after its reservation leaves both running windows
/// as they were before the attempt.
pub proof fn success_refunds_the_reservation(
    credential_id: Id,
    global: RateWindow,
    own: RateWindow,
    now: UtcTime,
)
    requires
        !window_over(global, now),
        global.attempts < GLOBAL_ATTEMPTS,
        !window_over(own, now),
        own.attempts < CREDENTIAL_ATTEMPTS,
    ensures
        attempt_spec(credential_id, Some(global), Some(own), now) matches Ok((a, g, c)) && refund_spec(
            g,
            a.global_window,
        ) == global && refund_spec(c, a.credential_window) == own,
{
}

} // verus!
