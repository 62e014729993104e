//! Portfolio Candidate windows and publication outcomes, and the append-only
//! human decisions on a Release. A Candidate is never an approval.
use vstd::prelude::*;
use crate::error::{DomainError, StoreError};
use crate::ids::{DbCounter, Id, UtcTime, DB_MAX};

verus! {

/// The first whole microsecond at or after `ns`.
pub open spec fn micros_up(ns: nat) -> int {
    if ns % 1000 == 0 {
        (ns / 1000) as int
    } else {
        (ns / 1000 + 1) as int
    }
}

/// The last whole microsecond at or before `ns`.
pub open spec fn micros_down(ns: nat) -> int {
    (ns / 1000) as int
}

/// Whether a decision cutoff and a target time-to-live give a non-empty window.
pub open spec fn window_exists(decision_ns: u64, ttl: u32) -> bool {
    &&& decision_ns + ttl * 1_000_000_000 <= u64::MAX
    &&& micros_down((decision_ns + ttl * 1_000_000_000) as nat) > micros_up(decision_ns as nat)
}

/// The validity window of a Candidate's targets: from the decision cutoff,
/// rounded up to PostgreSQL's microsecond, until cutoff plus time-to-live,
/// rounded down. Rounding never moves either end outward.
pub fn target_window(decision_ns: u64, ttl: u32) -> (r: Result<(UtcTime, UtcTime), StoreError>)
    ensures
        window_exists(decision_ns, ttl) <==> r is Ok,
        !window_exists(decision_ns, ttl) ==> r == Err::<(UtcTime, UtcTime), StoreError>(
            StoreError::Integrity,
        ),
        r matches Ok((asof, until)) ==> asof.nanos == micros_up(decision_ns as nat) * 1000
            && until.nanos == micros_down((decision_ns + ttl * 1_000_000_000) as nat) * 1000,
{
    let deadline = match decision_ns.checked_add(ttl as u64 * 1_000_000_000) {
        Some(d) => d,
        None => return Err(StoreError::Integrity),
    };
    let up = if decision_ns % 1000 == 0 {
        decision_ns / 1000
    } else {
        decision_ns / 1000 + 1
    };
    let down = deadline / 1000;
    if down <= up {
        return Err(StoreError::Integrity);
    }
    let asof = UtcTime::from_timestamp_micros(up as i64);
    let until = UtcTime::from_timestamp_micros(down as i64);
    Ok((asof, until))
}

/// A target window never starts before the decision cutoff, never outlives the
/// native validity `decision + ttl`, and is never empty.
pub proof fn target_window_stays_inside(decision_ns: u64, ttl: u32)
    requires
        window_exists(decision_ns, ttl),
    ensures
        micros_up(decision_ns as nat) * 1000 >= decision_ns,
        micros_down((decision_ns + ttl * 1_000_000_000) as nat) * 1000 <= decision_ns + ttl
            * 1_000_000_000,
        micros_down((decision_ns + ttl * 1_000_000_000) as nat) * 1000 > micros_up(
            decision_ns as nat,
        ) * 1000,
{
}

/// The instant as a counter of nanoseconds since the epoch.
pub fn nanos(time: UtcTime) -> (r: Result<DbCounter, StoreError>)
    ensures
        (0 <= time.nanos <= DB_MAX) <==> r is Ok,
        !(0 <= time.nanos <= DB_MAX) ==> r == Err::<DbCounter, StoreError>(StoreError::Integrity),
        r matches Ok(c) ==> c.amount() == time.nanos,
{
    let n = match time.timestamp_nanos_opt() {
        Some(n) => n,
        None => return Err(StoreError::Integrity),
    };
    if n < 0 {
        return Err(StoreError::Integrity);
    }
    match DbCounter::new(n as u64) {
        Ok(c) => Ok(c),
        Err(_) => Err(StoreError::Integrity),
    }
}

/// The clocks of a Candidate's last target used as current weights: as-of,
/// available (the later of publication and as-of) and valid-until, in nanoseconds.
pub open spec fn last_target_clocks(created: UtcTime, asof: UtcTime, until: UtcTime) -> Result<
    (int, int, int),
    StoreError,
> {
    let available = if created.nanos >= asof.nanos {
        created.nanos
    } else {
        asof.nanos
    };
    if !(0 <= asof.nanos <= DB_MAX) || !(0 <= available <= DB_MAX) || !(0 <= until.nanos
        <= DB_MAX) {
        Err(StoreError::Integrity)
    } else if available >= until.nanos {
        Err(StoreError::Invalid("portfolio_last_target_expired"))
    } else {
        Ok((asof.nanos as int, available as int, until.nanos as int))
    }
}

pub fn last_target_window(created: UtcTime, asof: UtcTime, until: UtcTime) -> (r: Result<
    (DbCounter, DbCounter, DbCounter),
    StoreError,
>)
    ensures
        match last_target_clocks(created, asof, until) {
            Ok((a, b, c)) => r matches Ok((x, y, z)) && x.amount() == a && y.amount() == b
                && z.amount() == c,
            Err(e) => r == Err::<(DbCounter, DbCounter, DbCounter), StoreError>(e),
        },
{
    let available = if created.nanos >= asof.nanos {
        created
    } else {
        asof
    };
    let a = nanos(asof)?;
    let b = nanos(available)?;
    let c = nanos(until)?;
    if b.get() >= c.get() {
        return Err(StoreError::Invalid("portfolio_last_target_expired"));
    }
    Ok((a, b, c))
}

#[derive(Clone, Copy, Debug, PartialEq, Eq, Structural)]
pub enum EvidenceStatus {
    Valid,
    Invalid,
    Incomplete,
}

/// Whether a Candidate's sources are still eligible when it is published.
#[derive(Clone, Copy, Debug, PartialEq, Eq, Structural)]
pub enum Eligibility {
    Eligible,
    NoLongerEligible,
}

/// What a Candidate publishes about its Run.
#[derive(Clone, Debug)]
pub struct CandidateOutcome {
    pub status: EvidenceStatus,
    pub reason: Option<String>,
    /// Whether the report's targets and cash weight are published.
    pub publish_targets: bool,
}

pub open spec fn outcome_reason(o: CandidateOutcome) -> Option<Seq<char>> {
    crate::turns::opt_text(o.reason)
}

/// `report`: the allocation reason of an accepted native report, when the Run
/// succeeded with one; `eligibility`: the source check made for that report.
pub fn candidate_outcome(
    cancelled: bool,
    report: Option<Option<String>>,
    eligibility: Eligibility,
) -> (r: CandidateOutcome)
    ensures
        report is None ==> r.status == EvidenceStatus::Incomplete && !r.publish_targets
            && outcome_reason(r) == Some(
            if cancelled {
                "PORTFOLIO_CANCELLED"@
            } else {
                "PORTFOLIO_EXECUTION_FAILED"@
            },
        ),
        (report is Some && eligibility == Eligibility::Eligible) ==> r.status
            == EvidenceStatus::Valid && r.publish_targets && outcome_reason(r)
            == crate::turns::opt_text(report->0),
        (report is Some && eligibility == Eligibility::NoLongerEligible) ==> r.status
            == EvidenceStatus::Invalid && !r.publish_targets && outcome_reason(r) == Some(
            "PORTFOLIO_SOURCE_NO_LONGER_ELIGIBLE"@,
        ),
{
    match report {
        None => CandidateOutcome {
            status: EvidenceStatus::Incomplete,
            reason: Some(
                if cancelled {
                    "PORTFOLIO_CANCELLED"
                } else {
                    "PORTFOLIO_EXECUTION_FAILED"
                }.to_string(),
            ),
            publish_targets: false,
        },
        Some(reason) => match eligibility {
            Eligibility::Eligible => CandidateOutcome {
                status: EvidenceStatus::Valid,
                reason,
                publish_targets: true,
            },
            Eligibility::NoLongerEligible => CandidateOutcome {
                status: EvidenceStatus::Invalid,
                reason: Some("PORTFOLIO_SOURCE_NO_LONGER_ELIGIBLE".to_string()),
                publish_targets: false,
            },
        },
    }
}

#[derive(Clone, Copy, Debug, PartialEq, Eq, Structural)]
pub enum ReleaseDecision {
    Reject,
    Reopen,
}

/// The latest decision recorded for a Candidate, downstream and environment.
#[derive(Clone, Copy, Debug, PartialEq, Eq, Structural)]
pub struct LatestDecision {
    pub id: Id,
    pub decision: ReleaseDecision,
    pub ordinal: i32,
}

pub open spec fn latest_id(previous: Option<LatestDecision>) -> Option<Id> {
    match previous {
        Some(p) => Some(p.id),
        None => None,
    }
}

/// The ordinal of a new human decision, given the latest one and the latest the
/// operator saw. A reopen needs a latest reject; ordinals only grow.
pub open spec fn decision_ordinal(
    previous: Option<LatestDecision>,
    expected: Option<Id>,
    decision: ReleaseDecision,
) -> Result<i32, StoreError> {
    if latest_id(previous) != expected || (decision == ReleaseDecision::Reopen && !(
    previous matches Some(p) && p.decision == ReleaseDecision::Reject)) {
        Err(StoreError::Conflict)
    } else {
        let base: int = match previous {
            Some(p) => p.ordinal as int,
            None => 0,
        };
        if base + 1 > i32::MAX {
            Err(StoreError::Conflict)
        } else {
            Ok((base + 1) as i32)
        }
    }
}

pub fn next_decision_ordinal(
    previous: Option<LatestDecision>,
    expected: Option<Id>,
    decision: ReleaseDecision,
) -> (r: Result<i32, StoreError>)
    ensures
        r == decision_ordinal(previous, expected, decision),
{
    let latest = match previous {
        Some(p) => Some(p.id),
        None => None,
    };
    let reopenable = match previous {
        Some(p) => p.decision == ReleaseDecision::Reject,
        None => false,
    };
    if latest != expected || (decision == ReleaseDecision::Reopen && !reopenable) {
        return Err(StoreError::Conflict);
    }
    let base = match previous {
        Some(p) => p.ordinal,
        None => 0,
    };
    match base.checked_add(1) {
        Some(o) => Ok(o),
        None => Err(StoreError::Conflict),
    }
}

/// Each accepted decision takes the next ordinal after the latest one, and a
/// reopen is accepted only directly after a reject.
pub proof fn decisions_append_in_order(
    previous: Option<LatestDecision>,
    expected: Option<Id>,
    decision: ReleaseDecision,
)
    requires
        decision_ordinal(previous, expected, decision) is Ok,
    ensures
        previous matches Some(p) ==> decision_ordinal(previous, expected, decision)->Ok_0
            == p.ordinal + 1,
        decision == ReleaseDecision::Reopen ==> (previous matches Some(p) && p.decision
            == ReleaseDecision::Reject),
{
}

/// The decision ordinal an approval is granted on: the latest decision must be
/// the one the operator saw, and a latest decision must be a reopen.
pub open spec fn approval_ordinal(previous: Option<LatestDecision>, expected: Option<Id>) -> Result<
    i32,
    StoreError,
> {
    if latest_id(previous) != expected {
        Err(StoreError::Conflict)
    } else {
        match previous {
            Some(p) => if p.decision != ReleaseDecision::Reopen {
                Err(StoreError::Invalid("candidate_rejected"))
            } else {
                Ok(p.ordinal)
            },
            None => Ok(0),
        }
    }
}

pub fn decision(previous: Option<LatestDecision>, expected: Option<Id>) -> (r: Result<
    i32,
    StoreError,
>)
    ensures
        r == approval_ordinal(previous, expected),
{
    let latest = match previous {
        Some(p) => Some(p.id),
        None => None,
    };
    if latest != expected {
        return Err(StoreError::Conflict);
    }
    match previous {
        Some(p) => if p.decision != ReleaseDecision::Reopen {
            Err(StoreError::Invalid("candidate_rejected"))
        } else {
            Ok(p.ordinal)
        },
        None => Ok(0),
    }
}

#[derive(Clone, Copy, Debug, PartialEq, Eq, Structural)]
pub enum ForwardEnvironment {
    Paper,
    Live,
}

/// A data-use grant covers a delivery environment: paper-and-research grants
/// cover only paper, research-paper-live grants cover both.
pub open spec fn grant_covers(allowed: Seq<char>, environment: ForwardEnvironment) -> bool {
    allowed == "RESEARCH_PAPER_LIVE"@ || (environment == ForwardEnvironment::Paper && allowed
        == "RESEARCH_AND_PAPER"@)
}

pub fn check_data_use(allowed: &str, environment: ForwardEnvironment) -> (r: Result<
    (),
    StoreError,
>)
    ensures
        r == (if grant_covers(allowed@, environment) {
            Ok::<(), StoreError>(())
        } else {
            Err(StoreError::Invalid("approval_data_use"))
        }),
{
    if !crate::text::same_text(allowed, "RESEARCH_PAPER_LIVE") && (environment
        == ForwardEnvironment::Live || !crate::text::same_text(allowed, "RESEARCH_AND_PAPER")) {
        return Err(StoreError::Invalid("approval_data_use"));
    }
    Ok(())
}

} // verus!
