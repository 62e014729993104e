//! Downstream forward measurements and the Paper evidence a Live automation
//! needs. Validity never grants approval.
use vstd::prelude::*;
use crate::error::StoreError;
use crate::ids::{Id, UtcTime};
use crate::portfolio::EvidenceStatus;
use crate::runs::RunState;
use crate::text::{push_reason, same_text, texts};

verus! {

/// The facts a forward measurement is concluded from. `source_current` is
/// read only for a succeeded Run: whether its inputs and policy are still current.
#[derive(Clone, Copy, Debug, PartialEq, Eq, Structural)]
pub struct ForwardFacts {
    pub state: RunState,
    pub metrics_complete: bool,
    pub source_current: bool,
    pub deadline: UtcTime,
    pub concluded_at: UtcTime,
    pub revoked_at: Option<UtcTime>,
}

/// What a forward measurement publishes.
#[derive(Clone, Debug)]
pub struct ForwardMeasurement {
    pub reasons: Vec<String>,
    pub status: EvidenceStatus,
    pub valid_until: Option<UtcTime>,
}

/// The reasons a forward measurement is not valid, in order.
pub open spec fn forward_reasons(f: ForwardFacts) -> Seq<Seq<char>> {
    let run: Seq<Seq<char>> = if f.state == RunState::Succeeded {
        (if f.metrics_complete {
            Seq::<Seq<char>>::empty()
        } else {
            seq!["FORWARD_STATISTICS_INCOMPLETE"@]
        }) + (if f.source_current {
            Seq::<Seq<char>>::empty()
        } else {
            seq!["FORWARD_SOURCE_OR_POLICY_NO_LONGER_CURRENT"@]
        })
    } else if f.state == RunState::Cancelled {
        seq!["FORWARD_CANCELLED"@]
    } else {
        seq!["FORWARD_EXECUTION_FAILED"@]
    };
    run + (if f.deadline.nanos <= f.concluded_at.nanos {
        seq!["FORWARD_EVIDENCE_EXPIRED"@]
    } else {
        Seq::<Seq<char>>::empty()
    })
}

/// The earlier of the evidence deadline and the automation policy's revocation.
pub open spec fn effective_deadline(f: ForwardFacts) -> UtcTime {
    match f.revoked_at {
        Some(at) => if at.nanos <= f.deadline.nanos {
            at
        } else {
            f.deadline
        },
        None => f.deadline,
    }
}

/// A measurement is valid only when nothing stands against it; its validity then
/// ends at the effective deadline, never later.
pub fn forward_measurement(f: &ForwardFacts) -> (r: ForwardMeasurement)
    ensures
        texts(r.reasons@) == forward_reasons(*f),
        r.status == (if forward_reasons(*f).len() == 0 {
            EvidenceStatus::Valid
        } else {
            EvidenceStatus::Incomplete
        }),
        r.valid_until == (if forward_reasons(*f).len() == 0 {
            Some(effective_deadline(*f))
        } else {
            None
        }),
{
    let mut reasons: Vec<String> = Vec::new();
    assert(texts(reasons@) =~= Seq::<Seq<char>>::empty());
    if f.state == RunState::Succeeded {
        if !f.metrics_complete {
            push_reason(&mut reasons, "FORWARD_STATISTICS_INCOMPLETE");
        }
        if !f.source_current {
            push_reason(&mut reasons, "FORWARD_SOURCE_OR_POLICY_NO_LONGER_CURRENT");
        }
    } else if f.state == RunState::Cancelled {
        push_reason(&mut reasons, "FORWARD_CANCELLED");
    } else {
        push_reason(&mut reasons, "FORWARD_EXECUTION_FAILED");
    }
    if !f.concluded_at.is_before(&f.deadline) {
        push_reason(&mut reasons, "FORWARD_EVIDENCE_EXPIRED");
    }
    proof {
        assert(texts(reasons@) =~= forward_reasons(*f));
    }
    let effective = match f.revoked_at {
        Some(at) => if at.nanos <= f.deadline.nanos {
            at
        } else {
            f.deadline
        },
        None => f.deadline,
    };
    let valid = reasons.len() == 0;
    ForwardMeasurement {
        reasons,
        status: if valid {
            EvidenceStatus::Valid
        } else {
            EvidenceStatus::Incomplete
        },
        valid_until: if valid {
            Some(effective)
        } else {
            None
        },
    }
}

/// A valid measurement never outlives its evidence deadline nor its policy's revocation.
pub proof fn valid_measurement_is_bounded(f: ForwardFacts)
    requires
        forward_reasons(f).len() == 0,
    ensures
        f.state == RunState::Succeeded,
        f.concluded_at.nanos < effective_deadline(f).nanos || (f.revoked_at matches Some(at)
            && at.nanos <= f.concluded_at.nanos),
        effective_deadline(f).nanos <= f.deadline.nanos,
{
    if f.state != RunState::Succeeded {
        assert(forward_reasons(f).len() >= 1);
    }
    if f.deadline.nanos <= f.concluded_at.nanos {
        assert(forward_reasons(f).len() >= 1);
    }
}

/// The published state of a forward evaluation that an observation reads.
#[derive(Clone, Debug)]
pub struct ForwardEvaluation {
    pub execution_status: String,
    pub evidence_status: String,
    pub is_contiguous: bool,
    pub complete_observations: i64,
    pub valid_until: Option<UtcTime>,
    pub freshness_deadline: UtcTime,
}

pub open spec fn evaluation_current(e: ForwardEvaluation, observed_at: UtcTime) -> bool {
    &&& e.execution_status@ == "SUCCEEDED"@
    &&& e.evidence_status@ == "VALID"@
    &&& e.is_contiguous
    &&& e.complete_observations > 0
    &&& (e.valid_until matches Some(until) && until.nanos > observed_at.nanos)
    &&& e.freshness_deadline.nanos > observed_at.nanos
}

/// Whether a published forward evaluation still counts as current evidence.
pub fn observation_current(e: &ForwardEvaluation, observed_at: UtcTime) -> (r: bool)
    ensures
        r == evaluation_current(*e, observed_at),
{
    let valid = match e.valid_until {
        Some(until) => observed_at.is_before(&until),
        None => false,
    };
    same_text(e.execution_status.as_str(), "SUCCEEDED") && same_text(
        e.evidence_status.as_str(),
        "VALID",
    ) && e.is_contiguous && e.complete_observations > 0 && valid && observed_at.is_before(
        &e.freshness_deadline,
    )
}

/// The latest observation of one Paper stream the Candidate was delivered on.
#[derive(Clone, Debug)]
pub struct PaperStream {
    pub classification: String,
    pub execution_status: String,
    pub evidence_status: String,
    pub valid_until: Option<UtcTime>,
    pub freshness_deadline: UtcTime,
    pub is_contiguous: bool,
    pub complete_observations: i64,
    pub window_start: UtcTime,
    pub window_end: UtcTime,
}

/// What a Live automation policy requires of each Paper stream.
#[derive(Clone, Copy, Debug, PartialEq, Eq, Structural)]
pub struct PaperRequirement {
    pub required_observations: u32,
    pub minimum_elapsed_seconds: u64,
}

/// Whole seconds of a window, truncated toward zero.
pub open spec fn window_seconds(start: UtcTime, end: UtcTime) -> int {
    let d = end.nanos - start.nanos;
    if d >= 0 {
        d / 1_000_000_000
    } else {
        -((-d) / 1_000_000_000)
    }
}

pub open spec fn stream_qualified(s: PaperStream, req: PaperRequirement, now: UtcTime) -> bool {
    &&& s.classification@ == "HEALTHY"@
    &&& s.execution_status@ == "SUCCEEDED"@
    &&& s.evidence_status@ == "VALID"@
    &&& (s.valid_until matches Some(v) && v.nanos > now.nanos)
    &&& s.freshness_deadline.nanos > now.nanos
    &&& s.is_contiguous
    &&& s.complete_observations >= req.required_observations
    &&& window_seconds(s.window_start, s.window_end) >= 0
    &&& window_seconds(s.window_start, s.window_end) >= req.minimum_elapsed_seconds
}

/// Every Paper stream the Candidate was delivered on must be healthy, current, contiguous, long and
/// full enough before Live delivery may be automated.
pub fn check_paper_stream(s: &PaperStream, req: PaperRequirement, now: UtcTime) -> (r: Result<
    (),
    StoreError,
>)
    ensures
        stream_qualified(*s, req, now) ==> r == Ok::<(), StoreError>(()),
        !stream_qualified(*s, req, now) ==> r == Err::<(), StoreError>(
            StoreError::Invalid("automation_live_paper_not_qualified"),
        ),
{
    let valid = match s.valid_until {
        Some(v) => now.is_before(&v),
        None => false,
    };
    let elapsed_ok = match s.window_end.nanos.checked_sub(s.window_start.nanos) {
        Some(d) => {
            if d >= 0 {
                d / 1_000_000_000 >= req.minimum_elapsed_seconds as i128
            } else {
                // a negative window of less than a second truncates to zero seconds
                d > -1_000_000_000 && req.minimum_elapsed_seconds == 0
            }
        },
        None => s.window_end.nanos > s.window_start.nanos,
    };
    if !same_text(s.classification.as_str(), "HEALTHY") || !same_text(
        s.execution_status.as_str(),
        "SUCCEEDED",
    ) || !same_text(s.evidence_status.as_str(), "VALID") || !valid || !now.is_before(
        &s.freshness_deadline,
    ) || !s.is_contiguous || s.complete_observations < req.required_observations as i64
        || !elapsed_ok {
        return Err(StoreError::Invalid("automation_live_paper_not_qualified"));
    }
    Ok(())
}

/// A day's automated rebalances stay within the policy's quota; a Candidate
/// already counted today is not counted again.
pub fn check_daily_quota(daily: i64, counted: bool, max_per_day: u32) -> (r: Result<
    (),
    StoreError,
>)
    ensures
        (counted || daily < max_per_day) ==> r == Ok::<(), StoreError>(()),
        !(counted || daily < max_per_day) ==> r == Err::<(), StoreError>(
            StoreError::Invalid("automation_daily_quota"),
        ),
{
    if !counted && daily >= max_per_day as i64 {
        return Err(StoreError::Invalid("automation_daily_quota"));
    }
    Ok(())
}

/// An automated approval is granted only inside the package's window and before
/// the authority expires.
pub fn check_grant_time(granted_at: UtcTime, valid_from: UtcTime, until: UtcTime) -> (r: Result<
    (),
    StoreError,
>)
    ensures
        (valid_from.nanos <= granted_at.nanos < until.nanos) ==> r == Ok::<(), StoreError>(()),
        !(valid_from.nanos <= granted_at.nanos < until.nanos) ==> r == Err::<(), StoreError>(
            StoreError::Invalid("automation_expiry"),
        ),
{
    if granted_at.is_before(&valid_from) || !granted_at.is_before(&until) {
        return Err(StoreError::Invalid("automation_expiry"));
    }
    Ok(())
}

pub open spec fn earlier(a: UtcTime, b: UtcTime) -> UtcTime {
    if b.nanos < a.nanos {
        b
    } else {
        a
    }
}

pub open spec fn policy_authority_spec(
    live: bool,
    auto_handoff: bool,
    expected: Option<Seq<Id>>,
    current: Seq<Id>,
    until: UtcTime,
    evidence_until: UtcTime,
) -> Result<UtcTime, StoreError> {
    if !live {
        Ok(until)
    } else if expected is None {
        Err(StoreError::Invalid("automation_live_evidence_required"))
    } else if !auto_handoff {
        Err(StoreError::Invalid("automation_live_mode"))
    } else if current != expected->0 {
        Err(StoreError::Invalid("automation_live_evidence_changed"))
    } else {
        Ok(earlier(until, evidence_until))
    }
}

fn same_ids(a: &Vec<Id>, b: &Vec<Id>) -> (r: bool)
    ensures
        r == (a@ == b@),
{
    if a.len() != b.len() {
        return false;
    }
    let mut i: usize = 0;
    while i < a.len()
        invariant
            i <= a@.len(),
            a@.len() == b@.len(),
            forall|k: int| 0 <= k < i ==> a@[k] == b@[k],
        decreases a@.len() - i,
    {
        if a[i] != b[i] {
            return false;
        }
        i = i + 1;
    }
    proof {
        assert(a@ =~= b@);
    }
    true
}

/// What a frozen automation policy authorises: Paper delivery until the
/// policy's end; Live delivery only under automatic handoff, on exactly the
/// qualifying Paper observations the approval recorded, until the earlier of
/// the policy's and that evidence's end.
pub fn policy_authority(
    live: bool,
    auto_handoff: bool,
    expected: &Option<Vec<Id>>,
    current: &Vec<Id>,
    until: UtcTime,
    evidence_until: UtcTime,
) -> (r: Result<UtcTime, StoreError>)
    ensures
        r == policy_authority_spec(
            live,
            auto_handoff,
            match *expected {
                Some(v) => Some(v@),
                None => None,
            },
            current@,
            until,
            evidence_until,
        ),
{
    if !live {
        return Ok(until);
    }
    let recorded = match expected {
        Some(v) => v,
        None => {
            return Err(StoreError::Invalid("automation_live_evidence_required"));
        },
    };
    if !auto_handoff {
        return Err(StoreError::Invalid("automation_live_mode"));
    }
    if !same_ids(current, recorded) {
        return Err(StoreError::Invalid("automation_live_evidence_changed"));
    }
    Ok(
        if evidence_until.is_before(&until) {
            evidence_until
        } else {
            until
        },
    )
}

/// Live promotion needs between one and 255 delivered Paper streams.
pub fn check_paper_stream_count(count: usize) -> (r: Result<(), StoreError>)
    ensures
        (1 <= count <= 255) ==> r == Ok::<(), StoreError>(()),
        !(1 <= count <= 255) ==> r == Err::<(), StoreError>(
            StoreError::Invalid("automation_live_complete_paper_required"),
        ),
{
    if count == 0 || count > 255 {
        return Err(StoreError::Invalid("automation_live_complete_paper_required"));
    }
    Ok(())
}

/// Whether an automated delivery is due: Live delivery only under automatic
/// handoff, and only of a Candidate not yet offered to the downstream there.
pub fn delivery_due(live: bool, auto_handoff: bool, already_offered: bool) -> (r: bool)
    ensures
        r == (!(live && !auto_handoff) && !already_offered),
{
    !(live && !auto_handoff) && !already_offered
}

/// Identities in ascending order of their 128-bit value.
pub open spec fn ascending(ids: Seq<Id>) -> bool {
    forall|a: int, b: int| 0 <= a < b < ids.len() ==> ids[a].0 <= ids[b].0
}

/// The qualifying Paper observations of a Live promotion, in ascending order
/// of identity: the same identities, each as often as given.
pub fn sorted_observations(ids: &Vec<Id>) -> (r: Vec<Id>)
    ensures
        ascending(r@),
        forall|a: int, b: int| 0 <= a < b < r@.len() ==> r@[a].0 <= r@[b].0,
        r@.len() == ids@.len(),
        r@.to_multiset() == ids@.to_multiset(),
{
    let mut out: Vec<Id> = Vec::new();
    let mut i: usize = 0;
    proof {
        assert(ids@.subrange(0, 0) =~= Seq::<Id>::empty());
        assert(out@ =~= Seq::<Id>::empty());
    }
    while i < ids.len()
        invariant
            i <= ids@.len(),
            ascending(out@),
            out@.to_multiset() == ids@.subrange(0, i as int).to_multiset(),
        decreases ids@.len() - i,
    {
        let x = ids[i];
        let mut p: usize = 0;
        while p < out.len() && out[p].0 <= x.0
            invariant
                p <= out@.len(),
                ascending(out@),
                forall|k: int| 0 <= k < p ==> out@[k].0 <= x.0,
            decreases out@.len() - p,
        {
            p = p + 1;
        }
        let ghost before = out@;
        proof {
            if p < before.len() {
                assert forall|k: int| p <= k < before.len() implies before[k].0 > x.0 by {
                    if k > p {
                        assert(before[p as int].0 <= before[k].0);
                    }
                }
            }
        }
        out.insert(p, x);
        proof {
            assert(out@ == before.insert(p as int, x));
            assert forall|a: int, b: int| 0 <= a < b < out@.len() implies out@[a].0 <= out@[b].0 by {
                if a < p && b < p {
                    assert(out@[a] == before[a] && out@[b] == before[b]);
                } else if a < p && b == p {
                    assert(out@[a] == before[a]);
                } else if a < p && b > p {
                    assert(out@[a] == before[a] && out@[b] == before[b - 1]);
                    assert(before[a].0 <= x.0);
                } else if a == p {
                    assert(out@[b] == before[b - 1]);
                } else {
                    assert(out@[a] == before[a - 1] && out@[b] == before[b - 1]);
                }
            }
            vstd::seq_lib::to_multiset_insert(before, p as int, x);
            assert(ids@.subrange(0, i + 1) =~= ids@.subrange(0, i as int).push(x));
            vstd::seq_lib::to_multiset_build(ids@.subrange(0, i as int), x);
        }
        i = i + 1;
    }
    proof {
        assert(ids@.subrange(0, ids@.len() as int) =~= ids@);
        vstd::seq_lib::to_multiset_len(out@);
        vstd::seq_lib::to_multiset_len(ids@);
    }
    out
}

/// The end of a Live promotion's evidence: the earliest of the policy's end
/// and every stream's freshness deadline and validity.
pub open spec fn streams_until(policy_until: UtcTime, streams: Seq<PaperStream>) -> Result<
    UtcTime,
    StoreError,
>
    decreases streams.len(),
{
    if streams.len() == 0 {
        Ok(policy_until)
    } else {
        match streams_until(policy_until, streams.drop_last()) {
            Err(e) => Err(e),
            Ok(u) => match streams.last().valid_until {
                None => Err(StoreError::Integrity),
                Some(v) => Ok(earlier(earlier(u, streams.last().freshness_deadline), v)),
            },
        }
    }
}

proof fn lemma_streams_prefix(policy_until: UtcTime, streams: Seq<PaperStream>, n: int)
    requires
        0 <= n <= streams.len(),
        streams_until(policy_until, streams.subrange(0, n)) is Err,
    ensures
        streams_until(policy_until, streams) == streams_until(policy_until, streams.subrange(0, n)),
    decreases streams.len() - n,
{
    if n == streams.len() {
        assert(streams.subrange(0, n) =~= streams);
    } else {
        assert(streams.subrange(0, n + 1).drop_last() =~= streams.subrange(0, n));
        assert(streams_until(policy_until, streams.subrange(0, n + 1)) == streams_until(
            policy_until,
            streams.subrange(0, n),
        ));
        lemma_streams_prefix(policy_until, streams, n + 1);
    }
}

/// The end of a promotion's evidence is the earliest deadline it rests on: it
/// lies no later than the policy's end and than every stream's freshness
/// deadline and validity, at whatever position, and it is one of them. A stream
/// with no validity anywhere makes the evidence corrupt.
pub proof fn promotion_ends_at_the_first_deadline(policy_until: UtcTime, streams: Seq<PaperStream>)
    ensures
        (exists|i: int| 0 <= i < streams.len() && (#[trigger] streams[i]).valid_until is None)
            ==> streams_until(policy_until, streams) == Err::<UtcTime, StoreError>(
            StoreError::Integrity,
        ),
        (forall|i: int| 0 <= i < streams.len() ==> (#[trigger] streams[i]).valid_until is Some)
            ==> streams_until(policy_until, streams) is Ok,
        streams_until(policy_until, streams) matches Ok(u) ==> {
            &&& u.nanos <= policy_until.nanos
            &&& forall|i: int|
                0 <= i < streams.len() ==> u.nanos <= (#[trigger] streams[i]).freshness_deadline.nanos
                    && streams[i].valid_until is Some && u.nanos <= streams[i].valid_until->0.nanos
            &&& (u == policy_until || exists|i: int|
                0 <= i < streams.len() && ((#[trigger] streams[i]).freshness_deadline == u
                    || streams[i].valid_until == Some(u)))
        },
    decreases streams.len(),
{
    if streams.len() > 0 {
        let rest = streams.drop_last();
        promotion_ends_at_the_first_deadline(policy_until, rest);
        assert forall|i: int| 0 <= i < rest.len() implies #[trigger] rest[i] == streams[i] by {}
        let last = streams.last();
        assert(streams[streams.len() - 1] == last);
        if exists|i: int| 0 <= i < streams.len() && (#[trigger] streams[i]).valid_until is None {
            let i = choose|i: int| 0 <= i < streams.len() && (#[trigger] streams[i]).valid_until is None;
            if i < rest.len() {
                assert(rest[i].valid_until is None);
            }
        }
        if forall|i: int| 0 <= i < streams.len() ==> (#[trigger] streams[i]).valid_until is Some {
            assert forall|i: int| 0 <= i < rest.len() implies (#[trigger] rest[i]).valid_until is Some by {
                assert(streams[i].valid_until is Some);
            }
        }
        if let Ok(u) = streams_until(policy_until, streams) {
            let u0 = streams_until(policy_until, rest)->Ok_0;
            assert(u.nanos <= u0.nanos);
            assert forall|i: int| 0 <= i < streams.len() implies u.nanos <= (
            #[trigger] streams[i]).freshness_deadline.nanos && streams[i].valid_until is Some
                && u.nanos <= streams[i].valid_until->0.nanos by {
                if i < rest.len() {
                    assert(rest[i] == streams[i]);
                }
            }
            if u == policy_until {
            } else if u == u0 {
                let k = choose|i: int|
                    0 <= i < rest.len() && ((#[trigger] rest[i]).freshness_deadline == u0
                        || rest[i].valid_until == Some(u0));
                assert(streams[k] == rest[k]);
            } else {
                assert(last.freshness_deadline == u || last.valid_until == Some(u));
            }
        }
    }
}

/// The Live promotion's evidence lasts until its earliest end, which must
/// still lie ahead.
pub fn promotion_until(policy_until: UtcTime, streams: &Vec<PaperStream>, now: UtcTime) -> (r: Result<
    UtcTime,
    StoreError,
>)
    ensures
        match streams_until(policy_until, streams@) {
            Err(e) => r == Err::<UtcTime, StoreError>(e),
            Ok(u) => if now.nanos < u.nanos {
                r == Ok::<UtcTime, StoreError>(u)
            } else {
                r == Err::<UtcTime, StoreError>(StoreError::Invalid("automation_live_expiry"))
            },
        },
        r matches Ok(u) ==> {
            &&& now.nanos < u.nanos
            &&& u.nanos <= policy_until.nanos
            &&& forall|i: int|
                0 <= i < streams@.len() ==> u.nanos <= (#[trigger] streams@[i]).freshness_deadline.nanos
                    && streams@[i].valid_until is Some && u.nanos <= streams@[i].valid_until->0.nanos
            &&& (u == policy_until || exists|i: int|
                0 <= i < streams@.len() && ((#[trigger] streams@[i]).freshness_deadline == u
                    || streams@[i].valid_until == Some(u)))
        },
        (exists|i: int| 0 <= i < streams@.len() && (#[trigger] streams@[i]).valid_until is None) ==> r
            == Err::<UtcTime, StoreError>(StoreError::Integrity),
{
    proof {
        promotion_ends_at_the_first_deadline(policy_until, streams@);
    }
    let mut until = policy_until;
    let mut i: usize = 0;
    while i < streams.len()
        invariant
            i <= streams@.len(),
            streams_until(policy_until, streams@.subrange(0, i as int)) == Ok::<UtcTime, StoreError>(
                until,
            ),
        decreases streams@.len() - i,
    {
        proof {
            assert(streams@.subrange(0, i + 1).drop_last() =~= streams@.subrange(0, i as int));
        }
        let valid = match streams[i].valid_until {
            Some(v) => v,
            None => {
                proof {
                    lemma_streams_prefix(policy_until, streams@, i + 1);
                }
                return Err(StoreError::Integrity);
            },
        };
        if streams[i].freshness_deadline.is_before(&until) {
            until = streams[i].freshness_deadline;
        }
        if valid.is_before(&until) {
            until = valid;
        }
        i = i + 1;
    }
    proof {
        assert(streams@.subrange(0, streams@.len() as int) =~= streams@);
    }
    if !now.is_before(&until) {
        return Err(StoreError::Invalid("automation_live_expiry"));
    }
    Ok(until)
}

/// A source refusal on revalidation (invalid, a domain rule, or gone) makes a
/// current observation no longer current; any other failure is the caller's.
pub open spec fn revalidated_spec(current: bool, revalidation: Result<(), StoreError>) -> Result<
    bool,
    StoreError,
> {
    if !current {
        Ok(false)
    } else {
        match revalidation {
            Ok(()) => Ok(true),
            Err(StoreError::Invalid(_)) | Err(StoreError::Domain(_)) | Err(StoreError::NotFound) => Ok(
                false,
            ),
            Err(e) => Err(e),
        }
    }
}

pub fn still_current(current: bool, revalidation: Result<(), StoreError>) -> (r: Result<
    bool,
    StoreError,
>)
    ensures
        r == revalidated_spec(current, revalidation),
{
    if !current {
        return Ok(false);
    }
    match revalidation {
        Ok(()) => Ok(true),
        Err(StoreError::Invalid(_)) | Err(StoreError::Domain(_)) | Err(StoreError::NotFound) => Ok(
            false,
        ),
        Err(e) => Err(e),
    }
}

} // verus!
