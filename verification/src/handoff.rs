//! Handoffs: an approved release offered to one downstream. An offer is not a
//! transfer or an execution; the downstream claims it once, within its window,
//! and acknowledges or rejects it. Settled handoffs never change again.
use vstd::prelude::*;
use crate::error::StoreError;
use crate::ids::{Id, UtcTime};
use crate::portfolio::{LatestDecision, ReleaseDecision};
use crate::settings::{MachineScope, PrincipalKind};
use crate::text::same_text;
use crate::turns::{opt_text, same_opt_text};

verus! {

#[derive(Clone, Copy, Debug, PartialEq, Eq, Structural)]
pub enum HandoffState {
    Offered,
    Claimed,
    Acknowledged,
    Rejected,
    Expired,
    Revoked,
}

/// How a downstream answers a handoff.
#[derive(Clone, Copy, Debug, PartialEq, Eq, Structural)]
pub enum AckOutcome {
    Acknowledged,
    Rejected,
}

pub open spec fn settled(state: HandoffState) -> bool {
    state == HandoffState::Acknowledged || state == HandoffState::Rejected || state
        == HandoffState::Expired || state == HandoffState::Revoked
}

/// A handoff as locked for a transition.
#[derive(Clone, Debug)]
pub struct Handoff {
    pub state: HandoffState,
    pub offered_at: UtcTime,
    pub expires_at: UtcTime,
    pub claimed: bool,
    pub external_claim_id: Option<String>,
}

/// What must hold when a claim is accepted.
#[derive(Clone, Copy, Debug)]
pub struct ClaimWindow {
    /// When the package becomes valid.
    pub valid_from: UtcTime,
    /// When the approval was granted.
    pub granted_at: UtcTime,
    /// The earliest end of the sources, the policy authority, the approval and
    /// any revocation of it.
    pub until: UtcTime,
}

/// A claim is accepted no earlier than the offer, the package and the approval,
/// and before the offer expires and before its authority ends.
pub open spec fn claim_in_window(h: Handoff, w: ClaimWindow, accepted: UtcTime) -> bool {
    &&& h.offered_at.nanos <= accepted.nanos
    &&& w.valid_from.nanos <= accepted.nanos
    &&& w.granted_at.nanos <= accepted.nanos
    &&& accepted.nanos < h.expires_at.nanos
    &&& accepted.nanos < w.until.nanos
}

pub open spec fn claim_spec(
    h: Handoff,
    key: Seq<char>,
    claim_id: Seq<char>,
    w: ClaimWindow,
    accepted: UtcTime,
) -> Result<HandoffState, StoreError> {
    if key != claim_id {
        Err(StoreError::Invalid("claim_idempotency_key"))
    } else if h.state != HandoffState::Offered {
        Err(StoreError::Conflict)
    } else if !claim_in_window(h, w, accepted) {
        Err(StoreError::Invalid("claim_expiry"))
    } else {
        Ok(HandoffState::Claimed)
    }
}

/// A downstream claims an offered handoff under its own claim id, which is also
/// the command's idempotency key.
pub fn claim_handoff(h: &Handoff, key: &str, claim_id: &str, w: &ClaimWindow, accepted: UtcTime) -> (r:
    Result<HandoffState, StoreError>)
    ensures
        r == claim_spec(*h, key@, claim_id@, *w, accepted),
{
    if !same_text(key, claim_id) {
        return Err(StoreError::Invalid("claim_idempotency_key"));
    }
    if h.state != HandoffState::Offered {
        return Err(StoreError::Conflict);
    }
    if accepted.is_before(&h.offered_at) || accepted.is_before(&w.valid_from) || accepted.is_before(
        &w.granted_at,
    ) || !accepted.is_before(&h.expires_at) || !accepted.is_before(&w.until) {
        return Err(StoreError::Invalid("claim_expiry"));
    }
    Ok(HandoffState::Claimed)
}

/// After the claim is written the offer and its authority must still be current.
pub fn check_claim_recorded(expires_at: UtcTime, until: UtcTime, now: UtcTime) -> (r: Result<
    (),
    StoreError,
>)
    ensures
        (now.nanos < expires_at.nanos && now.nanos < until.nanos) ==> r == Ok::<(), StoreError>(()),
        !(now.nanos < expires_at.nanos && now.nanos < until.nanos) ==> r == Err::<(), StoreError>(
            StoreError::Invalid("claim_expiry"),
        ),
{
    if !now.is_before(&expires_at) || !now.is_before(&until) {
        return Err(StoreError::Invalid("claim_expiry"));
    }
    Ok(())
}

pub open spec fn outcome_state(outcome: AckOutcome) -> HandoffState {
    match outcome {
        AckOutcome::Acknowledged => HandoffState::Acknowledged,
        AckOutcome::Rejected => HandoffState::Rejected,
    }
}

/// What an accepted acknowledgement writes: the new state, and whether the
/// acknowledgement time is stamped (only on a claimed handoff).
#[derive(Clone, Copy, Debug, PartialEq, Eq, Structural)]
pub struct AckStep {
    pub state: HandoffState,
    pub stamp_acknowledged: bool,
}

/// A claimed handoff is answered under its claim id; an unclaimed offer may
/// only be rejected, without a claim id, while it is open.
pub open spec fn ack_allowed(
    h: Handoff,
    claim_id: Option<Seq<char>>,
    outcome: AckOutcome,
    accepted: UtcTime,
) -> bool {
    ||| (h.state == HandoffState::Claimed && opt_text(h.external_claim_id) == claim_id)
    ||| (h.state == HandoffState::Offered && outcome == AckOutcome::Rejected && claim_id is None
        && h.offered_at.nanos <= accepted.nanos && accepted.nanos < h.expires_at.nanos)
}

pub open spec fn ack_spec(
    h: Handoff,
    key: Seq<char>,
    ack_id: Seq<char>,
    claim_id: Option<Seq<char>>,
    outcome: AckOutcome,
    accepted: UtcTime,
) -> Result<AckStep, StoreError> {
    if key != ack_id {
        Err(StoreError::Invalid("ack_idempotency_key"))
    } else if !ack_allowed(h, claim_id, outcome, accepted) {
        Err(StoreError::Conflict)
    } else {
        Ok(AckStep { state: outcome_state(outcome), stamp_acknowledged: h.claimed })
    }
}

pub fn acknowledge_handoff(
    h: &Handoff,
    key: &str,
    ack_id: &str,
    claim_id: &Option<String>,
    outcome: AckOutcome,
    accepted: UtcTime,
) -> (r: Result<AckStep, StoreError>)
    ensures
        r == ack_spec(*h, key@, ack_id@, opt_text(*claim_id), outcome, accepted),
{
    if !same_text(key, ack_id) {
        return Err(StoreError::Invalid("ack_idempotency_key"));
    }
    let allowed = match h.state {
        HandoffState::Claimed => same_opt_text(&h.external_claim_id, claim_id),
        HandoffState::Offered => outcome == AckOutcome::Rejected && claim_id.is_none()
            && !accepted.is_before(&h.offered_at) && accepted.is_before(&h.expires_at),
        _ => false,
    };
    if !allowed {
        return Err(StoreError::Conflict);
    }
    let state = match outcome {
        AckOutcome::Acknowledged => HandoffState::Acknowledged,
        AckOutcome::Rejected => HandoffState::Rejected,
    };
    Ok(AckStep { state, stamp_acknowledged: h.claimed })
}

/// A rejection of an unclaimed offer must still be recorded before it expires.
pub fn check_ack_recorded(claimed: bool, expires_at: UtcTime, now: UtcTime) -> (r: Result<
    (),
    StoreError,
>)
    ensures
        (!claimed && now.nanos >= expires_at.nanos) ==> r == Err::<(), StoreError>(
            StoreError::Invalid("ack_expiry"),
        ),
        !(!claimed && now.nanos >= expires_at.nanos) ==> r == Ok::<(), StoreError>(()),
{
    if !claimed && !now.is_before(&expires_at) {
        return Err(StoreError::Invalid("ack_expiry"));
    }
    Ok(())
}

pub open spec fn reconcile_spec(
    state: HandoffState,
    expires_at: UtcTime,
    now: UtcTime,
    revoked: bool,
) -> HandoffState {
    if state == HandoffState::Offered && (expires_at.nanos <= now.nanos || revoked) {
        if revoked {
            HandoffState::Revoked
        } else {
            HandoffState::Expired
        }
    } else {
        state
    }
}

/// Maintenance settles an open offer whose authority was revoked, or that expired.
pub fn reconcile(state: HandoffState, expires_at: UtcTime, now: UtcTime, revoked: bool) -> (r:
    HandoffState)
    ensures
        r == reconcile_spec(state, expires_at, now, revoked),
{
    if state == HandoffState::Offered && (!now.is_before(&expires_at) || revoked) {
        if revoked {
            HandoffState::Revoked
        } else {
            HandoffState::Expired
        }
    } else {
        state
    }
}

/// An offer is claimed at most once: a claim succeeds only on an open offer,
/// and the claimed handoff refuses every further claim.
pub proof fn claimed_at_most_once(
    h: Handoff,
    key: Seq<char>,
    claim_id: Seq<char>,
    w: ClaimWindow,
    accepted: UtcTime,
    key2: Seq<char>,
    claim_id2: Seq<char>,
    w2: ClaimWindow,
    accepted2: UtcTime,
)
    requires
        claim_spec(h, key, claim_id, w, accepted) is Ok,
        key2 == claim_id2,
    ensures
        h.state == HandoffState::Offered,
        claim_spec(h, key, claim_id, w, accepted) == Ok::<HandoffState, StoreError>(
            HandoffState::Claimed,
        ),
        claim_spec(
            Handoff { state: HandoffState::Claimed, ..h },
            key2,
            claim_id2,
            w2,
            accepted2,
        ) == Err::<HandoffState, StoreError>(StoreError::Conflict),
{
}

/// A settled handoff is final: no claim, acknowledgement or maintenance moves it.
pub proof fn settled_handoffs_are_final(
    h: Handoff,
    key: Seq<char>,
    id: Seq<char>,
    claim_id: Option<Seq<char>>,
    outcome: AckOutcome,
    w: ClaimWindow,
    at: UtcTime,
    revoked: bool,
)
    requires
        settled(h.state),
    ensures
        claim_spec(h, key, id, w, at) is Err,
        ack_spec(h, key, id, claim_id, outcome, at) is Err,
        reconcile_spec(h.state, h.expires_at, at, revoked) == h.state,
{
}

/// An acknowledgement answers only a claimed handoff, under its own claim id;
/// an offer nobody claimed can only be rejected, and only while it is open.
pub proof fn unclaimed_offers_can_only_be_rejected(
    h: Handoff,
    key: Seq<char>,
    ack_id: Seq<char>,
    claim_id: Option<Seq<char>>,
    outcome: AckOutcome,
    accepted: UtcTime,
)
    requires
        ack_spec(h, key, ack_id, claim_id, outcome, accepted) is Ok,
    ensures
        h.state == HandoffState::Claimed ==> opt_text(h.external_claim_id) == claim_id,
        h.state == HandoffState::Offered ==> (outcome == AckOutcome::Rejected && claim_id is None
            && h.offered_at.nanos <= accepted.nanos && accepted.nanos < h.expires_at.nanos),
        h.state == HandoffState::Offered || h.state == HandoffState::Claimed,
{
}

/// An offer's expiry lies after its offering and within its authority, and it
/// is offered no earlier than the package and the approval allow.
pub open spec fn offer_in_window(
    offered_at: UtcTime,
    expires_at: UtcTime,
    valid_from: UtcTime,
    granted_at: UtcTime,
    until: UtcTime,
) -> bool {
    &&& valid_from.nanos <= offered_at.nanos
    &&& granted_at.nanos <= offered_at.nanos
    &&& offered_at.nanos < expires_at.nanos
    &&& expires_at.nanos <= until.nanos
}

pub fn check_offer_window(
    offered_at: UtcTime,
    expires_at: UtcTime,
    valid_from: UtcTime,
    granted_at: UtcTime,
    until: UtcTime,
) -> (r: Result<(), StoreError>)
    ensures
        offer_in_window(offered_at, expires_at, valid_from, granted_at, until) ==> r == Ok::<
            (),
            StoreError,
        >(()),
        !offer_in_window(offered_at, expires_at, valid_from, granted_at, until) ==> r == Err::<
            (),
            StoreError,
        >(StoreError::Invalid("offer_expiry")),
{
    if offered_at.is_before(&valid_from) || offered_at.is_before(&granted_at) || !offered_at.is_before(
        &expires_at,
    ) || until.is_before(&expires_at) {
        return Err(StoreError::Invalid("offer_expiry"));
    }
    Ok(())
}

/// A new offer names the latest offer of its mandate, downstream and environment
/// as the one it supersedes, and is no duplicate of an offer of the same release
/// or of a claimed one of the same Candidate.
pub fn check_supersession(duplicate: bool, latest: Option<Id>, supersedes: Option<Id>) -> (r:
    Result<(), StoreError>)
    ensures
        (!duplicate && latest == supersedes) ==> r == Ok::<(), StoreError>(()),
        !(!duplicate && latest == supersedes) ==> r == Err::<(), StoreError>(StoreError::Conflict),
{
    if duplicate || latest != supersedes {
        return Err(StoreError::Conflict);
    }
    Ok(())
}

/// The superseded offer, if still open, is revoked.
pub fn superseded(state: HandoffState) -> (r: HandoffState)
    ensures
        state == HandoffState::Offered ==> r == HandoffState::Revoked,
        state != HandoffState::Offered ==> r == state,
{
    if state == HandoffState::Offered {
        HandoffState::Revoked
    } else {
        state
    }
}

/// The delivery sequence of a new offer: one after the downstream's latest.
pub fn next_sequence(latest: Option<i64>) -> (r: Result<i64, StoreError>)
    ensures
        match latest {
            Some(n) => if n < i64::MAX {
                r == Ok::<i64, StoreError>((n + 1) as i64)
            } else {
                r == Err::<i64, StoreError>(StoreError::Integrity)
            },
            None => r == Ok::<i64, StoreError>(1),
        },
{
    match latest {
        Some(n) => if n < i64::MAX {
            Ok(n + 1)
        } else {
            Err(StoreError::Integrity)
        },
        None => Ok(1),
    }
}

/// Who grants an approval.
#[derive(Clone, Copy, Debug, PartialEq, Eq, Structural)]
pub enum AuthorityKind {
    Operator,
    FrozenPolicy,
}

pub open spec fn authority_of(code: Seq<char>) -> Result<AuthorityKind, StoreError> {
    if code == "OPERATOR"@ {
        Ok(AuthorityKind::Operator)
    } else if code == "FROZEN_POLICY"@ {
        Ok(AuthorityKind::FrozenPolicy)
    } else {
        Err(StoreError::Integrity)
    }
}

pub fn authority_kind(code: &str) -> (r: Result<AuthorityKind, StoreError>)
    ensures
        r == authority_of(code@),
{
    if same_text(code, "OPERATOR") {
        Ok(AuthorityKind::Operator)
    } else if same_text(code, "FROZEN_POLICY") {
        Ok(AuthorityKind::FrozenPolicy)
    } else {
        Err(StoreError::Integrity)
    }
}

/// An operator offers only what an operator approved; policy approvals are
/// offered by their automation.
pub fn check_operator_offer(code: &str) -> (r: Result<(), StoreError>)
    ensures
        code@ == "OPERATOR"@ ==> r == Ok::<(), StoreError>(()),
        code@ != "OPERATOR"@ ==> r == Err::<(), StoreError>(StoreError::Invalid("offer_policy_authority")),
{
    if !same_text(code, "OPERATOR") {
        return Err(StoreError::Invalid("offer_policy_authority"));
    }
    Ok(())
}

/// What an approval recorded when it was admitted.
#[derive(Clone, Copy, Debug)]
pub struct ApprovalAdmission {
    pub downstream_revision: Option<i64>,
    pub decision_ordinal: Option<i32>,
    pub readiness_observation: Option<Id>,
}

/// The approval's recorded admission is complete, and the human decisions have
/// not moved since: the latest is still the one it was granted on, a reopen.
pub open spec fn admission_current(a: ApprovalAdmission, latest: Option<LatestDecision>) -> Result<
    (),
    StoreError,
> {
    if a.downstream_revision is None || a.decision_ordinal is None || a.readiness_observation is None {
        Err(StoreError::Invalid("approval_admission_missing"))
    } else if (match latest {
        Some(d) => d.ordinal,
        None => 0,
    }) != a.decision_ordinal->0 || (latest matches Some(d) && d.decision != ReleaseDecision::Reopen) {
        Err(StoreError::Invalid("approval_decision_changed"))
    } else {
        Ok(())
    }
}

pub fn check_approval_admission(a: &ApprovalAdmission, latest: Option<LatestDecision>) -> (r: Result<
    (),
    StoreError,
>)
    ensures
        r == admission_current(*a, latest),
{
    let ordinal = match (a.downstream_revision, a.decision_ordinal, a.readiness_observation) {
        (Some(_), Some(o), Some(_)) => o,
        _ => {
            return Err(StoreError::Invalid("approval_admission_missing"));
        },
    };
    let (current, reopened) = match latest {
        Some(d) => (d.ordinal, d.decision == ReleaseDecision::Reopen),
        None => (0, true),
    };
    if current != ordinal || !reopened {
        return Err(StoreError::Invalid("approval_decision_changed"));
    }
    Ok(())
}

pub open spec fn earlier(a: UtcTime, b: UtcTime) -> UtcTime {
    if b.nanos < a.nanos {
        b
    } else {
        a
    }
}

/// The end of a handoff's authority: the earliest of its sources' end, the
/// policy authority's end, the approval's expiry, and any revocation.
pub fn authority_until(
    sources_until: UtcTime,
    policy_until: UtcTime,
    approval_until: UtcTime,
    revoked: Option<UtcTime>,
) -> (r: UtcTime)
    ensures
        r == (match revoked {
            Some(t) => earlier(earlier(earlier(sources_until, policy_until), approval_until), t),
            None => earlier(earlier(sources_until, policy_until), approval_until),
        }),
{
    let mut until = if policy_until.is_before(&sources_until) {
        policy_until
    } else {
        sources_until
    };
    if approval_until.is_before(&until) {
        until = approval_until;
    }
    if let Some(t) = revoked {
        if t.is_before(&until) {
            until = t;
        }
    }
    until
}

/// A machine reading handoffs: a CLI with research read sees them all; a
/// downstream with a claim or acknowledgement scope sees only its own.
pub open spec fn reader_spec(
    kind: PrincipalKind,
    scopes: Seq<MachineScope>,
    downstream: Option<Id>,
) -> Result<Option<Id>, StoreError> {
    match kind {
        PrincipalKind::Cli => if scopes.contains(MachineScope::ResearchRead) {
            Ok(None)
        } else {
            Err(StoreError::Forbidden)
        },
        PrincipalKind::Downstream => if scopes.contains(MachineScope::DownstreamClaim)
            || scopes.contains(MachineScope::DownstreamAck) {
            match downstream {
                Some(d) => Ok(Some(d)),
                None => Err(StoreError::Forbidden),
            }
        } else {
            Err(StoreError::Forbidden)
        },
        PrincipalKind::Automation => Err(StoreError::Forbidden),
    }
}

fn has_scope(scopes: &Vec<MachineScope>, scope: MachineScope) -> (r: bool)
    ensures
        r == scopes@.contains(scope),
{
    let mut i: usize = 0;
    while i < scopes.len()
        invariant
            i <= scopes@.len(),
            forall|k: int| 0 <= k < i ==> scopes@[k] != scope,
        decreases scopes@.len() - i,
    {
        if scopes[i] == scope {
            proof {
                assert(scopes@[i as int] == scope);
            }
            return true;
        }
        i = i + 1;
    }
    false
}

pub fn handoff_reader(kind: PrincipalKind, scopes: &Vec<MachineScope>, downstream: Option<Id>) -> (r:
    Result<Option<Id>, StoreError>)
    ensures
        r == reader_spec(kind, scopes@, downstream),
{
    match kind {
        PrincipalKind::Cli => if has_scope(scopes, MachineScope::ResearchRead) {
            Ok(None)
        } else {
            Err(StoreError::Forbidden)
        },
        PrincipalKind::Downstream => if has_scope(scopes, MachineScope::DownstreamClaim) || has_scope(
            scopes,
            MachineScope::DownstreamAck,
        ) {
            match downstream {
                Some(d) => Ok(Some(d)),
                None => Err(StoreError::Forbidden),
            }
        } else {
            Err(StoreError::Forbidden)
        },
        PrincipalKind::Automation => Err(StoreError::Forbidden),
    }
}

/// A downstream claims or acknowledges only its own handoffs, with the scope for it.
pub fn check_downstream_actor(
    kind: PrincipalKind,
    scopes: &Vec<MachineScope>,
    scope: MachineScope,
    actor_downstream: Option<Id>,
    handoff_downstream: Id,
) -> (r: Result<(), StoreError>)
    ensures
        (kind == PrincipalKind::Downstream && scopes@.contains(scope) && actor_downstream == Some(
            handoff_downstream,
        )) ==> r == Ok::<(), StoreError>(()),
        !(kind == PrincipalKind::Downstream && scopes@.contains(scope) && actor_downstream == Some(
            handoff_downstream,
        )) ==> r == Err::<(), StoreError>(StoreError::Forbidden),
{
    if !has_scope(scopes, scope) || kind != PrincipalKind::Downstream || actor_downstream != Some(
        handoff_downstream,
    ) {
        return Err(StoreError::Forbidden);
    }
    Ok(())
}

} // verus!
