use store::approval::{
    check_approval_recorded, check_approval_window, check_downstream_delivery,
    check_evidence_reports, grants_until, revocation_effective, DownstreamReadiness, GrantUse,
};
use store::error::{DomainError, StoreError};
use store::handoff::{
    acknowledge_handoff, authority_kind, authority_until, check_ack_recorded, check_approval_admission,
    check_claim_recorded, check_downstream_actor, check_offer_window, check_operator_offer,
    check_supersession, claim_handoff, handoff_reader, next_sequence, reconcile, superseded, AckOutcome,
    AckStep, ApprovalAdmission, AuthorityKind, ClaimWindow, Handoff, HandoffState,
};
use store::ids::{DbCounter, Id, Revision, UtcTime};
use store::portfolio::{ForwardEnvironment, LatestDecision, ReleaseDecision};
use store::rebalance::{
    check_rebalance_quota, rebalance_due, RebalanceKind, RebalanceSchedule, SessionCalendar,
};
use store::settings::{MachineScope, PrincipalKind};

fn at(n: i128) -> UtcTime {
    UtcTime { nanos: n }
}

fn offered() -> Handoff {
    Handoff {
        state: HandoffState::Offered,
        offered_at: at(10),
        expires_at: at(100),
        claimed: false,
        external_claim_id: None,
    }
}

fn window() -> ClaimWindow {
    ClaimWindow { valid_from: at(5), granted_at: at(8), until: at(90) }
}

#[test]
fn an_offer_is_claimed_once_within_its_window() {
    assert_eq!(claim_handoff(&offered(), "k", "k", &window(), at(50)), Ok(HandoffState::Claimed));
    assert_eq!(
        claim_handoff(&offered(), "k", "other", &window(), at(50)),
        Err(StoreError::Invalid("claim_idempotency_key"))
    );
    assert_eq!(
        claim_handoff(&offered(), "k", "k", &window(), at(90)),
        Err(StoreError::Invalid("claim_expiry"))
    );
    assert_eq!(
        claim_handoff(&offered(), "k", "k", &window(), at(9)),
        Err(StoreError::Invalid("claim_expiry"))
    );
    let claimed = Handoff { state: HandoffState::Claimed, ..offered() };
    assert_eq!(claim_handoff(&claimed, "k", "k", &window(), at(50)), Err(StoreError::Conflict));
    assert_eq!(check_claim_recorded(at(100), at(90), at(89)), Ok(()));
    assert_eq!(
        check_claim_recorded(at(100), at(90), at(90)),
        Err(StoreError::Invalid("claim_expiry"))
    );
}

#[test]
fn acknowledgements_answer_claims_or_reject_open_offers() {
    let claimed = Handoff {
        state: HandoffState::Claimed,
        claimed: true,
        external_claim_id: Some("c1".to_string()),
        ..offered()
    };
    assert_eq!(
        acknowledge_handoff(&claimed, "a", "a", &Some("c1".to_string()), AckOutcome::Acknowledged, at(500)),
        Ok(AckStep { state: HandoffState::Acknowledged, stamp_acknowledged: true })
    );
    assert_eq!(
        acknowledge_handoff(&claimed, "a", "a", &Some("c2".to_string()), AckOutcome::Acknowledged, at(50)),
        Err(StoreError::Conflict)
    );
    assert_eq!(
        acknowledge_handoff(&offered(), "a", "a", &None, AckOutcome::Rejected, at(50)),
        Ok(AckStep { state: HandoffState::Rejected, stamp_acknowledged: false })
    );
    assert_eq!(
        acknowledge_handoff(&offered(), "a", "a", &None, AckOutcome::Acknowledged, at(50)),
        Err(StoreError::Conflict)
    );
    assert_eq!(
        acknowledge_handoff(&offered(), "a", "a", &None, AckOutcome::Rejected, at(100)),
        Err(StoreError::Conflict)
    );
    assert_eq!(
        acknowledge_handoff(&offered(), "a", "b", &None, AckOutcome::Rejected, at(50)),
        Err(StoreError::Invalid("ack_idempotency_key"))
    );
    let done = Handoff { state: HandoffState::Rejected, ..offered() };
    assert_eq!(
        acknowledge_handoff(&done, "a", "a", &None, AckOutcome::Rejected, at(50)),
        Err(StoreError::Conflict)
    );
    assert_eq!(check_ack_recorded(false, at(100), at(100)), Err(StoreError::Invalid("ack_expiry")));
    assert_eq!(check_ack_recorded(true, at(100), at(100)), Ok(()));
}

#[test]
fn maintenance_settles_only_open_offers() {
    assert_eq!(reconcile(HandoffState::Offered, at(10), at(10), false), HandoffState::Expired);
    assert_eq!(reconcile(HandoffState::Offered, at(10), at(5), true), HandoffState::Revoked);
    assert_eq!(reconcile(HandoffState::Offered, at(10), at(5), false), HandoffState::Offered);
    assert_eq!(reconcile(HandoffState::Claimed, at(10), at(50), true), HandoffState::Claimed);
    assert_eq!(reconcile(HandoffState::Acknowledged, at(10), at(50), true), HandoffState::Acknowledged);
    assert_eq!(superseded(HandoffState::Offered), HandoffState::Revoked);
    assert_eq!(superseded(HandoffState::Claimed), HandoffState::Claimed);
}

#[test]
fn offers_follow_the_latest_and_stay_within_authority() {
    assert_eq!(check_offer_window(at(10), at(50), at(5), at(8), at(50)), Ok(()));
    assert_eq!(
        check_offer_window(at(10), at(51), at(5), at(8), at(50)),
        Err(StoreError::Invalid("offer_expiry"))
    );
    assert_eq!(
        check_offer_window(at(10), at(10), at(5), at(8), at(50)),
        Err(StoreError::Invalid("offer_expiry"))
    );
    assert_eq!(check_supersession(false, Some(Id(1)), Some(Id(1))), Ok(()));
    assert_eq!(check_supersession(false, Some(Id(1)), None), Err(StoreError::Conflict));
    assert_eq!(check_supersession(true, None, None), Err(StoreError::Conflict));
    assert_eq!(next_sequence(None), Ok(1));
    assert_eq!(next_sequence(Some(41)), Ok(42));
    assert_eq!(next_sequence(Some(i64::MAX)), Err(StoreError::Integrity));
    assert_eq!(authority_kind("OPERATOR"), Ok(AuthorityKind::Operator));
    assert_eq!(authority_kind("FROZEN_POLICY"), Ok(AuthorityKind::FrozenPolicy));
    assert_eq!(authority_kind("OTHER"), Err(StoreError::Integrity));
    assert_eq!(check_operator_offer("OPERATOR"), Ok(()));
    assert_eq!(
        check_operator_offer("FROZEN_POLICY"),
        Err(StoreError::Invalid("offer_policy_authority"))
    );
    assert_eq!(authority_until(at(50), at(40), at(60), None), at(40));
    assert_eq!(authority_until(at(50), at(40), at(60), Some(at(30))), at(30));
}

#[test]
fn approvals_stay_bound_to_the_decisions_they_saw() {
    let complete = ApprovalAdmission {
        downstream_revision: Some(1),
        decision_ordinal: Some(2),
        readiness_observation: Some(Id(3)),
    };
    let reopen = LatestDecision { id: Id(4), decision: ReleaseDecision::Reopen, ordinal: 2 };
    assert_eq!(check_approval_admission(&complete, Some(reopen)), Ok(()));
    let newer = LatestDecision { ordinal: 3, ..reopen };
    assert_eq!(
        check_approval_admission(&complete, Some(newer)),
        Err(StoreError::Invalid("approval_decision_changed"))
    );
    let reject = LatestDecision { decision: ReleaseDecision::Reject, ..reopen };
    assert_eq!(
        check_approval_admission(&complete, Some(reject)),
        Err(StoreError::Invalid("approval_decision_changed"))
    );
    let first = ApprovalAdmission { decision_ordinal: Some(0), ..complete };
    assert_eq!(check_approval_admission(&first, None), Ok(()));
    let missing = ApprovalAdmission { readiness_observation: None, ..complete };
    assert_eq!(
        check_approval_admission(&missing, Some(reopen)),
        Err(StoreError::Invalid("approval_admission_missing"))
    );
}

#[test]
fn handoff_readers_and_downstream_actors() {
    assert_eq!(handoff_reader(PrincipalKind::Cli, &vec![MachineScope::ResearchRead], None), Ok(None));
    assert_eq!(
        handoff_reader(PrincipalKind::Cli, &vec![MachineScope::RunRead], None),
        Err(StoreError::Forbidden)
    );
    assert_eq!(
        handoff_reader(PrincipalKind::Downstream, &vec![MachineScope::DownstreamAck], Some(Id(5))),
        Ok(Some(Id(5)))
    );
    assert_eq!(
        handoff_reader(PrincipalKind::Downstream, &vec![MachineScope::DownstreamClaim], None),
        Err(StoreError::Forbidden)
    );
    assert_eq!(
        handoff_reader(PrincipalKind::Automation, &vec![MachineScope::ResearchRead], None),
        Err(StoreError::Forbidden)
    );
    let scopes = vec![MachineScope::DownstreamClaim];
    assert_eq!(
        check_downstream_actor(PrincipalKind::Downstream, &scopes, MachineScope::DownstreamClaim, Some(Id(1)), Id(1)),
        Ok(())
    );
    assert_eq!(
        check_downstream_actor(PrincipalKind::Downstream, &scopes, MachineScope::DownstreamAck, Some(Id(1)), Id(1)),
        Err(StoreError::Forbidden)
    );
    assert_eq!(
        check_downstream_actor(PrincipalKind::Downstream, &scopes, MachineScope::DownstreamClaim, Some(Id(2)), Id(1)),
        Err(StoreError::Forbidden)
    );
}

fn readiness() -> DownstreamReadiness {
    DownstreamReadiness {
        revision: Revision(4),
        available: true,
        environments: vec![ForwardEnvironment::Paper],
        package_versions: vec!["1".to_string()],
        market_versions: Some(vec!["m1".to_string(), "m2".to_string()]),
    }
}

#[test]
fn downstreams_must_support_the_package() {
    let market = vec!["m2".to_string()];
    assert_eq!(
        check_downstream_delivery(&readiness(), Revision(4), ForwardEnvironment::Paper, "1", &market),
        Ok(())
    );
    assert_eq!(
        check_downstream_delivery(&readiness(), Revision(3), ForwardEnvironment::Paper, "1", &market),
        Err(StoreError::RevisionConflict { current: Revision(4) })
    );
    let unavailable = StoreError::Domain(DomainError::CapabilityUnavailable("downstream_delivery_unavailable"));
    assert_eq!(
        check_downstream_delivery(&readiness(), Revision(4), ForwardEnvironment::Live, "1", &market),
        Err(unavailable)
    );
    assert_eq!(
        check_downstream_delivery(&readiness(), Revision(4), ForwardEnvironment::Paper, "2", &market),
        Err(unavailable)
    );
    assert_eq!(
        check_downstream_delivery(&readiness(), Revision(4), ForwardEnvironment::Paper, "1", &vec!["m3".to_string()]),
        Err(StoreError::Domain(DomainError::CapabilityUnavailable("downstream_market_contract")))
    );
    let unprobed = DownstreamReadiness { market_versions: None, ..readiness() };
    assert_eq!(
        check_downstream_delivery(&unprobed, Revision(4), ForwardEnvironment::Paper, "1", &market),
        Err(StoreError::Integrity)
    );
}

#[test]
fn approvals_end_with_their_grants() {
    let grants = vec![
        GrantUse { allowed_uses: "RESEARCH_PAPER_LIVE".to_string(), valid_until: at(70) },
        GrantUse { allowed_uses: "RESEARCH_AND_PAPER".to_string(), valid_until: at(40) },
    ];
    assert_eq!(grants_until(&grants, ForwardEnvironment::Paper, at(100)), Ok(at(40)));
    assert_eq!(
        grants_until(&grants, ForwardEnvironment::Live, at(100)),
        Err(StoreError::Invalid("approval_data_use"))
    );
    assert_eq!(grants_until(&vec![], ForwardEnvironment::Paper, at(100)), Err(StoreError::Integrity));
    assert_eq!(check_approval_window(at(10), at(5), at(20), at(20)), Ok(()));
    assert_eq!(
        check_approval_window(at(10), at(5), at(21), at(20)),
        Err(StoreError::Invalid("approval_expiry"))
    );
    assert_eq!(
        check_approval_window(at(4), at(5), at(20), at(20)),
        Err(StoreError::Invalid("approval_expiry"))
    );
    assert_eq!(check_approval_recorded(at(10), at(20), at(15)), Ok(()));
    assert_eq!(
        check_approval_recorded(at(15), at(20), at(15)),
        Err(StoreError::Invalid("approval_expiry"))
    );
    assert_eq!(check_evidence_reports(2), Ok(()));
    assert_eq!(check_evidence_reports(3), Err(StoreError::Integrity));
}

#[test]
fn revocations_never_take_effect_in_the_past() {
    assert_eq!(revocation_effective(None, None, None, at(10)), Ok(at(10)));
    assert_eq!(revocation_effective(None, None, Some(at(20)), at(10)), Ok(at(20)));
    assert_eq!(
        revocation_effective(None, None, Some(at(9)), at(10)),
        Err(StoreError::Invalid("revocation_time"))
    );
    assert_eq!(revocation_effective(Some(Id(1)), None, None, at(10)), Err(StoreError::Conflict));
}

fn schedule(kind: RebalanceKind) -> RebalanceSchedule {
    RebalanceSchedule {
        kind,
        interval_seconds: Some(60),
        session_offset_seconds: Some(10),
        calendar_ref: Some("XNYS".to_string()),
        timezone: "America/New_York".to_string(),
    }
}

fn calendar(closes: Vec<u64>) -> SessionCalendar {
    SessionCalendar {
        calendar_ref: "XNYS".to_string(),
        timezone: "America/New_York".to_string(),
        available_at_ns: DbCounter::new(0).unwrap(),
        coverage_start_ns: DbCounter::new(0).unwrap(),
        coverage_end_ns: DbCounter::new(1_000_000_000_000).unwrap(),
        session_closes: closes.into_iter().map(|c| DbCounter::new(c).unwrap()).collect(),
    }
}

#[test]
fn rebalances_fall_due_by_schedule() {
    let s = 1_000_000_000;
    assert_eq!(rebalance_due(&schedule(RebalanceKind::Manual), &None, at(0), at(1_000 * s)), Ok(false));
    let fixed = schedule(RebalanceKind::FixedInterval);
    assert_eq!(rebalance_due(&fixed, &None, at(0), at(60 * s)), Ok(true));
    assert_eq!(rebalance_due(&fixed, &None, at(0), at(60 * s - 1)), Ok(false));
    let unset = RebalanceSchedule { interval_seconds: None, ..fixed };
    assert_eq!(rebalance_due(&unset, &None, at(0), at(60 * s)), Err(StoreError::Integrity));
    let session = schedule(RebalanceKind::CalendarSession);
    // The window (previous - 10s, cutoff - 10s] = (90s, 190s].
    let cal = Some(calendar(vec![50 * s as u64, 150 * s as u64]));
    assert_eq!(rebalance_due(&session, &cal, at(100 * s), at(200 * s)), Ok(true));
    let none = Some(calendar(vec![50 * s as u64, 195 * s as u64]));
    assert_eq!(rebalance_due(&session, &none, at(100 * s), at(200 * s)), Ok(false));
    let other = RebalanceSchedule { timezone: "UTC".to_string(), ..schedule(RebalanceKind::CalendarSession) };
    assert_eq!(
        rebalance_due(&other, &cal, at(100 * s), at(200 * s)),
        Err(StoreError::Invalid("rebalance_calendar_binding"))
    );
    assert_eq!(rebalance_due(&session, &cal, at(5 * s), at(200 * s)), Err(StoreError::Integrity));
    assert_eq!(check_rebalance_quota(1, 1, 2), Ok(()));
    assert_eq!(check_rebalance_quota(2, 0, 2), Err(StoreError::Invalid("automation_daily_quota")));
    assert_eq!(check_rebalance_quota(0, 2, 2), Err(StoreError::Invalid("automation_daily_quota")));
}
