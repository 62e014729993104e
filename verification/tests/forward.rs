use store::forward::still_current;
use store::sealed::{qualification_until, sealed_admission_record, SealedCycleStep};
use store::sealed::{check_opportunity, opportunity_unavailable, reserve_opportunity, OpportunityFacts, OpportunityStep};
use store::forward::{promotion_until, sorted_observations};
use store::error::StoreError;
use store::forward::{
    check_daily_quota, check_grant_time, check_paper_stream, check_paper_stream_count,
    delivery_due, forward_measurement, observation_current, policy_authority, ForwardEvaluation,
    ForwardFacts, PaperRequirement, PaperStream,
};
use store::ids::{Id, UtcTime};
use store::portfolio::EvidenceStatus;
use store::runs::RunState;
use store::sealed::{
    check_alpha_image, check_frozen_context, check_model, check_source_validation,
    check_sealed_dataset, check_sealed_policy, sealed_available_through, SealedContext,
};
use store::error::DomainError;
use store::ids::{DbCounter, Revision};

const SECOND: i128 = 1_000_000_000;

fn at(n: i128) -> UtcTime {
    UtcTime { nanos: n }
}

fn facts() -> ForwardFacts {
    ForwardFacts {
        state: RunState::Succeeded,
        metrics_complete: true,
        source_current: true,
        deadline: at(100),
        concluded_at: at(50),
        revoked_at: None,
    }
}

#[test]
fn forward_measurements_are_valid_only_without_reasons() {
    let m = forward_measurement(&facts());
    assert_eq!(m.status, EvidenceStatus::Valid);
    assert!(m.reasons.is_empty());
    assert_eq!(m.valid_until, Some(at(100)));
    let revoked = ForwardFacts { revoked_at: Some(at(80)), ..facts() };
    assert_eq!(forward_measurement(&revoked).valid_until, Some(at(80)));
    let late_revocation = ForwardFacts { revoked_at: Some(at(120)), ..facts() };
    assert_eq!(forward_measurement(&late_revocation).valid_until, Some(at(100)));
    let partial = ForwardFacts { metrics_complete: false, source_current: false, concluded_at: at(100), ..facts() };
    let m = forward_measurement(&partial);
    assert_eq!(m.status, EvidenceStatus::Incomplete);
    assert_eq!(m.valid_until, None);
    assert_eq!(
        m.reasons,
        vec![
            "FORWARD_STATISTICS_INCOMPLETE".to_string(),
            "FORWARD_SOURCE_OR_POLICY_NO_LONGER_CURRENT".to_string(),
            "FORWARD_EVIDENCE_EXPIRED".to_string(),
        ]
    );
    let cancelled = ForwardFacts { state: RunState::Cancelled, ..facts() };
    assert_eq!(forward_measurement(&cancelled).reasons, vec!["FORWARD_CANCELLED".to_string()]);
    let failed = ForwardFacts { state: RunState::Failed, ..facts() };
    assert_eq!(forward_measurement(&failed).reasons, vec!["FORWARD_EXECUTION_FAILED".to_string()]);
}

fn evaluation() -> ForwardEvaluation {
    ForwardEvaluation {
        execution_status: "SUCCEEDED".to_string(),
        evidence_status: "VALID".to_string(),
        is_contiguous: true,
        complete_observations: 3,
        valid_until: Some(at(100)),
        freshness_deadline: at(90),
    }
}

#[test]
fn observations_need_current_evaluations() {
    assert!(observation_current(&evaluation(), at(50)));
    assert!(!observation_current(&evaluation(), at(90)));
    assert!(!observation_current(&ForwardEvaluation { valid_until: None, ..evaluation() }, at(50)));
    assert!(!observation_current(&ForwardEvaluation { complete_observations: 0, ..evaluation() }, at(50)));
    assert!(!observation_current(&ForwardEvaluation { evidence_status: "INCOMPLETE".to_string(), ..evaluation() }, at(50)));
}

fn stream() -> PaperStream {
    PaperStream {
        classification: "HEALTHY".to_string(),
        execution_status: "SUCCEEDED".to_string(),
        evidence_status: "VALID".to_string(),
        valid_until: Some(at(1_000 * SECOND)),
        freshness_deadline: at(1_000 * SECOND),
        is_contiguous: true,
        complete_observations: 20,
        window_start: at(0),
        window_end: at(100 * SECOND),
    }
}

#[test]
fn live_promotion_needs_qualified_paper_streams() {
    let req = PaperRequirement { required_observations: 20, minimum_elapsed_seconds: 100 };
    let now = at(500 * SECOND);
    assert_eq!(check_paper_stream(&stream(), req, now), Ok(()));
    let refused = Err(StoreError::Invalid("automation_live_paper_not_qualified"));
    let short = PaperStream { window_end: at(100 * SECOND - 1), ..stream() };
    assert_eq!(check_paper_stream(&short, req, now), refused);
    let thin = PaperStream { complete_observations: 19, ..stream() };
    assert_eq!(check_paper_stream(&thin, req, now), refused);
    let degraded = PaperStream { classification: "DEGRADED".to_string(), ..stream() };
    assert_eq!(check_paper_stream(&degraded, req, now), refused);
    assert_eq!(check_paper_stream(&stream(), req, at(1_000 * SECOND)), refused);
    let backwards = PaperStream { window_end: at(-1), ..stream() };
    let none = PaperRequirement { required_observations: 0, minimum_elapsed_seconds: 0 };
    assert_eq!(check_paper_stream(&backwards, none, now), Ok(()));
    let far_back = PaperStream { window_end: at(-SECOND), ..stream() };
    assert_eq!(check_paper_stream(&far_back, none, now), refused);
    assert_eq!(check_paper_stream_count(1), Ok(()));
    assert_eq!(check_paper_stream_count(0), Err(StoreError::Invalid("automation_live_complete_paper_required")));
    assert_eq!(check_paper_stream_count(256), Err(StoreError::Invalid("automation_live_complete_paper_required")));
}

#[test]
fn automation_quota_grant_and_authority() {
    assert_eq!(check_daily_quota(2, false, 3), Ok(()));
    assert_eq!(check_daily_quota(3, false, 3), Err(StoreError::Invalid("automation_daily_quota")));
    assert_eq!(check_daily_quota(3, true, 3), Ok(()));
    assert_eq!(check_grant_time(at(5), at(5), at(10)), Ok(()));
    assert_eq!(check_grant_time(at(10), at(5), at(10)), Err(StoreError::Invalid("automation_expiry")));
    assert_eq!(check_grant_time(at(4), at(5), at(10)), Err(StoreError::Invalid("automation_expiry")));
    let seen = vec![Id(1), Id(2)];
    assert_eq!(policy_authority(false, false, &None, &vec![], at(50), at(10)), Ok(at(50)));
    assert_eq!(policy_authority(true, true, &Some(seen.clone()), &seen, at(50), at(10)), Ok(at(10)));
    assert_eq!(
        policy_authority(true, true, &None, &seen, at(50), at(10)),
        Err(StoreError::Invalid("automation_live_evidence_required"))
    );
    assert_eq!(
        policy_authority(true, false, &Some(seen.clone()), &seen, at(50), at(10)),
        Err(StoreError::Invalid("automation_live_mode"))
    );
    assert_eq!(
        policy_authority(true, true, &Some(seen), &vec![Id(1)], at(50), at(10)),
        Err(StoreError::Invalid("automation_live_evidence_changed"))
    );
    assert!(delivery_due(false, false, false));
    assert!(!delivery_due(true, false, false));
    assert!(!delivery_due(false, true, true));
}

#[test]
fn sealed_admission_checks() {
    let c = SealedContext { sealed_input_set: Id(1), runtime: Id(2), runtime_revision: Revision(3), policy: Id(4) };
    assert_eq!(check_frozen_context(&c, &c), Ok(()));
    let other = SealedContext { policy: Id(5), ..c };
    assert_eq!(check_frozen_context(&c, &other), Err(StoreError::Invalid("alpha_evaluation_frozen_context")));
    assert_eq!(check_sealed_policy(true), Ok(()));
    assert_eq!(check_sealed_policy(false), Err(StoreError::Invalid("sealed_policy_not_defined")));
    assert_eq!(check_source_validation(1), Ok(()));
    assert_eq!(check_source_validation(0), Err(StoreError::Invalid("original_validation_required")));
    let size = |n: u64| DbCounter::new(n).unwrap();
    assert_eq!(check_model(size(2 * 1024 * 1024), Id(1), Id(1)), Ok(()));
    assert_eq!(check_model(size(2 * 1024 * 1024 + 1), Id(1), Id(1)), Err(StoreError::Integrity));
    assert_eq!(check_model(size(1), Id(1), Id(2)), Err(StoreError::Integrity));
    assert_eq!(check_sealed_dataset(&vec![Id(7)], Id(7)), Ok(()));
    assert_eq!(check_sealed_dataset(&vec![Id(7)], Id(8)), Err(StoreError::Invalid("sealed_policy_dataset")));
    assert_eq!(
        check_sealed_dataset(&vec![], Id(8)),
        Err(StoreError::Invalid("native_alpha_single_sealed_revision"))
    );
    assert_eq!(check_alpha_image("a", "a"), Ok(()));
    assert_eq!(
        check_alpha_image("a", "b"),
        Err(StoreError::Domain(DomainError::CapabilityUnavailable("frozen_alpha_image_changed")))
    );
    assert_eq!(sealed_available_through(size(5), &vec![size(3), size(9)]).get(), 9);
    assert_eq!(sealed_available_through(size(5), &vec![size(3)]).get(), 5);
}

#[test]
fn promotion_evidence_is_sorted_and_bounded() {
    assert_eq!(
        sorted_observations(&vec![Id(5), Id(1), Id(3), Id(1)]),
        vec![Id(1), Id(1), Id(3), Id(5)]
    );
    assert!(sorted_observations(&vec![]).is_empty());
    let a = PaperStream { freshness_deadline: at(700), valid_until: Some(at(900)), ..stream() };
    let b = PaperStream { freshness_deadline: at(950), valid_until: Some(at(600)), ..stream() };
    assert_eq!(promotion_until(at(800), &vec![a.clone(), b.clone()], at(100)), Ok(at(600)));
    assert_eq!(promotion_until(at(500), &vec![a.clone()], at(100)), Ok(at(500)));
    assert_eq!(
        promotion_until(at(800), &vec![a.clone(), b], at(600)),
        Err(StoreError::Invalid("automation_live_expiry"))
    );
    let unbounded = PaperStream { valid_until: None, ..stream() };
    assert_eq!(promotion_until(at(800), &vec![a, unbounded], at(100)), Err(StoreError::Integrity));
}

fn opportunity() -> OpportunityFacts {
    OpportunityFacts {
        held_out: true,
        new_spec: true,
        opportunity_exists: false,
        binding_root: Id(1),
        lineage_root: Id(1),
        exposed: false,
        used: 0,
        maximum: 2,
    }
}

#[test]
fn held_out_access_is_reserved_once_and_independently() {
    assert_eq!(reserve_opportunity(&opportunity()), Ok(OpportunityStep::Reserve));
    assert_eq!(
        reserve_opportunity(&OpportunityFacts { held_out: false, ..opportunity() }),
        Ok(OpportunityStep::NotHeldOut)
    );
    assert_eq!(
        reserve_opportunity(&OpportunityFacts { new_spec: false, opportunity_exists: true, ..opportunity() }),
        Ok(OpportunityStep::Reserved)
    );
    assert_eq!(
        reserve_opportunity(&OpportunityFacts { new_spec: false, ..opportunity() }),
        Err(StoreError::Invalid("sealed_opportunity_missing"))
    );
    assert_eq!(
        reserve_opportunity(&OpportunityFacts { lineage_root: Id(2), ..opportunity() }),
        Err(StoreError::Integrity)
    );
    assert_eq!(
        reserve_opportunity(&OpportunityFacts { exposed: true, ..opportunity() }),
        Err(StoreError::Invalid("sealed_independence_unavailable"))
    );
    assert_eq!(
        reserve_opportunity(&OpportunityFacts { used: 2, ..opportunity() }),
        Err(StoreError::Domain(DomainError::BudgetExhausted("sealed_uses")))
    );
    assert_eq!(opportunity_unavailable(check_opportunity(false, 0, 1)), Ok(false));
    assert_eq!(opportunity_unavailable(check_opportunity(true, 0, 1)), Ok(true));
    assert_eq!(opportunity_unavailable(check_opportunity(false, 1, 1)), Ok(true));
    assert_eq!(opportunity_unavailable(Err(StoreError::Conflict)), Err(StoreError::Conflict));
    assert_eq!(
        opportunity_unavailable(Err(StoreError::Invalid("other"))),
        Err(StoreError::Invalid("other"))
    );
}

#[test]
fn sealed_cycles_and_qualifications() {
    assert_eq!(sealed_admission_record(Ok(())), Ok(SealedCycleStep::SealedEvaluation));
    assert_eq!(
        sealed_admission_record(Err(StoreError::Domain(DomainError::BudgetExhausted("cpu_seconds")))),
        Ok(SealedCycleStep::BudgetExhausted)
    );
    assert_eq!(
        sealed_admission_record(Err(StoreError::Invalid("sealed_policy_not_defined"))),
        Ok(SealedCycleStep::InputsRequireAttention)
    );
    assert_eq!(
        sealed_admission_record(Err(StoreError::Invalid("other"))),
        Err(StoreError::Invalid("other"))
    );
    assert_eq!(sealed_admission_record(Err(StoreError::Integrity)), Err(StoreError::Integrity));
    assert_eq!(qualification_until(at(90), at(80), &vec![at(85), at(70)], at(10)), Some(at(70)));
    assert_eq!(qualification_until(at(90), at(80), &vec![], at(10)), Some(at(80)));
    assert_eq!(qualification_until(at(90), at(80), &vec![at(10)], at(10)), None);
}

#[test]
fn revalidation_refusals_end_currency() {
    assert_eq!(still_current(true, Ok(())), Ok(true));
    assert_eq!(still_current(true, Err(StoreError::NotFound)), Ok(false));
    assert_eq!(still_current(true, Err(StoreError::Invalid("x"))), Ok(false));
    assert_eq!(still_current(true, Err(StoreError::Integrity)), Err(StoreError::Integrity));
    assert_eq!(still_current(false, Err(StoreError::Integrity)), Ok(false));
}
