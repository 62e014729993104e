use store::review::check_review_metrics;
use store::error::{DomainError, StoreError};
use store::ids::{DbCounter, Id, Revision, UtcTime};
use store::review::{
    admit_summary, assessment, check_summary, check_summary_document, Decision,
    NativePublicSummary, ReviewAnswer,
};
use store::turns::{Reservation, TurnKind, TurnOutcome, TurnTerminal, UsageReceipt};

fn answer(target: u128, reasons: Vec<String>) -> Option<ReviewAnswer> {
    Some(ReviewAnswer { alpha_version_id: Id(target), decision: Decision::Pass, reasons })
}

#[test]
fn only_bounded_exact_target_answers_supply_a_decision() {
    let target = Id(42);
    let valid = answer(42, vec!["Original code and evidence agree, subject to Sealed evaluation.".to_string()]);
    let (decision, reasons) = assessment(valid, target);
    assert_eq!(decision, Decision::Pass);
    assert_eq!(reasons.len(), 1);
    for bad in [
        None,
        answer(43, vec!["wrong target".to_string()]),
        answer(42, vec![]),
        answer(42, vec!["x".repeat(1025)]),
        answer(42, vec!["ok".to_string(); 33]),
        answer(42, vec!["  ".to_string()]),
        answer(42, vec!["a\0b".to_string()]),
    ] {
        let (decision, reasons) = assessment(bad, target);
        assert_eq!(decision, Decision::Inconclusive);
        assert_eq!(reasons, vec!["INVALID_NATIVE_REVIEW_RESPONSE".to_string()]);
    }
    let (decision, _) = assessment(answer(42, vec!["x".repeat(1024); 32]), target);
    assert_eq!(decision, Decision::Pass);
    assert_eq!(Decision::Reject.code(), "REJECT");
}

fn summary(turn: &str, phase: Option<&str>, text: &str) -> NativePublicSummary {
    NativePublicSummary {
        native_turn_id: turn.to_string(),
        native_item_id: "item-1".to_string(),
        phase: phase.map(|p| p.to_string()),
        text: text.to_string(),
    }
}

#[test]
fn public_summaries_are_bounded() {
    assert_eq!(check_summary(&summary("t-1", Some("final_answer"), "Done.")), Ok(()));
    assert_eq!(check_summary(&summary("t-1", None, "Done.")), Ok(()));
    let bad = Err(StoreError::Invalid("native_public_summary"));
    assert_eq!(check_summary(&summary("t-1", Some("analysis"), "Done.")), bad);
    assert_eq!(check_summary(&summary("t\u{7}1", None, "Done.")), bad);
    assert_eq!(check_summary(&summary("t-1", None, "")), bad);
    assert_eq!(check_summary(&summary("t-1", None, "a\0")), bad);
    assert_eq!(check_summary(&summary("t-1", None, &"x".repeat(64 * 1024 + 1))), bad);
    assert_eq!(check_summary_document(1024 * 1024), Ok(()));
    assert_eq!(
        check_summary_document(1024 * 1024 + 1),
        Err(StoreError::Invalid("native_summary_document"))
    );
}

fn reservation() -> Reservation {
    Reservation {
        id: Id(1),
        run_id: Id(2),
        session_id: Id(3),
        attempt_id: Id(4),
        request_artifact_id: Id(5),
        owner_epoch: Revision(1),
        profile_revision: Revision(1),
        ordinal: 1,
        turn_kind: TurnKind::Research,
        tokens: DbCounter::new(10).unwrap(),
        reserved_cost: None,
        cost_currency: None,
        deadline_at: UtcTime { nanos: 1_000 },
    }
}

#[test]
fn summaries_follow_a_succeeded_settled_turn() {
    let item = reservation();
    let t = Some(TurnTerminal {
        outcome: TurnOutcome::Succeeded,
        native_turn_id: Some("t-1".to_string()),
        reason_code: "DONE".to_string(),
        observed_at: UtcTime { nanos: 0 },
    });
    let u = Some(UsageReceipt {
        outcome: TurnOutcome::Succeeded,
        actual_tokens: DbCounter::new(3).unwrap(),
        actual_cost: None,
        currency: None,
        reason_code: "DONE".to_string(),
    });
    let s = summary("t-1", None, "Done.");
    assert_eq!(admit_summary(&item, Id(4), &t, &u, &s), Ok(()));
    assert_eq!(
        admit_summary(&item, Id(9), &t, &u, &s),
        Err(StoreError::Domain(DomainError::StaleAttempt))
    );
    assert_eq!(admit_summary(&item, Id(4), &None, &u, &s), Err(StoreError::Integrity));
    assert_eq!(admit_summary(&item, Id(4), &t, &None, &s), Err(StoreError::TurnPending));
    assert_eq!(
        admit_summary(&item, Id(4), &t, &u, &summary("t-2", None, "Done.")),
        Err(StoreError::Conflict)
    );
}

#[test]
fn assessments_carry_bounded_metrics() {
    assert_eq!(check_review_metrics(1024), Ok(()));
    assert_eq!(check_review_metrics(1025), Err(StoreError::Invalid("review_metrics_limit")));
}
