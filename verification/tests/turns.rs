use store::turns::{observe_turn_terminal, settle_turn, ObserveOutcome, SettleOutcome};
use store::turns::{check_prompt_reader, request_document, request_prompt, RequestDocument};
use store::turns::{check_initial_turn, check_request_document, check_request_replay, feedback_turn, FeedbackStage};
use store::turns::{
    check_queue_message, check_worker_fence, project_state, receipt_outcome,
    AttemptLease, WorkerFence,
};
use store::error::{DomainError, StoreError};
use store::ids::{DbCounter, DecimalValue, Id, Revision, UtcTime};
use store::turns::{
    admit_reservation, bind_native_turn, check_turn_request, check_usage_receipt, claim_dispatch,
    exact_receipt, exact_terminal, kind, kind_name, next_ordinal, observed_terminal, outcome,
    output_budget, prompt, receipt_eq, record_terminal, remaining_tokens, replay_reservation,
    same_opt_text, settle_usage, terminal_eq, usage_source, BindStep, CostEstimate,
    DispatchDecision, MissionGate, ProjectState, RecordStep, Reservation, SettleStep, TurnKind,
    TurnOutcome, TurnRequest, TurnTerminal, UsageReceipt,
};

fn count(n: u64) -> DbCounter {
    DbCounter::new(n).unwrap()
}

fn at(n: i128) -> UtcTime {
    UtcTime { nanos: n }
}

fn gate() -> MissionGate {
    MissionGate {
        project_state: ProjectState::Active,
        cycle_state: "RUNNING".to_string(),
        brief_state: "FROZEN".to_string(),
        run_state: "RUNNING".to_string(),
        budget_matches_brief: true,
        run_deadline: at(10_000),
        now: at(1_000),
    }
}

fn reservation() -> Reservation {
    Reservation {
        id: Id(1),
        run_id: Id(2),
        session_id: Id(3),
        attempt_id: Id(4),
        request_artifact_id: Id(5),
        owner_epoch: Revision(1),
        profile_revision: Revision(1),
        ordinal: 1,
        turn_kind: TurnKind::Research,
        tokens: count(100),
        reserved_cost: Some(DecimalValue::new(25, 2)),
        cost_currency: Some("USD".to_string()),
        deadline_at: at(5_000),
    }
}

fn request() -> TurnRequest {
    TurnRequest {
        command_key: "mission/turn/1".to_string(),
        turn_kind: TurnKind::Research,
        tokens: count(100),
        estimated_cost: Some(CostEstimate { amount: DecimalValue::new(25, 2), currency: "USD".to_string() }),
        request_artifact_id: Id(5),
        deadline_at: at(5_000),
    }
}

#[test]
fn codes_read_back_what_wrote_them() {
    for k in [TurnKind::Research, TurnKind::Repair] {
        assert_eq!(kind(kind_name(k)), Ok(k));
    }
    assert_eq!(kind("OTHER"), Err(StoreError::Invalid("turn_kind")));
    for o in [TurnOutcome::Succeeded, TurnOutcome::Failed, TurnOutcome::Cancelled, TurnOutcome::NotSent] {
        assert_eq!(outcome(o.name()), Ok(o));
    }
    assert_eq!(TurnOutcome::NotSent.name(), "NOT_SENT");
    assert_eq!(outcome("succeeded"), Err(StoreError::Invalid("terminal_outcome")));
}

#[test]
fn prompts_are_bounded() {
    assert_eq!(prompt("Read the inputs."), Ok(()));
    assert_eq!(prompt(" \n\t"), Err(StoreError::Invalid("native_turn_prompt")));
    assert_eq!(prompt("a\0b"), Err(StoreError::Invalid("native_turn_prompt")));
    assert_eq!(prompt(&"x".repeat(256 * 1024)), Ok(()));
    assert_eq!(prompt(&"x".repeat(256 * 1024 + 1)), Err(StoreError::Invalid("native_turn_prompt")));
    assert_eq!(prompt(&"é".repeat(128 * 1024 + 1)), Err(StoreError::Invalid("native_turn_prompt")));
}

#[test]
fn spending_needs_an_open_frozen_mission() {
    let g = gate();
    assert_eq!(g.allow_spending(at(5_000)), Ok(()));
    assert_eq!(g.allow_spending(at(1_000)), Err(StoreError::Invalid("turn_deadline")));
    assert_eq!(g.allow_spending(at(10_001)), Err(StoreError::Invalid("turn_deadline")));
    let paused = MissionGate { project_state: ProjectState::Paused, ..gate() };
    assert_eq!(paused.allow_spending(at(5_000)), Err(StoreError::Domain(DomainError::AdmissionClosed)));
    let draft = MissionGate { brief_state: "DRAFT".to_string(), ..gate() };
    assert_eq!(draft.allow_spending(at(5_000)), Err(StoreError::Domain(DomainError::AdmissionClosed)));
    let changed = MissionGate { budget_matches_brief: false, ..gate() };
    assert_eq!(
        changed.allow_spending(at(5_000)),
        Err(StoreError::Invalid("frozen_budget_snapshot_mismatch"))
    );
    assert_eq!(admit_reservation(&gate(), at(5_000), true, true), Err(StoreError::TurnPending));
    assert_eq!(
        admit_reservation(&gate(), at(5_000), false, false),
        Err(StoreError::Invalid("request_artifact"))
    );
    assert_eq!(admit_reservation(&gate(), at(5_000), false, true), Ok(()));
}

#[test]
fn requests_and_replays() {
    assert_eq!(check_turn_request(&request()), Ok(()));
    let blank = TurnRequest { command_key: " ".to_string(), ..request() };
    assert_eq!(check_turn_request(&blank), Err(StoreError::Invalid("command_key")));
    let imprecise = TurnRequest { deadline_at: at(5_001), ..request() };
    assert_eq!(check_turn_request(&imprecise), Err(StoreError::Invalid("timestamp_precision")));
    assert_eq!(replay_reservation(reservation(), Id(4), &request()).unwrap().id, Id(1));
    assert_eq!(
        replay_reservation(reservation(), Id(9), &request()).unwrap_err(),
        StoreError::Conflict
    );
    let cheaper = TurnRequest { tokens: count(99), ..request() };
    assert_eq!(replay_reservation(reservation(), Id(4), &cheaper).unwrap_err(), StoreError::Conflict);
    let free = TurnRequest { estimated_cost: None, ..request() };
    assert_eq!(replay_reservation(reservation(), Id(4), &free).unwrap_err(), StoreError::Conflict);
    assert_eq!(next_ordinal(None), Ok(1));
    assert_eq!(next_ordinal(Some(7)), Ok(8));
    assert_eq!(next_ordinal(Some(u16::MAX)), Err(StoreError::Invalid("turn_ordinal_exhausted")));
}

#[test]
fn a_turn_is_sent_at_most_once() {
    let item = reservation();
    assert_eq!(
        claim_dispatch(&gate(), &item, Id(4), false, false, None),
        Ok(DispatchDecision::Send { rpc_request_id: "00000000-0000-0000-0000-000000000001".to_string() })
    );
    assert_eq!(
        claim_dispatch(&gate(), &item, Id(4), false, true, Some("t-1".to_string())),
        Ok(DispatchDecision::Reconcile { native_turn_id: Some("t-1".to_string()) })
    );
    assert_eq!(
        claim_dispatch(&gate(), &item, Id(4), true, true, None),
        Ok(DispatchDecision::Settled)
    );
    assert_eq!(
        claim_dispatch(&gate(), &item, Id(5), false, false, None),
        Err(StoreError::Domain(DomainError::StaleAttempt))
    );
    let late = MissionGate { now: at(6_000), ..gate() };
    assert_eq!(
        claim_dispatch(&late, &item, Id(4), false, false, None),
        Err(StoreError::Invalid("turn_deadline"))
    );
}

#[test]
fn native_turns_bind_once() {
    let item = reservation();
    assert_eq!(bind_native_turn("t-1", &item, Id(4), &None), Ok(BindStep::Record));
    assert_eq!(bind_native_turn("t-1", &item, Id(4), &Some("t-1".to_string())), Ok(BindStep::AlreadyBound));
    assert_eq!(bind_native_turn("t-2", &item, Id(4), &Some("t-1".to_string())), Err(StoreError::Conflict));
    assert_eq!(bind_native_turn("", &item, Id(4), &None), Err(StoreError::Invalid("native_turn_id")));
    assert_eq!(
        bind_native_turn("t-1", &item, Id(9), &None),
        Err(StoreError::Domain(DomainError::StaleAttempt))
    );
}

fn terminal(outcome: TurnOutcome, id: Option<&str>) -> TurnTerminal {
    TurnTerminal {
        outcome,
        native_turn_id: id.map(|s| s.to_string()),
        reason_code: "DONE".to_string(),
        observed_at: at(2_000),
    }
}

#[test]
fn terminals_are_immutable() {
    let t = terminal(TurnOutcome::Succeeded, Some("t-1"));
    assert_eq!(record_terminal(&t, at(3_000), &None), Ok(RecordStep::Insert));
    assert_eq!(record_terminal(&t, at(3_000), &Some(t.clone())), Ok(RecordStep::Unchanged));
    let other = terminal(TurnOutcome::Failed, Some("t-1"));
    assert_eq!(record_terminal(&t, at(3_000), &Some(other.clone())), Err(StoreError::Conflict));
    assert_eq!(record_terminal(&t, at(1_999), &None), Err(StoreError::Invalid("native_terminal")));
    let unbound = terminal(TurnOutcome::Succeeded, None);
    assert_eq!(record_terminal(&unbound, at(3_000), &None), Err(StoreError::Invalid("native_terminal")));
    let not_sent = terminal(TurnOutcome::NotSent, None);
    assert_eq!(record_terminal(&not_sent, at(3_000), &None), Ok(RecordStep::Insert));
    assert!(terminal_eq(&t, &t.clone()));
    assert!(!terminal_eq(&t, &other));
    assert_eq!(exact_terminal(&None, &t), Ok(false));
    assert_eq!(exact_terminal(&Some(t.clone()), &t), Ok(true));
    assert_eq!(exact_terminal(&Some(other), &t), Err(StoreError::Conflict));
}

fn receipt(outcome: TurnOutcome, tokens: u64, cost: Option<DecimalValue>) -> UsageReceipt {
    UsageReceipt {
        outcome,
        actual_tokens: count(tokens),
        actual_cost: cost,
        currency: Some("USD".to_string()),
        reason_code: "DONE".to_string(),
    }
}

#[test]
fn receipts_settle_exactly_once() {
    let item = reservation();
    let r = receipt(TurnOutcome::Succeeded, 80, Some(DecimalValue::new(20, 2)));
    assert_eq!(check_usage_receipt(&r), Ok(()));
    let negative = receipt(TurnOutcome::Succeeded, 80, Some(DecimalValue::new(-1, 0)));
    assert_eq!(check_usage_receipt(&negative), Err(StoreError::Invalid("usage_receipt")));
    assert_eq!(settle_usage(&r, &item, &None), Ok(SettleStep::TerminalAndReceipt));
    let t = terminal(TurnOutcome::Succeeded, Some("t-1"));
    assert_eq!(settle_usage(&r, &item, &Some(t)), Ok(SettleStep::ReceiptOnly));
    let failed = terminal(TurnOutcome::Failed, Some("t-1"));
    assert_eq!(settle_usage(&r, &item, &Some(failed)), Err(StoreError::Conflict));
    let no_cost = receipt(TurnOutcome::Succeeded, 80, None);
    assert_eq!(settle_usage(&no_cost, &item, &None), Err(StoreError::Conflict));
    let unsent = receipt(TurnOutcome::NotSent, 1, Some(DecimalValue::new(0, 0)));
    assert_eq!(settle_usage(&unsent, &item, &None), Err(StoreError::Invalid("not_sent_usage")));
    let unsent = receipt(TurnOutcome::NotSent, 0, Some(DecimalValue::new(0, 0)));
    assert_eq!(settle_usage(&unsent, &item, &None), Ok(SettleStep::TerminalAndReceipt));
    assert!(receipt_eq(&r, &r.clone()));
    assert_eq!(exact_receipt(&Some(r.clone()), &r), Ok(true));
    assert_eq!(exact_receipt(&Some(unsent), &r), Err(StoreError::Conflict));
    assert_eq!(exact_receipt(&None, &r), Ok(false));
    assert_eq!(usage_source(TurnOutcome::NotSent), "CONFIRMED_NOT_SENT");
    assert_eq!(usage_source(TurnOutcome::Failed), "NATIVE_REPORT");
}

#[test]
fn observed_terminals_keep_their_first_time() {
    let item = reservation();
    let first = observed_terminal(&item, Id(4), TurnOutcome::Failed, "E", Some("t".to_string()), &None, at(7)).unwrap();
    assert_eq!(first.observed_at, at(7));
    let again = observed_terminal(&item, Id(4), TurnOutcome::Failed, "E", Some("t".to_string()), &Some(first), at(9)).unwrap();
    assert_eq!(again.observed_at, at(7));
    assert_eq!(
        observed_terminal(&item, Id(4), TurnOutcome::NotSent, "E", None, &None, at(7)).unwrap_err(),
        StoreError::Conflict
    );
    assert_eq!(
        observed_terminal(&item, Id(4), TurnOutcome::Failed, "E", None, &None, at(7)).unwrap_err(),
        StoreError::Integrity
    );
}

#[test]
fn token_quotes_stay_within_budget() {
    assert_eq!(remaining_tokens(Some(count(100)), count(30), count(20)).unwrap().get(), 50);
    assert_eq!(
        remaining_tokens(Some(count(100)), count(80), count(20)),
        Err(StoreError::Domain(DomainError::BudgetExhausted("tokens")))
    );
    assert_eq!(
        remaining_tokens(Some(count(100)), count(120), count(0)),
        Err(StoreError::Domain(DomainError::BudgetExhausted("tokens")))
    );
    assert_eq!(remaining_tokens(None, count(1), count(1)).unwrap().get(), i64::MAX as u64 - 2);
    assert_eq!(output_budget(count(10), 5, count(15)), Ok(()));
    assert_eq!(
        output_budget(count(10), 6, count(15)),
        Err(StoreError::Domain(DomainError::BudgetExhausted("output_bytes")))
    );
    assert!(same_opt_text(&None, &None));
    assert!(!same_opt_text(&Some("a".to_string()), &None));
}

#[test]
fn stored_rows_read_back_as_values() {
    assert_eq!(store::turns::count(5).unwrap().get(), 5);
    assert_eq!(store::turns::count(-1), Err(StoreError::Invalid("negative_usage")));
    assert_eq!(project_state("PAUSED"), Ok(ProjectState::Paused));
    assert_eq!(project_state("paused"), Err(StoreError::Invalid("project_state")));
    assert_eq!(receipt_outcome("NOT_SENT"), Ok(TurnOutcome::NotSent));
    assert_eq!(receipt_outcome("LOST"), Err(StoreError::Invalid("receipt_outcome")));
    assert_eq!(check_queue_message(1), Ok(()));
    assert_eq!(check_queue_message(0), Err(StoreError::Invalid("queue_message_id")));
    let fence = WorkerFence { attempt_id: Id(4), worker_owner_id: "w".to_string(), owner_epoch: 3 };
    let lease = AttemptLease { worker_owner_id: "w".to_string(), owner_epoch: 3, lease_expires_at: at(100) };
    assert_eq!(check_worker_fence("AGENT_RESEARCH", Some(Id(4)), &fence, &lease, at(99)), Ok(()));
    let stale = Err(StoreError::Domain(DomainError::StaleAttempt));
    assert_eq!(check_worker_fence("AGENT_RESEARCH", Some(Id(4)), &fence, &lease, at(100)), stale);
    assert_eq!(check_worker_fence("AGENT_RESEARCH", Some(Id(5)), &fence, &lease, at(99)), stale);
    let other = AttemptLease { owner_epoch: 4, ..lease.clone() };
    assert_eq!(check_worker_fence("AGENT_RESEARCH", Some(Id(4)), &fence, &other, at(99)), stale);
    assert_eq!(
        check_worker_fence("DATA_VALIDATE", Some(Id(4)), &fence, &lease, at(99)),
        Err(StoreError::Invalid("not_agent_mission"))
    );
}

#[test]
fn turn_documents_and_feedback() {
    assert_eq!(check_request_document(1024 * 1024), Ok(()));
    assert_eq!(check_request_document(1024 * 1024 + 1), Err(StoreError::Invalid("native_turn_document")));
    assert_eq!(check_request_replay(count(3), 3, true), Ok(()));
    assert_eq!(check_request_replay(count(3), 4, true), Err(StoreError::Conflict));
    assert_eq!(check_request_replay(count(3), 3, false), Err(StoreError::Conflict));
    assert_eq!(check_initial_turn(false, "RESEARCHER"), Ok(()));
    assert_eq!(
        check_initial_turn(false, "INDEPENDENT_REVIEWER"),
        Err(StoreError::Domain(DomainError::CapabilityUnavailable("mission_initial_role")))
    );
    assert_eq!(
        check_initial_turn(true, "RESEARCHER"),
        Err(StoreError::Domain(DomainError::CapabilityUnavailable("native_cost_usage")))
    );
    assert_eq!(
        feedback_turn(false, true, false, "EVALUATOR_ONLY", "SUCCEEDED"),
        Ok((FeedbackStage::Validation, TurnKind::Research))
    );
    assert_eq!(
        feedback_turn(false, false, true, "RESEARCH", "FAILED"),
        Ok((FeedbackStage::Compilation, TurnKind::Repair))
    );
    assert_eq!(
        feedback_turn(false, false, false, "RESEARCH", "CANCELLED"),
        Ok((FeedbackStage::DiscoveryForecast, TurnKind::Repair))
    );
    assert_eq!(feedback_turn(false, true, false, "RESEARCH", "SUCCEEDED"), Err(StoreError::Integrity));
    assert_eq!(
        feedback_turn(true, true, false, "EVALUATOR_ONLY", "SUCCEEDED"),
        Err(StoreError::Domain(DomainError::CapabilityUnavailable("native_cost_usage")))
    );
}

#[test]
fn a_committed_receipt_replays_even_after_the_lease_is_lost() {
    let item = reservation();
    let r = receipt(TurnOutcome::Succeeded, 80, Some(DecimalValue::new(20, 2)));
    let stale = Err(StoreError::Domain(DomainError::StaleAttempt));
    assert_eq!(
        settle_turn(&r, &item, Id(4), &Some(r.clone()), stale, &None, &None),
        Ok(SettleOutcome::Replayed)
    );
    let other = receipt(TurnOutcome::Succeeded, 81, Some(DecimalValue::new(20, 2)));
    assert_eq!(
        settle_turn(&r, &item, Id(4), &Some(other.clone()), Ok(()), &None, &None),
        Err(StoreError::Conflict)
    );
    assert_eq!(
        settle_turn(&r, &item, Id(4), &None, stale, &Some(r.clone()), &None),
        Ok(SettleOutcome::Replayed)
    );
    assert_eq!(settle_turn(&r, &item, Id(4), &None, stale, &None, &None), stale.map(|_| SettleOutcome::Replayed));
    assert_eq!(
        settle_turn(&r, &item, Id(4), &None, Err(StoreError::NotFound), &Some(r.clone()), &None),
        Err(StoreError::NotFound)
    );
    assert_eq!(
        settle_turn(&r, &item, Id(4), &None, Ok(()), &None, &None),
        Ok(SettleOutcome::Settled(SettleStep::TerminalAndReceipt))
    );
    assert_eq!(
        settle_turn(&r, &item, Id(9), &Some(r.clone()), Ok(()), &None, &None),
        Err(StoreError::Domain(DomainError::StaleAttempt))
    );
    let bad = UsageReceipt { reason_code: " ".to_string(), ..r.clone() };
    assert_eq!(
        settle_turn(&bad, &item, Id(4), &None, Ok(()), &None, &None),
        Err(StoreError::Invalid("usage_receipt"))
    );
}

#[test]
fn a_committed_terminal_replays_even_after_the_lease_is_lost() {
    let item = reservation();
    let t = terminal(TurnOutcome::Succeeded, Some("t-1"));
    let stale: Result<UtcTime, StoreError> = Err(StoreError::Domain(DomainError::StaleAttempt));
    assert_eq!(
        observe_turn_terminal(&t, &item, Id(4), &Some(t.clone()), stale, &None),
        Ok(ObserveOutcome::Replayed)
    );
    let other = terminal(TurnOutcome::Failed, Some("t-1"));
    assert_eq!(
        observe_turn_terminal(&t, &item, Id(4), &Some(other), Ok(at(3_000)), &None),
        Err(StoreError::Conflict)
    );
    assert_eq!(
        observe_turn_terminal(&t, &item, Id(4), &None, stale, &Some(t.clone())),
        Ok(ObserveOutcome::Replayed)
    );
    assert_eq!(
        observe_turn_terminal(&t, &item, Id(4), &None, stale, &None),
        Err(StoreError::Domain(DomainError::StaleAttempt))
    );
    assert_eq!(
        observe_turn_terminal(&t, &item, Id(4), &None, Err(StoreError::NotFound), &Some(t.clone())),
        Err(StoreError::NotFound)
    );
    assert_eq!(
        observe_turn_terminal(&t, &item, Id(4), &None, Ok(at(3_000)), &None),
        Ok(ObserveOutcome::Recorded(RecordStep::Insert))
    );
    assert_eq!(
        observe_turn_terminal(&t, &item, Id(4), &None, Ok(at(1_999)), &None),
        Err(StoreError::Invalid("native_terminal"))
    );
    assert_eq!(
        observe_turn_terminal(&t, &item, Id(9), &Some(t.clone()), Ok(at(3_000)), &None),
        Err(StoreError::Domain(DomainError::StaleAttempt))
    );
}

#[test]
fn a_prompt_comes_back_from_its_request_document() {
    let item = reservation();
    let document = request_document(Id(2), Id(3), Id(4), "cmd-1", TurnKind::Research, "Find one idea.");
    assert_eq!(request_prompt(document.clone(), &item, "cmd-1"), Ok("Find one idea.".to_string()));
    assert_eq!(request_prompt(document.clone(), &item, "cmd-2"), Err(StoreError::Integrity));
    let repair = RequestDocument { turn_kind: "REPAIR".to_string(), ..document.clone() };
    assert_eq!(request_prompt(repair, &item, "cmd-1"), Err(StoreError::Integrity));
    let other_run = RequestDocument { run_id: Id(9), ..document.clone() };
    assert_eq!(request_prompt(other_run, &item, "cmd-1"), Err(StoreError::Integrity));
    let blank = RequestDocument { prompt: "  ".to_string(), ..document };
    assert_eq!(request_prompt(blank, &item, "cmd-1"), Err(StoreError::Invalid("native_turn_prompt")));
    assert_eq!(check_prompt_reader(&item, Id(2), Id(3), Id(4)), Ok(()));
    assert_eq!(check_prompt_reader(&item, Id(2), Id(3), Id(8)), Err(StoreError::Conflict));
}
