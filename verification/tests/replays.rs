use store::error::{DomainError, StoreError};
use store::experiment::{start_science_stage, ExperimentStage, ExperimentState};
use store::ids::{DbCounter, Id, UtcTime};
use store::native::{may_discard_object, StoredArtifact};
use store::publication::{
    candidate_publication_start, forward_observation_start, scientific_publication_start,
    sealed_publication_start, simulation_publication_start, PublishStart, SimulationBinding,
};
use store::runs::{JobLimits, RunState};
use store::turns::{
    acknowledge_settled_message, initial_turn_start, AckStep, MissionGate, ProjectState,
    QueuedMessage,
};
use store::weights::{check_last_target_source, last_target_available, LastTargetSource};

fn at(n: i128) -> UtcTime {
    UtcTime { nanos: n }
}

#[test]
fn a_published_candidate_is_replayed_whatever_the_run_state() {
    assert_eq!(candidate_publication_start(Some(Id(7)), RunState::Running), Ok(PublishStart::Replay(Id(7))));
    assert_eq!(candidate_publication_start(None, RunState::Running), Err(StoreError::Conflict));
    assert_eq!(candidate_publication_start(None, RunState::Succeeded), Ok(PublishStart::Publish));
    assert_eq!(candidate_publication_start(None, RunState::Cancelled), Ok(PublishStart::Publish));
}

#[test]
fn forward_observations_are_replayed_and_only_for_forward_runs() {
    assert_eq!(forward_observation_start(false, Some(Id(7)), RunState::Running), Ok(PublishStart::Nothing));
    assert_eq!(forward_observation_start(true, Some(Id(7)), RunState::Running), Ok(PublishStart::Replay(Id(7))));
    assert_eq!(forward_observation_start(true, None, RunState::Reconciling), Err(StoreError::Conflict));
    assert_eq!(forward_observation_start(true, None, RunState::Failed), Ok(PublishStart::Publish));
}

#[test]
fn scientific_results_start_in_the_stores_order() {
    assert_eq!(
        scientific_publication_start(false, Some(Id(1)), false, RunState::Running, false),
        Ok(PublishStart::Nothing)
    );
    assert_eq!(
        scientific_publication_start(true, Some(Id(1)), false, RunState::Running, false),
        Ok(PublishStart::Replay(Id(1)))
    );
    assert_eq!(
        scientific_publication_start(true, None, false, RunState::Succeeded, true),
        Err(StoreError::Conflict)
    );
    assert_eq!(
        scientific_publication_start(true, None, true, RunState::Running, true),
        Err(StoreError::Conflict)
    );
    assert_eq!(
        scientific_publication_start(true, None, true, RunState::Succeeded, false),
        Err(StoreError::Conflict)
    );
    assert_eq!(
        scientific_publication_start(true, None, true, RunState::Succeeded, true),
        Ok(PublishStart::Publish)
    );
}

#[test]
fn a_started_science_stage_is_answered_again() {
    let limits = JobLimits {
        experiments: 0,
        cpu_seconds: DbCounter::new(10).unwrap(),
        wall_seconds: 5,
        memory_mib: 64,
        output_bytes: DbCounter::new(1).unwrap(),
    };
    let fresh = ExperimentState { pending: true, has_run: false };
    let closed = RunState::Succeeded;
    assert_eq!(
        start_science_stage(Some(Id(9)), closed, at(100), at(200), fresh, ExperimentStage::Forecast, &limits),
        Ok(Some(Id(9)))
    );
    assert_eq!(
        start_science_stage(None, closed, at(100), at(10), fresh, ExperimentStage::Forecast, &limits),
        Err(StoreError::Domain(DomainError::AdmissionClosed))
    );
    assert_eq!(
        start_science_stage(None, RunState::Running, at(100), at(10), fresh, ExperimentStage::Validation, &limits),
        Ok(None)
    );
}

fn source() -> LastTargetSource {
    LastTargetSource {
        project_id: Id(1),
        published: true,
        run_succeeded: true,
        evidence_valid: true,
        solver_status: "ACCEPTABLE_INACCURATE".to_string(),
        has_cash_weight: true,
        targets_report: true,
        target_bytes: 512,
    }
}

#[test]
fn last_targets_come_only_from_a_published_candidate_of_the_project() {
    let refused = Err(StoreError::Invalid("portfolio_last_target"));
    assert_eq!(check_last_target_source(&Some(source()), Id(1)), Ok(()));
    assert_eq!(check_last_target_source(&None, Id(1)), refused);
    assert_eq!(check_last_target_source(&Some(source()), Id(2)), refused);
    assert_eq!(check_last_target_source(&Some(LastTargetSource { published: false, ..source() }), Id(1)), refused);
    assert_eq!(
        check_last_target_source(&Some(LastTargetSource { solver_status: "INFEASIBLE".to_string(), ..source() }), Id(1)),
        refused
    );
    assert_eq!(
        check_last_target_source(&Some(LastTargetSource { target_bytes: 0, ..source() }), Id(1)),
        Err(StoreError::Integrity)
    );
    assert_eq!(
        check_last_target_source(&Some(LastTargetSource { target_bytes: 1024 * 1024 + 1, ..source() }), Id(1)),
        Err(StoreError::Integrity)
    );
    assert_eq!(
        check_last_target_source(&Some(LastTargetSource { target_bytes: 1024 * 1024, ..source() }), Id(1)),
        Ok(())
    );
}

#[test]
fn last_targets_are_available_from_the_later_of_creation_and_asof() {
    assert_eq!(last_target_available(at(5), at(3), at(10)), Ok(at(5)));
    assert_eq!(last_target_available(at(3), at(5), at(10)), Ok(at(5)));
    assert_eq!(
        last_target_available(at(10), at(3), at(10)),
        Err(StoreError::Invalid("portfolio_last_target_expired"))
    );
}

#[test]
fn only_a_settled_turns_own_notification_is_archived() {
    let r = Id(4);
    assert_eq!(
        acknowledge_settled_message(0, r, true, QueuedMessage::Names(r), QueuedMessage::Missing),
        Err(StoreError::Invalid("queue_message_id"))
    );
    assert_eq!(
        acknowledge_settled_message(1, r, false, QueuedMessage::Names(r), QueuedMessage::Missing),
        Err(StoreError::TurnPending)
    );
    assert_eq!(
        acknowledge_settled_message(1, r, true, QueuedMessage::Names(r), QueuedMessage::Missing),
        Ok(AckStep::Archive)
    );
    assert_eq!(
        acknowledge_settled_message(1, r, true, QueuedMessage::Names(Id(5)), QueuedMessage::Missing),
        Err(StoreError::Conflict)
    );
    assert_eq!(
        acknowledge_settled_message(1, r, true, QueuedMessage::Other, QueuedMessage::Missing),
        Err(StoreError::Conflict)
    );
    assert_eq!(
        acknowledge_settled_message(1, r, true, QueuedMessage::Missing, QueuedMessage::Names(r)),
        Ok(AckStep::AlreadyArchived)
    );
    assert_eq!(
        acknowledge_settled_message(1, r, true, QueuedMessage::Missing, QueuedMessage::Other),
        Err(StoreError::Conflict)
    );
}

#[test]
fn existing_work_wins_over_a_new_initial_turn() {
    let gate = MissionGate {
        project_state: ProjectState::Active,
        cycle_state: "RUNNING".to_string(),
        brief_state: "FROZEN".to_string(),
        run_state: "RUNNING".to_string(),
        budget_matches_brief: true,
        run_deadline: at(10_000),
        now: at(1_000),
    };
    assert_eq!(initial_turn_start(false, &gate), Ok(true));
    let paused = MissionGate { project_state: ProjectState::Paused, ..gate.clone() };
    assert_eq!(initial_turn_start(true, &paused), Ok(false));
    assert_eq!(initial_turn_start(false, &paused), Err(StoreError::Domain(DomainError::AdmissionClosed)));
    let late = MissionGate { now: at(10_000), ..gate };
    assert_eq!(initial_turn_start(false, &late), Err(StoreError::Invalid("turn_deadline")));
}

#[test]
fn referenced_objects_are_kept() {
    let object = Id(1);
    let stored = |id: u128, local: bool, object_ref: &str| StoredArtifact {
        id: Id(id),
        local,
        object_ref: object_ref.to_string(),
    };
    let text = "00000000-0000-0000-0000-000000000001";
    assert!(may_discard_object(object, &vec![]));
    assert!(may_discard_object(object, &vec![stored(2, true, "other"), stored(3, false, text)]));
    assert!(!may_discard_object(object, &vec![stored(2, true, "other"), stored(1, false, "x")]));
    assert!(!may_discard_object(object, &vec![stored(2, true, text)]));
}

fn simulation() -> SimulationBinding {
    SimulationBinding {
        request_candidate: Id(1),
        candidate: Id(1),
        request_input_set: Id(2),
        run_input_set: Id(2),
        request_cycle: Id(3),
        run_cycle: Some(Id(3)),
        candidate_project: Id(4),
        run_project: Id(4),
        policy: Id(5),
        required_policy: Id(5),
    }
}

#[test]
fn simulation_evaluations_start_in_the_stores_order() {
    let b = simulation();
    assert_eq!(simulation_publication_start(None, Some(Id(9)), RunState::Running, false), Ok(PublishStart::Nothing));
    assert_eq!(
        simulation_publication_start(Some(SimulationBinding { run_cycle: None, ..b }), Some(Id(9)), RunState::Succeeded, true),
        Err(StoreError::Integrity)
    );
    assert_eq!(
        simulation_publication_start(Some(SimulationBinding { policy: Id(6), ..b }), None, RunState::Succeeded, true),
        Err(StoreError::Integrity)
    );
    assert_eq!(
        simulation_publication_start(Some(b), Some(Id(9)), RunState::Running, false),
        Ok(PublishStart::Replay(Id(9)))
    );
    assert_eq!(simulation_publication_start(Some(b), None, RunState::Running, true), Err(StoreError::Conflict));
    assert_eq!(simulation_publication_start(Some(b), None, RunState::Succeeded, false), Err(StoreError::Integrity));
    assert_eq!(simulation_publication_start(Some(b), None, RunState::Succeeded, true), Ok(PublishStart::Publish));
}

#[test]
fn sealed_evaluations_are_replayed_before_any_check() {
    assert_eq!(sealed_publication_start(Some(Id(9)), false, RunState::Running), Ok(PublishStart::Replay(Id(9))));
    assert_eq!(sealed_publication_start(None, false, RunState::Succeeded), Err(StoreError::Conflict));
    assert_eq!(sealed_publication_start(None, true, RunState::Running), Err(StoreError::Conflict));
    assert_eq!(sealed_publication_start(None, true, RunState::Failed), Ok(PublishStart::Publish));
}
