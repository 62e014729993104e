use store::native::{check_manifest_size, check_result_replay, TerminalOwner};
use store::error::{DomainError, StoreError};
use store::ids::{DbCounter, Id, UtcTime};
use store::native::{
    adopt_outputs, artifact_input, check_input_transfer, check_queue_read, check_sealed_authority,
    check_sealed_uses, check_task_definition, held_out, native_job, observe_native_accepted,
    output_eq, settle_unsubmitted_native_run, terminal_outcome, ArtifactAccess, DataPartition,
    FailureClass, JobPlan, NativeOutcome, NativePayloads, NextRuntimeAction, RunReason,
    RuntimeFailure, RuntimeInput, RuntimeOutput, RuntimeResultState,
};
use store::runs::{RunState, SchemaRef};

fn count(n: u64) -> DbCounter {
    DbCounter::new(n).unwrap()
}

fn output(id: u128, bytes: u64) -> RuntimeOutput {
    RuntimeOutput {
        storage_ref: Id(id),
        kind: "REPORT".to_string(),
        media_type: "application/json".to_string(),
        schema: SchemaRef { name: "qz.alpha_validation".to_string(), version: "1".to_string() },
        byte_count: count(bytes),
    }
}

fn payload(id: u128, bytes: &[u8]) -> (RuntimeOutput, Vec<u8>) {
    (output(id, bytes.len() as u64), bytes.to_vec())
}

fn shapes_ok(n: usize) -> Vec<Result<(), StoreError>> {
    vec![Ok(()); n]
}

#[test]
fn outputs_bind_exactly_to_the_manifest() {
    let manifest = vec![output(1, 3), output(2, 2)];
    let published = adopt_outputs(
        &manifest,
        RuntimeResultState::Succeeded,
        count(5),
        NativePayloads::Verified(vec![payload(2, b"ab"), payload(1, b"abc")]),
        &shapes_ok(2),
        count(10),
        RunState::Running,
    )
    .unwrap();
    assert_eq!(published.len(), 2);
    assert!(output_eq(&published[0].0, &output(2, 2)));
    let discarded = adopt_outputs(
        &manifest,
        RuntimeResultState::Succeeded,
        count(5),
        NativePayloads::Verified(vec![payload(1, b"abc"), payload(2, b"ab")]),
        &shapes_ok(2),
        count(10),
        RunState::CancelRequested,
    )
    .unwrap();
    assert!(discarded.is_empty());
}

#[test]
fn every_output_mismatch_is_refused() {
    let manifest = vec![output(1, 3), output(2, 2)];
    let adopt = |payloads: Vec<(RuntimeOutput, Vec<u8>)>, total: u64, limit: u64| {
        let shapes = shapes_ok(payloads.len());
        adopt_outputs(
            &manifest,
            RuntimeResultState::Succeeded,
            count(total),
            NativePayloads::Verified(payloads),
            &shapes,
            count(limit),
            RunState::Running,
        )
    };
    assert_eq!(
        adopt(vec![payload(1, b"abc")], 3, 10).unwrap_err(),
        StoreError::Invalid("native_output_count")
    );
    assert_eq!(
        adopt(vec![payload(1, b"abc"), payload(3, b"ab")], 5, 10).unwrap_err(),
        StoreError::Invalid("native_output_identity")
    );
    assert_eq!(
        adopt(vec![payload(1, b"abc"), payload(1, b"abc")], 6, 10).unwrap_err(),
        StoreError::Invalid("native_output_binding")
    );
    assert_eq!(
        adopt(vec![payload(1, b"abcd"), payload(2, b"ab")], 6, 10).unwrap_err(),
        StoreError::Invalid("native_output_binding")
    );
    assert_eq!(
        adopt(vec![payload(1, b"abc"), payload(2, b"ab")], 5, 4).unwrap_err(),
        StoreError::Invalid("native_output_bytes")
    );
    assert_eq!(
        adopt(vec![payload(1, b"abc"), payload(2, b"ab")], 6, 10).unwrap_err(),
        StoreError::Invalid("native_output_sum")
    );
    assert_eq!(
        adopt_outputs(&manifest, RuntimeResultState::Failed, count(0), NativePayloads::InvalidOutput, &vec![], count(10), RunState::Running)
            .unwrap_err(),
        StoreError::Invalid("invalid_output_outcome")
    );
    assert!(adopt_outputs(&manifest, RuntimeResultState::Succeeded, count(0), NativePayloads::InvalidOutput, &vec![], count(10), RunState::Running)
        .unwrap()
        .is_empty());
}

#[test]
fn native_results_become_terminal_observations() {
    assert_eq!(
        terminal_outcome(true, RuntimeResultState::Succeeded, &None),
        Ok((NativeOutcome::Failed, Some(FailureClass::InvalidInput), Some("NATIVE_OUTPUT_INVALID".to_string())))
    );
    assert_eq!(
        terminal_outcome(false, RuntimeResultState::Succeeded, &None),
        Ok((NativeOutcome::Succeeded, None, None))
    );
    assert_eq!(
        terminal_outcome(false, RuntimeResultState::Cancelled, &None),
        Ok((NativeOutcome::Cancelled, None, None))
    );
    let failure = Some(RuntimeFailure { class: FailureClass::ResourceLimit, code: "OOM".to_string() });
    assert_eq!(
        terminal_outcome(false, RuntimeResultState::Failed, &failure),
        Ok((NativeOutcome::Failed, Some(FailureClass::ResourceLimit), Some("OOM".to_string())))
    );
    assert_eq!(terminal_outcome(false, RuntimeResultState::Failed, &None), Err(StoreError::Integrity));
}

#[test]
fn unsent_runs_settle_without_native_observation() {
    let now = UtcTime { nanos: 10 };
    assert_eq!(
        settle_unsubmitted_native_run(RunState::CancelRequested, true, UtcTime { nanos: 20 }, now),
        Ok(Some((RunState::Cancelled, RunReason::CancelledBeforeDispatch)))
    );
    assert_eq!(
        settle_unsubmitted_native_run(RunState::Running, true, UtcTime { nanos: 10 }, now),
        Ok(Some((RunState::Failed, RunReason::DeadlineExceeded)))
    );
    assert_eq!(settle_unsubmitted_native_run(RunState::Running, true, UtcTime { nanos: 11 }, now), Ok(None));
    assert_eq!(settle_unsubmitted_native_run(RunState::Running, false, UtcTime { nanos: 1 }, now), Ok(None));
    assert_eq!(
        settle_unsubmitted_native_run(RunState::Succeeded, true, UtcTime { nanos: 1 }, now),
        Err(StoreError::Domain(DomainError::TerminalRun))
    );
}

#[test]
fn the_driver_plans_dispatch_reconcile_or_cancel() {
    let now = UtcTime { nanos: 10 };
    let later = UtcTime { nanos: 20 };
    assert_eq!(
        native_job(RunState::Dispatching, true, false, later, now),
        Ok(JobPlan { request_cancel: false, action: NextRuntimeAction::PrepareDispatch })
    );
    assert_eq!(
        native_job(RunState::Running, false, true, later, now),
        Ok(JobPlan { request_cancel: false, action: NextRuntimeAction::Reconcile })
    );
    assert_eq!(
        native_job(RunState::Running, false, true, now, now),
        Ok(JobPlan { request_cancel: true, action: NextRuntimeAction::Cancel })
    );
    assert_eq!(
        native_job(RunState::CancelRequested, false, true, later, now),
        Ok(JobPlan { request_cancel: false, action: NextRuntimeAction::Cancel })
    );
    assert_eq!(
        native_job(RunState::Running, false, false, later, now),
        Err(StoreError::Invalid("native_spec_not_frozen"))
    );
    assert_eq!(
        native_job(RunState::Failed, false, true, later, now),
        Err(StoreError::Domain(DomainError::TerminalRun))
    );
}

#[test]
fn acceptance_is_for_the_sent_job_only() {
    let job = Some("job-1".to_string());
    assert_eq!(observe_native_accepted(true, RunState::Running, false, &job, "job-1"), Ok(()));
    assert_eq!(observe_native_accepted(true, RunState::Running, false, &job, "job-2"), Err(StoreError::Conflict));
    assert_eq!(observe_native_accepted(true, RunState::Running, true, &job, "job-1"), Err(StoreError::Conflict));
    assert_eq!(observe_native_accepted(false, RunState::Running, false, &job, "job-1"), Err(StoreError::Conflict));
    assert_eq!(observe_native_accepted(true, RunState::Failed, false, &job, "job-1"), Err(StoreError::Conflict));
}

fn sealed() -> RuntimeInput {
    RuntimeInput::Dataset {
        revision_id: Id(1),
        registered_ref: "r".to_string(),
        storage_version: "1".to_string(),
        role: DataPartition::Sealed,
    }
}

fn model(id: u128) -> RuntimeInput {
    RuntimeInput::Artifact {
        artifact_id: Id(id),
        storage_version: "v7".to_string(),
        byte_count: count(42),
        role: "MODEL".to_string(),
    }
}

#[test]
fn sealed_data_needs_evaluator_authority() {
    assert_eq!(check_task_definition(ArtifactAccess::Research, 1), Ok(()));
    assert_eq!(check_task_definition(ArtifactAccess::Operator, 1), Err(StoreError::Invalid("native_task_definition")));
    assert_eq!(check_task_definition(ArtifactAccess::EvaluatorOnly, 1025), Err(StoreError::Invalid("native_task_definition")));
    assert_eq!(check_task_definition(ArtifactAccess::EvaluatorOnly, 0), Err(StoreError::Invalid("native_task_definition")));
    assert_eq!(check_sealed_authority(&vec![sealed()], ArtifactAccess::EvaluatorOnly), Ok(()));
    assert_eq!(
        check_sealed_authority(&vec![model(2), sealed()], ArtifactAccess::Research),
        Err(StoreError::Invalid("sealed_native_task_authority"))
    );
    assert_eq!(check_sealed_authority(&vec![model(2)], ArtifactAccess::Research), Ok(()));
    let sealed_output = vec![SchemaRef { name: "qz.alpha_sealed".to_string(), version: "1".to_string() }];
    assert!(held_out(&vec![sealed()], &vec![]));
    assert!(held_out(&vec![model(2)], &sealed_output));
    assert!(!held_out(&vec![model(2)], &vec![]));
    assert_eq!(check_sealed_uses(2, 3), Ok(()));
    assert_eq!(
        check_sealed_uses(3, 3),
        Err(StoreError::Domain(DomainError::BudgetExhausted("sealed_uses")))
    );
}

#[test]
fn inputs_transfer_only_before_dispatch() {
    assert_eq!(check_input_transfer(RunState::Dispatching, true), Ok(()));
    assert_eq!(
        check_input_transfer(RunState::Dispatching, false),
        Err(StoreError::Domain(DomainError::AdmissionClosed))
    );
    assert_eq!(
        check_input_transfer(RunState::CancelRequested, true),
        Err(StoreError::Domain(DomainError::AdmissionClosed))
    );
    assert_eq!(artifact_input(&vec![sealed(), model(5)], Id(5)), Ok((count(42), "v7".to_string())));
    assert_eq!(artifact_input(&vec![sealed(), model(5)], Id(6)), Err(StoreError::Forbidden));
    assert_eq!(check_queue_read(300, 100), Ok(()));
    assert_eq!(check_queue_read(0, 1), Err(StoreError::Invalid("queue_read_limit")));
    assert_eq!(check_queue_read(1, 101), Err(StoreError::Invalid("queue_read_limit")));
}

#[test]
fn manifests_and_result_replays() {
    assert_eq!(check_manifest_size(1, 10), Ok(()));
    assert_eq!(check_manifest_size(0, 10), Err(StoreError::Invalid("native_manifest_size")));
    assert_eq!(check_manifest_size(11, 10), Err(StoreError::Invalid("native_manifest_size")));
    let owner = TerminalOwner { attempt_id: Some(Id(1)), worker_owner_id: "w".to_string(), owner_epoch: 2 };
    assert_eq!(check_result_replay(&owner, Id(1), "w", 2, true), Ok(()));
    assert_eq!(check_result_replay(&owner, Id(1), "w", 2, false), Err(StoreError::Conflict));
    assert_eq!(
        check_result_replay(&owner, Id(1), "w", 3, true),
        Err(StoreError::Domain(DomainError::StaleAttempt))
    );
    let manifest = vec![output(1, 3)];
    let cancelled_failure = adopt_outputs(
        &manifest,
        RuntimeResultState::Cancelled,
        count(3),
        NativePayloads::Verified(vec![payload(1, b"abc")]),
        &shapes_ok(1),
        count(10),
        RunState::CancelRequested,
    )
    .unwrap();
    assert_eq!(cancelled_failure.len(), 1);
}

#[test]
fn an_output_of_the_wrong_shape_refuses_the_result() {
    let manifest = vec![output(1, 3), output(2, 2)];
    let bad_shape = StoreError::Invalid("native_output_shape");
    let adopt = |payloads: Vec<(RuntimeOutput, Vec<u8>)>, shapes: Vec<Result<(), StoreError>>, total: u64, limit: u64| {
        adopt_outputs(
            &manifest,
            RuntimeResultState::Succeeded,
            count(total),
            NativePayloads::Verified(payloads),
            &shapes,
            count(limit),
            RunState::Running,
        )
    };
    assert_eq!(
        adopt(vec![payload(1, b"abc"), payload(2, b"ab")], vec![Ok(()), Err(bad_shape)], 5, 10).unwrap_err(),
        bad_shape
    );
    assert_eq!(
        adopt(vec![payload(1, b"abc"), payload(2, b"ab")], vec![Err(bad_shape), Ok(())], 6, 10).unwrap_err(),
        bad_shape
    );
    assert_eq!(
        adopt(vec![payload(1, b"abc"), payload(2, b"ab")], vec![Err(bad_shape), Ok(())], 5, 2).unwrap_err(),
        StoreError::Invalid("native_output_bytes")
    );
}
