use store::mission::{bind_mission_session, check_mission_runtime, EffectiveSettings, NativeSessionReceipt, SessionStep};
use store::error::{DomainError, StoreError};
use store::experiment::{
    artifact_size, bounded_wall_seconds, check_compilation, check_compilation_owner,
    check_compiler, check_horizon, check_runtime_binding, check_science_image,
    compilation_sources, forecast_unit, native_cpu, next_mission_experiment, science_dataset,
    start_stage, ExperimentStage, ExperimentState, ExperimentWork, MissionRun, PendingExperiment,
};
use store::ids::{DbCounter, Id, Revision, UtcTime};
use store::mission::{
    admission_record, advance_initial_cycle, complete_research_mission, mission_limits,
    observe_mission_token_limit, profile_choice, requested, role_admission, AdmissionRecord,
    CodexProfile, Completion, CycleBudget, CycleStep, InitialRun, MissionProgress, MissionRole,
    ModelSettings, TokenLimitStep,
};
use store::runs::{JobLimits, RunKind, RunState, RuntimeCapabilities};

const SECOND: i128 = 1_000_000_000;

fn count(n: u64) -> DbCounter {
    DbCounter::new(n).unwrap()
}

fn at(seconds: i128) -> UtcTime {
    UtcTime { nanos: seconds * SECOND }
}

fn capabilities(max_cpu: u16) -> RuntimeCapabilities {
    RuntimeCapabilities {
        checked_at: at(0),
        job_kinds: vec![],
        max_cpu,
        artifact_schemas: vec![],
        image_refs: vec![],
    }
}

#[test]
fn cpu_capacity_uses_the_actual_bounded_wall_allocation() {
    let capabilities = capabilities(2);
    let mut limits = JobLimits {
        experiments: 0,
        cpu_seconds: DbCounter::new(10).unwrap(),
        wall_seconds: 5,
        memory_mib: 1024,
        output_bytes: DbCounter::new(1024).unwrap(),
    };
    assert_eq!(native_cpu(&limits, &capabilities, Ok(())).unwrap(), 2);
    limits.wall_seconds = 4;
    assert!(native_cpu(&limits, &capabilities, Ok(())).is_err());
    limits.wall_seconds = 0;
    assert!(native_cpu(&limits, &capabilities, Ok(())).is_err());
}

#[test]
fn the_job_limit_refusal_comes_first() {
    let limits = JobLimits {
        experiments: 0,
        cpu_seconds: DbCounter::new(10).unwrap(),
        wall_seconds: 5,
        memory_mib: 1024,
        output_bytes: DbCounter::new(1024).unwrap(),
    };
    let refused = StoreError::Domain(DomainError::CapabilityUnavailable("job_limits"));
    assert_eq!(native_cpu(&limits, &capabilities(2), Err(refused)), Err(refused));
}

#[test]
fn cpu_rounds_up_and_reports_each_refusal() {
    let limits = |cpu: u64, wall: u32| JobLimits {
        experiments: 0,
        cpu_seconds: count(cpu),
        wall_seconds: wall,
        memory_mib: 64,
        output_bytes: count(1),
    };
    assert_eq!(native_cpu(&limits(11, 5), &capabilities(3), Ok(())), Ok(3));
    assert_eq!(
        native_cpu(&limits(0, 5), &capabilities(3), Ok(())),
        Err(StoreError::Domain(DomainError::CapabilityUnavailable("native_cpu_capacity")))
    );
    assert_eq!(
        native_cpu(&limits(10, 0), &capabilities(3), Ok(())),
        Err(StoreError::Domain(DomainError::BudgetExhausted("wall_seconds")))
    );
    assert_eq!(
        native_cpu(&limits(u64::MAX / 2, 1), &capabilities(u16::MAX), Ok(())),
        Err(StoreError::Domain(DomainError::CapabilityUnavailable("native_cpu_capacity")))
    );
}

#[test]
fn wall_time_is_cut_to_the_parent_deadline() {
    assert_eq!(bounded_wall_seconds(100, at(50), at(10)), Ok(40));
    assert_eq!(bounded_wall_seconds(30, at(50), at(10)), Ok(30));
    assert_eq!(
        bounded_wall_seconds(30, UtcTime { nanos: 10 * SECOND + SECOND - 1 }, at(10)),
        Err(StoreError::Domain(DomainError::BudgetExhausted("wall_seconds")))
    );
    assert_eq!(
        bounded_wall_seconds(30, at(9), at(10)),
        Err(StoreError::Domain(DomainError::BudgetExhausted("wall_seconds")))
    );
}

fn run() -> MissionRun {
    MissionRun {
        kind: RunKind::AgentResearch,
        researcher: true,
        admission_open: true,
        state: RunState::Running,
        deadline: at(100),
        now: at(10),
    }
}

#[test]
fn the_next_experiment_step_follows_what_it_has() {
    let e = PendingExperiment { id: Id(1), compile_run_id: None, forecast_run_id: None, alpha_version_id: None };
    assert_eq!(next_mission_experiment(run(), Some(e)), Ok(Some(ExperimentWork::Compile(Id(1)))));
    let compiled = PendingExperiment { compile_run_id: Some(Id(2)), ..e };
    assert_eq!(next_mission_experiment(run(), Some(compiled)), Ok(Some(ExperimentWork::Forecast(Id(1)))));
    let forecast = PendingExperiment { forecast_run_id: Some(Id(3)), ..compiled };
    assert_eq!(next_mission_experiment(run(), Some(forecast)), Ok(Some(ExperimentWork::RecordAlpha(Id(1)))));
    let alpha = PendingExperiment { alpha_version_id: Some(Id(4)), ..forecast };
    assert_eq!(next_mission_experiment(run(), Some(alpha)), Ok(Some(ExperimentWork::Validate(Id(1)))));
    assert_eq!(next_mission_experiment(run(), None), Ok(None));
    let late = MissionRun { now: at(100), ..run() };
    assert_eq!(next_mission_experiment(late, Some(e)), Ok(None));
    let other = MissionRun { researcher: false, ..run() };
    assert_eq!(next_mission_experiment(other, Some(e)), Err(StoreError::Forbidden));
}

#[test]
fn stages_start_only_with_their_limits() {
    let limits = |experiments: u32| JobLimits {
        experiments,
        cpu_seconds: count(10),
        wall_seconds: 5,
        memory_mib: 64,
        output_bytes: count(1),
    };
    let fresh = ExperimentState { pending: true, has_run: false };
    assert_eq!(start_stage(RunState::Running, at(100), at(10), fresh, ExperimentStage::Compilation, &limits(1)), Ok(()));
    assert_eq!(
        start_stage(RunState::Running, at(100), at(10), fresh, ExperimentStage::Compilation, &limits(0)),
        Err(StoreError::Invalid("compilation_limits"))
    );
    assert_eq!(
        start_stage(RunState::Running, at(100), at(10), fresh, ExperimentStage::Forecast, &limits(1)),
        Err(StoreError::Invalid("forecast_limits"))
    );
    let ran = ExperimentState { pending: true, has_run: true };
    assert_eq!(start_stage(RunState::Running, at(100), at(10), ran, ExperimentStage::Validation, &limits(0)), Ok(()));
    assert_eq!(
        start_stage(RunState::Running, at(100), at(10), ran, ExperimentStage::Forecast, &limits(0)),
        Err(StoreError::Domain(DomainError::AdmissionClosed))
    );
    assert_eq!(
        start_stage(RunState::Queued, at(100), at(10), fresh, ExperimentStage::Forecast, &limits(0)),
        Err(StoreError::Domain(DomainError::AdmissionClosed))
    );
}

#[test]
fn compilations_and_science_need_their_sources() {
    assert_eq!(check_compiler(RunKind::AgentResearch, true), Ok(()));
    assert_eq!(check_compiler(RunKind::AlphaEvaluate, true), Err(StoreError::Forbidden));
    assert_eq!(check_compilation_owner(Id(1), Id(1)), Ok(()));
    assert_eq!(check_compilation_owner(Id(1), Id(2)), Err(StoreError::Conflict));
    assert_eq!(compilation_sources(Some(Id(1)), Some(Id(2))), Ok((Id(1), Id(2))));
    assert_eq!(compilation_sources(None, Some(Id(2))), Err(StoreError::Invalid("experiment_code_required")));
    assert_eq!(compilation_sources(Some(Id(1)), None), Err(StoreError::Invalid("experiment_parameters_required")));
    assert_eq!(check_runtime_binding(Id(1), Revision(2), Id(1), Revision(2)), Ok(()));
    assert_eq!(check_runtime_binding(Id(1), Revision(2), Id(1), Revision(3)), Err(StoreError::Integrity));
    assert_eq!(check_compilation(true, 1), Ok(()));
    assert_eq!(check_compilation(false, 1), Err(StoreError::Invalid("original_trial_charge_required")));
    assert_eq!(check_compilation(true, 2), Err(StoreError::Invalid("accepted_compilation_required")));
    assert_eq!(check_horizon("FIXED_BARS", Some(5), 5), Ok(()));
    assert_eq!(
        check_horizon("CALENDAR", Some(5), 5),
        Err(StoreError::Domain(DomainError::CapabilityUnavailable("native_fixed_bar_horizon")))
    );
    assert_eq!(check_horizon("FIXED_BARS", Some(6), 5), Err(StoreError::Invalid("forecast_label_horizon")));
    assert_eq!(check_horizon("FIXED_BARS", None, 5), Err(StoreError::Invalid("forecast_label_horizon")));
}

#[test]
fn science_runs_on_the_proposed_dataset() {
    assert_eq!(science_dataset(false, &vec![Id(1), Id(2), Id(2)], Id(2), None), Ok(1));
    assert_eq!(
        science_dataset(false, &vec![Id(1)], Id(2), None),
        Err(StoreError::Invalid("forecast_discovery_dataset"))
    );
    assert_eq!(science_dataset(true, &vec![Id(7)], Id(2), Some(Id(2))), Ok(0));
    assert_eq!(science_dataset(true, &vec![Id(7)], Id(2), Some(Id(3))), Err(StoreError::Integrity));
    assert_eq!(
        science_dataset(true, &vec![Id(7), Id(8)], Id(2), Some(Id(2))),
        Err(StoreError::Domain(DomainError::CapabilityUnavailable("native_alpha_single_validation_revision")))
    );
    assert_eq!(check_science_image("a", "a", &Some("a".to_string())), Ok(()));
    assert_eq!(check_science_image("a", "a", &None), Ok(()));
    let changed = StoreError::Domain(DomainError::CapabilityUnavailable("frozen_alpha_image_changed"));
    assert_eq!(check_science_image("a", "b", &None), Err(changed));
    assert_eq!(check_science_image("a", "a", &Some("b".to_string())), Err(changed));
    assert_eq!(artifact_size(count(5), 5), Ok(count(5)));
    assert_eq!(artifact_size(count(0), 5), Err(StoreError::Integrity));
    assert_eq!(artifact_size(count(6), 5), Err(StoreError::Integrity));
    assert_eq!(forecast_unit("SCORE"), Ok("UNITLESS_SCORE"));
    assert_eq!(forecast_unit("EXPECTED_RETURN"), Ok("RETURN_PER_HORIZON"));
    assert_eq!(forecast_unit("OTHER"), Err(StoreError::Integrity));
}

fn profile(defaults: bool, fast: bool) -> CodexProfile {
    CodexProfile {
        id: Id(1),
        revision: Revision(2),
        profile_origin: "OPERATOR".to_string(),
        connection_mode: "CHATGPT".to_string(),
        model_settings: ModelSettings {
            use_default_model_settings: defaults,
            saved_fast_mode: fast,
            saved_model: Some("gpt".to_string()),
            saved_reasoning_effort: Some("high".to_string()),
        },
    }
}

#[test]
fn sessions_request_only_saved_settings() {
    let e = requested(&profile(false, false), &None).unwrap();
    assert_eq!(e.model.as_deref(), Some("gpt"));
    assert_eq!(e.reasoning_effort.as_deref(), Some("high"));
    assert_eq!(e.service_tier, None);
    let d = requested(&profile(true, true), &None).unwrap();
    assert_eq!(d.model, None);
    assert_eq!(
        requested(&profile(false, true), &None).unwrap_err(),
        StoreError::Invalid("native_service_tier_override")
    );
    assert!(requested(&profile(false, true), &Some("fast".to_string())).is_ok());
    assert_eq!(
        requested(&profile(true, false), &Some("fast".to_string())).unwrap_err(),
        StoreError::Invalid("native_service_tier_override")
    );
}

#[test]
fn mission_runs_take_bounded_limits() {
    let l = mission_limits(&CycleBudget {
        max_cpu_seconds: count(50_000),
        max_wall_seconds: 600,
        max_memory_mib: 8192,
        max_output_bytes: count(1 << 30),
    });
    assert_eq!(l.experiments, 0);
    assert_eq!(l.cpu_seconds.get(), 300);
    assert_eq!(l.wall_seconds, 600);
    assert_eq!(l.memory_mib, 4096);
    assert_eq!(l.output_bytes.get(), 64 * 1024 * 1024);
    let small = mission_limits(&CycleBudget {
        max_cpu_seconds: count(5),
        max_wall_seconds: 1,
        max_memory_mib: 10,
        max_output_bytes: count(7),
    });
    assert_eq!((small.cpu_seconds.get(), small.memory_mib, small.output_bytes.get()), (1, 10, 7));
    assert_eq!(mission_limits(&CycleBudget { max_cpu_seconds: count(1230), max_wall_seconds: 1, max_memory_mib: 1, max_output_bytes: count(1) }).cpu_seconds.get(), 123);
}

fn initial(state: RunState) -> InitialRun {
    InitialRun {
        kind: RunKind::DataValidate,
        has_cycle: true,
        state,
        admission_open: true,
        cycle_state: Some("RUNNING".to_string()),
        researcher_admitted: false,
        validation_proven: true,
    }
}

fn step(r: Result<CycleStep, StoreError>) -> String {
    match r {
        Ok(CycleStep::Done) => "done".to_string(),
        Ok(CycleStep::Retain) => "retain".to_string(),
        Ok(CycleStep::End(s)) => format!("end {}", s),
        Ok(CycleStep::Wait(s)) => format!("wait {}", s),
        Ok(CycleStep::AdmitResearcher) => "admit".to_string(),
        Err(e) => format!("{:?}", e),
    }
}

#[test]
fn a_cycle_advances_after_its_initial_run() {
    assert_eq!(step(advance_initial_cycle(&None)), "done");
    assert_eq!(step(advance_initial_cycle(&Some(initial(RunState::Running)))), "retain");
    assert_eq!(step(advance_initial_cycle(&Some(initial(RunState::Succeeded)))), "admit");
    assert_eq!(step(advance_initial_cycle(&Some(initial(RunState::Cancelled)))), "end CANCELLED");
    assert_eq!(step(advance_initial_cycle(&Some(initial(RunState::Failed)))), "end FAILED");
    let unproven = InitialRun { validation_proven: false, ..initial(RunState::Succeeded) };
    assert_eq!(step(advance_initial_cycle(&Some(unproven))), "wait NATIVE_DATA_VALIDATION_REQUIRED");
    let closed = InitialRun { admission_open: false, ..initial(RunState::Succeeded) };
    assert_eq!(step(advance_initial_cycle(&Some(closed))), "retain");
    let settled = InitialRun { cycle_state: Some("COMPLETED".to_string()), ..initial(RunState::Failed) };
    assert_eq!(step(advance_initial_cycle(&Some(settled))), "done");
    let wrong = InitialRun { kind: RunKind::AlphaEvaluate, ..initial(RunState::Succeeded) };
    assert_eq!(step(advance_initial_cycle(&Some(wrong))), "Integrity");
}

#[test]
fn roles_profiles_and_admission_records() {
    assert_eq!(role_admission("RESEARCHER"), Ok((MissionRole::Researcher, "RESEARCH_MISSION")));
    assert_eq!(
        role_admission("INDEPENDENT_REVIEWER"),
        Ok((MissionRole::IndependentReviewer, "INDEPENDENT_REVIEW"))
    );
    assert_eq!(role_admission("OPERATOR"), Err(StoreError::Integrity));
    assert_eq!(profile_choice(Some(Id(1)), Some(3)), Ok(Some((Id(1), Revision(3)))));
    assert_eq!(profile_choice(None, None), Ok(None));
    assert_eq!(profile_choice(Some(Id(1)), None), Err(StoreError::Integrity));
    assert_eq!(profile_choice(Some(Id(1)), Some(-1)), Err(StoreError::Integrity));
    assert_eq!(admission_record(Ok(())), Ok(AdmissionRecord::Admitted));
    assert_eq!(
        admission_record(Err(StoreError::Domain(DomainError::BudgetExhausted("tokens")))),
        Ok(AdmissionRecord::BudgetExhausted)
    );
    assert_eq!(
        admission_record(Err(StoreError::Domain(DomainError::CapabilityUnavailable("x")))),
        Ok(AdmissionRecord::WaitForInputs)
    );
    assert_eq!(admission_record(Err(StoreError::Conflict)), Err(StoreError::Conflict));
}

#[test]
fn token_limits_stop_spending_once() {
    let r = Some(count(100));
    assert_eq!(
        observe_mission_token_limit(RunKind::AgentResearch, RunState::Running, r, count(100), false, None),
        Ok(TokenLimitStep { record: true, request_cancel: true })
    );
    assert_eq!(
        observe_mission_token_limit(RunKind::AgentResearch, RunState::CancelRequested, r, count(120), false, None),
        Ok(TokenLimitStep { record: true, request_cancel: false })
    );
    assert_eq!(
        observe_mission_token_limit(RunKind::AgentResearch, RunState::Running, r, count(100), true, None),
        Ok(TokenLimitStep { record: false, request_cancel: false })
    );
    assert_eq!(
        observe_mission_token_limit(RunKind::AgentResearch, RunState::Running, r, count(99), false, None),
        Err(StoreError::Invalid("native_token_limit_not_reached"))
    );
    assert_eq!(
        observe_mission_token_limit(RunKind::AgentResearch, RunState::Running, r, count(100), false, Some(50)),
        Err(StoreError::Conflict)
    );
    assert_eq!(
        observe_mission_token_limit(RunKind::AgentResearch, RunState::Running, None, count(100), false, None),
        Err(StoreError::Conflict)
    );
}

#[test]
fn missions_complete_only_when_nothing_is_outstanding() {
    let p = MissionProgress {
        kind: RunKind::AgentResearch,
        researcher: true,
        state: RunState::Running,
        terminal_committed: false,
        answered: true,
        unaccounted: false,
        proposed: false,
        scientific_pending: false,
        alpha_pending: false,
    };
    assert_eq!(complete_research_mission(&p), Ok(Completion::Conclude));
    assert_eq!(complete_research_mission(&MissionProgress { proposed: true, ..p }), Ok(Completion::Outstanding));
    assert_eq!(complete_research_mission(&MissionProgress { answered: false, ..p }), Ok(Completion::Outstanding));
    assert_eq!(
        complete_research_mission(&MissionProgress { state: RunState::Succeeded, terminal_committed: true, ..p }),
        Ok(Completion::Finished)
    );
    assert_eq!(
        complete_research_mission(&MissionProgress { state: RunState::Succeeded, ..p }),
        Err(StoreError::Conflict)
    );
    assert_eq!(
        complete_research_mission(&MissionProgress { researcher: false, ..p }),
        Err(StoreError::Forbidden)
    );
}

fn receipt(thread: &str) -> NativeSessionReceipt {
    NativeSessionReceipt {
        thread_id: thread.to_string(),
        codex_version: "0.1".to_string(),
        protocol_schema_version: "1".to_string(),
        effective: EffectiveSettings {
            model: "gpt".to_string(),
            provider: "openai".to_string(),
            reasoning_effort: Some("high".to_string()),
            service_tier: None,
        },
        requested_service_tier: None,
    }
}

#[test]
fn sessions_bind_once_after_dispatch() {
    let p = profile(false, false);
    match bind_mission_session(RunState::Running, true, &None, &receipt("t"), &p) {
        Ok(SessionStep::Record(e)) => {
            assert_eq!(e.profile_id, Id(1));
            assert_eq!(e.model.as_deref(), Some("gpt"));
        }
        other => panic!("unexpected {:?}", other),
    }
    assert!(matches!(
        bind_mission_session(RunState::Running, true, &Some(receipt("t")), &receipt("t"), &p),
        Ok(SessionStep::Replay)
    ));
    assert!(matches!(
        bind_mission_session(RunState::Running, true, &Some(receipt("t")), &receipt("u"), &p),
        Err(StoreError::Conflict)
    ));
    assert!(matches!(
        bind_mission_session(RunState::Running, false, &None, &receipt("t"), &p),
        Err(StoreError::Conflict)
    ));
    assert!(matches!(
        bind_mission_session(RunState::Failed, true, &None, &receipt("t"), &p),
        Err(StoreError::Domain(DomainError::TerminalRun))
    ));
    assert!(matches!(
        bind_mission_session(RunState::Running, true, &None, &receipt("t"), &profile(false, true)),
        Err(StoreError::Invalid("native_service_tier_override"))
    ));
    assert_eq!(check_mission_runtime(true, 3, 3), Ok(()));
    assert_eq!(
        check_mission_runtime(false, 3, 3),
        Err(StoreError::Domain(DomainError::CapabilityUnavailable("mission_runtime_binding")))
    );
}
