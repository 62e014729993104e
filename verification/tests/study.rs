use store::release::combine_origin;
use store::error::{DomainError, StoreError};
use store::ids::{DbCounter, Id, UtcTime};
use store::native::RuntimeInput;
use store::portfolio_build::{EngineVersion, ForwardDataset};
use store::release::{
    check_real_candidate, check_real_sources, package_limitation, check_release_recheck, release_window, DataOrigin,
    ReleaseDeadlines,
};
use store::simulation::{
    check_simulation_runtime, check_simulation_source, check_targets_current, simulation_window,
};
use store::study::{
    check_calendar_engine, check_rolling_liquidity, check_study_dataset, check_study_engines,
    check_study_policy, check_study_source, research_available_through, study_inputs, study_sources_until,
    CandidateSource, StudyDataset, StudyPolicy,
};

fn engine(name: &str, version: &str) -> EngineVersion {
    EngineVersion { name: name.to_string(), version: version.to_string() }
}

fn count(n: u64) -> DbCounter {
    DbCounter::new(n).unwrap()
}

fn unavailable(reason: &'static str) -> StoreError {
    StoreError::Domain(DomainError::CapabilityUnavailable(reason))
}

fn study_engines() -> Vec<EngineVersion> {
    vec![
        engine("portfolio-study", "6"),
        engine("portfolio-history", "1"),
        engine("portfolio-models", "4"),
        engine("portfolio-cost-source", "1"),
        engine("portfolio-slippage", "1"),
        engine("simulation-models", "1"),
        engine("nautilus", "1.2"),
        engine("clarabel", "0.9"),
        engine("ndarray", "0.16"),
        engine("ndarray-stats", "0.6"),
    ]
}

#[test]
fn studies_need_every_engine() {
    assert_eq!(check_study_engines(&study_engines(), "1.2", "0.9", "0.16", "0.6"), Ok(()));
    assert_eq!(
        check_study_engines(&study_engines(), "1.3", "0.9", "0.16", "0.6"),
        Err(unavailable("portfolio_study_engines"))
    );
    assert_eq!(
        check_study_engines(&study_engines()[1..].to_vec(), "1.2", "0.9", "0.16", "0.6"),
        Err(unavailable("portfolio_study_engines"))
    );
}

fn source() -> CandidateSource {
    CandidateSource {
        cycle_policy: Id(1),
        required_policy: Id(1),
        build_runtime: Id(2),
        requested_runtime: Id(2),
        build_mandate: Id(3),
        mandate: Id(3),
    }
}

#[test]
fn studies_and_simulations_follow_their_candidate() {
    assert_eq!(check_study_source(&source()), Ok(()));
    let moved = CandidateSource { requested_runtime: Id(9), ..source() };
    assert_eq!(check_study_source(&moved), Err(StoreError::Invalid("portfolio_study_source")));
    assert_eq!(check_simulation_source(&source()), Ok(()));
    assert_eq!(
        check_simulation_source(&moved),
        Err(StoreError::Invalid("candidate_simulation_source"))
    );
    let policy = StudyPolicy { has_plan: true, project: Id(7), has_portfolio_metrics: true };
    assert_eq!(check_study_policy(&policy, Id(7)), Ok(()));
    assert_eq!(
        check_study_policy(&StudyPolicy { has_plan: false, ..policy }, Id(7)),
        Err(StoreError::Invalid("portfolio_study_plan_required"))
    );
    assert_eq!(
        check_study_policy(&StudyPolicy { has_portfolio_metrics: false, ..policy }, Id(7)),
        Err(StoreError::Invalid("portfolio_study_policy"))
    );
    assert_eq!(check_study_policy(&policy, Id(8)), Err(StoreError::Invalid("portfolio_study_policy")));
}

fn study_dataset(start: u64, end: u64) -> StudyDataset {
    StudyDataset {
        dataset: ForwardDataset {
            origin: "REAL".to_string(),
            pit_status: "VERIFIED".to_string(),
            revision_policy: "AS_KNOWN_THEN".to_string(),
            universe_version: Id(1),
        },
        selection_start_ns: count(start),
        selection_end_ns: count(end),
        event_start: UtcTime { nanos: 10 },
        event_end: UtcTime { nanos: 20 },
    }
}

#[test]
fn studies_keep_the_whole_registered_window() {
    assert_eq!(check_study_dataset(&vec![study_dataset(10, 20)], Id(1)), Ok(()));
    assert_eq!(
        check_study_dataset(&vec![study_dataset(11, 20)], Id(1)),
        Err(StoreError::Invalid("portfolio_study_source_window"))
    );
    assert_eq!(
        check_study_dataset(&vec![study_dataset(10, 19)], Id(1)),
        Err(StoreError::Invalid("portfolio_study_source_window"))
    );
    assert_eq!(
        check_study_dataset(&vec![], Id(1)),
        Err(StoreError::Invalid("portfolio_study_dataset"))
    );
    assert_eq!(
        check_study_dataset(&vec![study_dataset(10, 20)], Id(2)),
        Err(StoreError::Invalid("portfolio_study_universe"))
    );
    let mut synthetic = study_dataset(10, 20);
    synthetic.dataset.origin = "SYNTHETIC".to_string();
    assert_eq!(
        check_study_dataset(&vec![synthetic], Id(1)),
        Err(StoreError::Invalid("portfolio_study_real_pit"))
    );
    let mut early = study_dataset(10, 20);
    early.event_start = UtcTime { nanos: -5 };
    assert_eq!(check_study_dataset(&vec![early], Id(1)), Err(StoreError::Integrity));
}

#[test]
fn research_availability_is_the_latest() {
    assert_eq!(research_available_through(&vec![count(3), count(9), count(5)]).get(), 9);
    assert_eq!(research_available_through(&vec![]).get(), 0);
}

fn artifact(id: u128) -> RuntimeInput {
    RuntimeInput::Artifact {
        artifact_id: Id(id),
        storage_version: "1".to_string(),
        byte_count: count(1),
        role: "MODEL".to_string(),
    }
}

#[test]
fn study_liquidity_calendar_and_inputs() {
    let e = vec![engine("portfolio-rolling-liquidity", "1"), engine("bar-notional", "1")];
    assert_eq!(check_rolling_liquidity(&artifact(4), Some(Id(4)), &e), Ok(()));
    assert_eq!(check_rolling_liquidity(&artifact(4), Some(Id(5)), &e), Err(StoreError::Integrity));
    assert_eq!(
        check_rolling_liquidity(&artifact(4), Some(Id(4)), &e[..1].to_vec()),
        Err(unavailable("portfolio_study_liquidity"))
    );
    assert_eq!(check_calendar_engine(false, &vec![]), Ok(()));
    assert_eq!(
        check_calendar_engine(true, &vec![engine("portfolio-calendar", "1")]),
        Err(unavailable("portfolio_study_calendar"))
    );
    assert_eq!(check_calendar_engine(true, &vec![engine("portfolio-calendar", "2")]), Ok(()));
    let inputs: Vec<RuntimeInput> = (0..300).map(|i| artifact(i % 255)).collect();
    assert_eq!(study_inputs(inputs).unwrap().len(), 255);
    let inputs: Vec<RuntimeInput> = (0..256).map(artifact).collect();
    assert_eq!(study_inputs(inputs).unwrap_err(), StoreError::Invalid("portfolio_study_inputs"));
}

#[test]
fn simulations_hold_targets_only_while_valid() {
    assert_eq!(check_simulation_runtime("img", "img", &vec![engine("candidate-simulation", "1"), engine("simulation-models", "1")]), Ok(()));
    assert_eq!(
        check_simulation_runtime("img", "other", &vec![engine("candidate-simulation", "1"), engine("simulation-models", "1")]),
        Err(unavailable("candidate_simulation_source"))
    );
    let w = simulation_window(count(5), count(100), count(10), UtcTime { nanos: 50 }).unwrap();
    assert_eq!((w.event_start_ns.get(), w.event_end_ns.get(), w.valid_until_ns.get()), (10, 50, 50));
    let w = simulation_window(count(5), count(40), count(10), UtcTime { nanos: 50 }).unwrap();
    assert_eq!(w.event_end_ns.get(), 40);
    assert_eq!(
        simulation_window(count(11), count(100), count(10), UtcTime { nanos: 50 }),
        Err(StoreError::Invalid("candidate_simulation_start_coverage"))
    );
    assert_eq!(
        simulation_window(count(1), count(100), count(10), UtcTime { nanos: -1 }),
        Err(StoreError::Integrity)
    );
    assert_eq!(check_targets_current(UtcTime { nanos: 1 }, UtcTime { nanos: 2 }), Ok(()));
    assert_eq!(
        check_targets_current(UtcTime { nanos: 2 }, UtcTime { nanos: 2 }),
        Err(StoreError::Invalid("candidate_simulation_expired"))
    );
}

fn deadlines() -> ReleaseDeadlines {
    ReleaseDeadlines {
        sources_until: UtcTime { nanos: 90_000 },
        evaluation_until: UtcTime { nanos: 80_000 },
        targets_until: UtcTime { nanos: 70_000 },
        weights_until_ns: count(60_500),
        rolling_until: None,
        liquidity_until: None,
    }
}

#[test]
fn packages_end_at_their_earliest_deadline() {
    let (from, until) = release_window(&deadlines(), UtcTime { nanos: 1_000 }, UtcTime { nanos: 500 }).unwrap();
    assert_eq!(from.nanos, 1_000);
    assert_eq!(until.nanos, 60_000);
    let rolling = ReleaseDeadlines { rolling_until: Some(UtcTime { nanos: 30_000 }), ..deadlines() };
    let (from, until) = release_window(&rolling, UtcTime { nanos: 1_000 }, UtcTime { nanos: 2_000 }).unwrap();
    assert_eq!((from.nanos, until.nanos), (2_000, 30_000));
    let liquid = ReleaseDeadlines { liquidity_until: Some(UtcTime { nanos: 20_000 }), ..rolling };
    assert_eq!(
        release_window(&liquid, UtcTime { nanos: 1_000 }, UtcTime { nanos: 20_000 }),
        Err(StoreError::Invalid("release_expired"))
    );
    assert_eq!(check_release_recheck(true, UtcTime { nanos: 5 }, UtcTime { nanos: 4 }), Ok(()));
    assert_eq!(check_release_recheck(false, UtcTime { nanos: 5 }, UtcTime { nanos: 4 }), Err(StoreError::Conflict));
    assert_eq!(check_release_recheck(true, UtcTime { nanos: 5 }, UtcTime { nanos: 5 }), Err(StoreError::Conflict));
}

#[test]
fn releases_rest_on_real_data() {
    assert_eq!(check_real_candidate(DataOrigin::Real, DataOrigin::Real), Ok(()));
    assert_eq!(
        check_real_candidate(DataOrigin::Synthetic, DataOrigin::Real),
        Err(StoreError::Invalid("release_real_candidate"))
    );
    let real = ForwardDataset {
        origin: "REAL".to_string(),
        pit_status: "VERIFIED".to_string(),
        revision_policy: "AS_KNOWN_THEN".to_string(),
        universe_version: Id(1),
    };
    assert_eq!(check_real_sources(&vec![real.clone()]), Ok(()));
    assert_eq!(check_real_sources(&vec![]), Err(StoreError::Invalid("release_real_sources")));
    let mut revised = real.clone();
    revised.revision_policy = "LATEST".to_string();
    assert_eq!(
        check_real_sources(&vec![real, revised]),
        Err(StoreError::Invalid("release_real_sources"))
    );
}

#[test]
fn origins_combine_to_the_weakest() {
    assert_eq!(combine_origin(DataOrigin::Real, DataOrigin::Real), DataOrigin::Real);
    assert_eq!(combine_origin(DataOrigin::Real, DataOrigin::Synthetic), DataOrigin::Synthetic);
    assert_eq!(combine_origin(DataOrigin::Fixture, DataOrigin::Synthetic), DataOrigin::Fixture);
    assert_eq!(combine_origin(DataOrigin::Fixture, DataOrigin::LegacyUnknown), DataOrigin::LegacyUnknown);
}

#[test]
fn packages_deliver_targets_not_orders() {
    assert_eq!(
        package_limitation("ESTIMATED"),
        "Cost assumptions: ESTIMATED. Targets are not orders or account positions."
    );
}

#[test]
fn study_sources_hold_until_their_first_deadline() {
    let t = |n: i128| UtcTime { nanos: n };
    let expired = Err(StoreError::Invalid("portfolio_study_source_expired"));
    assert_eq!(study_sources_until(2, 2, &vec![t(50), t(30), t(40)], t(10)), Ok(t(30)));
    assert_eq!(study_sources_until(2, 2, &vec![t(50), t(30), t(40)], t(30)), expired);
    assert_eq!(study_sources_until(2, 1, &vec![t(50)], t(10)), expired);
    assert_eq!(study_sources_until(0, 0, &vec![t(50)], t(10)), expired);
    assert_eq!(study_sources_until(1, 1, &vec![], t(10)), expired);
}
