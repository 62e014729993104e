use store::research::check_selection_kind;
use store::error::{DomainError, StoreError};
use store::ids::{DbCounter, Id, UtcTime};
use store::native::DataPartition;
use store::research::{
    check_artifact, check_assumptions, check_authorities, check_comparison, check_cutoff,
    check_dataset, check_item_ordinals, check_page_size, check_project_open,
    check_source_authority, check_validity_range, comparison_purpose, partition_name,
    policy_version, ArtifactRow, DatasetRow, DatasetUse, InputItem, InputPurpose,
    SelectionEvaluationKind, SourceAuthority,
};

fn field(field: &'static str, item: Option<usize>, code: &'static str) -> StoreError {
    StoreError::Domain(DomainError::Fields { field, item, code })
}

fn at(n: i128) -> UtcTime {
    UtcTime { nanos: n }
}

#[test]
fn pages_and_ordinals() {
    assert_eq!(check_page_size(1), Ok(()));
    assert_eq!(check_page_size(100), Ok(()));
    assert_eq!(check_page_size(0), Err(field("limit", None, "PAGE_SIZE")));
    assert_eq!(check_page_size(101), Err(field("limit", None, "PAGE_SIZE")));
    assert_eq!(check_item_ordinals(&vec![0, 1, 2]), Ok(()));
    assert_eq!(check_item_ordinals(&vec![]), Err(StoreError::Integrity));
    assert_eq!(check_item_ordinals(&vec![0, 2]), Err(StoreError::Integrity));
    assert_eq!(check_item_ordinals(&(0..257).collect()), Err(StoreError::Integrity));
    assert_eq!(check_item_ordinals(&(0..256).collect()), Ok(()));
}

#[test]
fn archived_projects_take_no_writes() {
    assert_eq!(check_project_open("ACTIVE"), Ok(()));
    assert_eq!(
        check_project_open("ARCHIVED"),
        Err(StoreError::Domain(DomainError::AdmissionClosed))
    );
    assert_eq!(partition_name(DataPartition::Sealed), "SEALED");
}

fn row(role: &str, pit: &str, available: i128) -> Option<DatasetRow> {
    Some(DatasetRow {
        source: Id(1),
        grant: Id(2),
        partition_role: role.to_string(),
        available_through: at(available),
        pit_status: pit.to_string(),
    })
}

#[test]
fn datasets_fit_role_status_and_cutoff() {
    let used = DatasetUse {
        field: "dataset_revision_id",
        item: Some(3),
        role: DataPartition::Validation,
        cutoff: Some(at(100)),
        purpose: InputPurpose::Validation,
    };
    assert_eq!(check_dataset(&used, &row("VALIDATION", "VERIFIED", 100)), Ok(()));
    let misfit = field("dataset_revision_id", Some(3), "DATASET_PARTITION_OR_ASOF");
    assert_eq!(check_dataset(&used, &row("DISCOVERY", "VERIFIED", 10)), Err(misfit));
    assert_eq!(check_dataset(&used, &row("VALIDATION", "INVALID", 10)), Err(misfit));
    assert_eq!(check_dataset(&used, &row("VALIDATION", "VERIFIED", 101)), Err(misfit));
    assert_eq!(
        check_dataset(&used, &None),
        Err(field("dataset_revision_id", Some(3), "REFERENCE_UNAVAILABLE"))
    );
    let sealed = DatasetUse { cutoff: None, ..used };
    assert_eq!(check_dataset(&sealed, &row("VALIDATION", "UNVERIFIED", 1_000)), Ok(()));
}

#[test]
fn artifacts_bind_project_kind_and_access() {
    let a = Some(ArtifactRow {
        project: Some(Id(1)),
        kind: "MODEL".to_string(),
        access_class: "EVALUATOR_ONLY".to_string(),
    });
    assert_eq!(check_artifact(0, &a, Id(1), "MODEL", InputPurpose::Sealed), Ok(()));
    let binding = field("artifact_id", Some(0), "ARTIFACT_BINDING");
    assert_eq!(check_artifact(0, &a, Id(1), "MODEL", InputPurpose::Validation), Err(binding));
    assert_eq!(check_artifact(0, &a, Id(2), "MODEL", InputPurpose::Sealed), Err(binding));
    assert_eq!(check_artifact(0, &a, Id(1), "CODE", InputPurpose::Sealed), Err(binding));
    assert_eq!(
        check_artifact(4, &None, Id(1), "MODEL", InputPurpose::Sealed),
        Err(field("artifact_id", Some(4), "REFERENCE_UNAVAILABLE"))
    );
}

fn authority() -> SourceAuthority {
    SourceAuthority {
        source_enabled: true,
        runtime_enabled: true,
        grant_source: Id(1),
        grant_valid_from: at(0),
        grant_valid_until: Some(at(100)),
        grant_revoked: false,
        purpose_permitted: true,
    }
}

#[test]
fn sources_need_current_grants() {
    let used = DatasetUse {
        field: "split_policy.sealed_revision_id",
        item: None,
        role: DataPartition::Sealed,
        cutoff: None,
        purpose: InputPurpose::Sealed,
    };
    assert_eq!(check_source_authority(&used, Id(1), &authority(), at(50)), Ok(()));
    let disabled = SourceAuthority { runtime_enabled: false, ..authority() };
    assert_eq!(
        check_source_authority(&used, Id(1), &disabled, at(50)),
        Err(field("split_policy.sealed_revision_id", None, "SOURCE_DISABLED"))
    );
    let denied = field("split_policy.sealed_revision_id", None, "DATA_USE_NOT_AUTHORIZED");
    assert_eq!(check_source_authority(&used, Id(2), &authority(), at(50)), Err(denied));
    assert_eq!(check_source_authority(&used, Id(1), &authority(), at(100)), Err(denied));
    let revoked = SourceAuthority { grant_revoked: true, ..authority() };
    assert_eq!(check_source_authority(&used, Id(1), &revoked, at(50)), Err(denied));
    let early = SourceAuthority { grant_valid_from: at(60), ..authority() };
    assert_eq!(check_source_authority(&used, Id(1), &early, at(50)), Err(denied));
    let purpose = SourceAuthority { purpose_permitted: false, ..authority() };
    assert_eq!(
        check_source_authority(&used, Id(1), &purpose, at(50)),
        Err(field("split_policy.sealed_revision_id", None, "DATA_USE_PURPOSE_NOT_AUTHORIZED"))
    );
    let open = SourceAuthority { grant_valid_until: None, ..authority() };
    assert_eq!(check_source_authority(&used, Id(1), &open, at(5_000)), Ok(()));
    let second = DatasetUse { field: "dataset_revision_id", item: Some(1), ..used };
    assert_eq!(
        check_authorities(
            &vec![used, second],
            &vec![Id(1), Id(1)],
            &vec![authority(), purpose],
            at(50)
        ),
        Err(field("dataset_revision_id", Some(1), "DATA_USE_PURPOSE_NOT_AUTHORIZED"))
    );
    assert_eq!(check_authorities(&vec![], &vec![], &vec![], at(50)), Ok(()));
}

#[test]
fn cutoffs_and_assumptions() {
    assert_eq!(check_cutoff(at(5), at(5)), Ok(()));
    assert_eq!(check_cutoff(at(6), at(5)), Err(field("decision_cutoff", None, "FUTURE_CUTOFF")));
    assert_eq!(check_assumptions(Some(Id(1)), None, Id(1)), Ok(()));
    assert_eq!(
        check_assumptions(Some(Id(1)), Some(Id(2)), Id(1)),
        Err(field("execution_assumptions_id", None, "PROJECT_MISMATCH"))
    );
    assert_eq!(policy_version(7), Ok(7));
    assert_eq!(
        policy_version(i32::MAX as i64 + 1),
        Err(field("version", None, "VERSION_EXHAUSTED"))
    );
}

#[test]
fn validity_periods_stay_representable() {
    let now = UtcTime { nanos: 1_700_000_000 * 1_000_000_000 };
    assert_eq!(check_validity_range(now, DbCounter::new(86_400).unwrap()), Ok(()));
    assert_eq!(
        check_validity_range(now, DbCounter::new(9_223_372_036_854_775).unwrap()),
        Err(field("validity_seconds", None, "TIME_RANGE"))
    );
    assert_eq!(
        check_validity_range(now, DbCounter::new(9_223_372_036_854_776).unwrap()),
        Err(field("validity_seconds", None, "TIME_RANGE"))
    );
}

#[test]
fn comparison_sets_match_the_selection_kind() {
    assert_eq!(comparison_purpose(SelectionEvaluationKind::WalkForward), InputPurpose::Validation);
    let sealed = Id(9);
    let items = vec![
        InputItem::Artifact { artifact_id: Id(1), role: "MODEL".to_string() },
        InputItem::Dataset { dataset_revision_id: sealed, role: DataPartition::Sealed },
    ];
    assert_eq!(
        check_comparison(Id(1), InputPurpose::Sealed, &items, Id(1), SelectionEvaluationKind::Sealed, sealed),
        Ok(())
    );
    assert_eq!(
        check_comparison(Id(2), InputPurpose::Sealed, &items, Id(1), SelectionEvaluationKind::Sealed, sealed),
        Err(field("comparison_input_set_id", None, "PROJECT_MISMATCH"))
    );
    assert_eq!(
        check_comparison(Id(1), InputPurpose::Validation, &items, Id(1), SelectionEvaluationKind::Sealed, sealed),
        Err(field("comparison_input_set_id", None, "EVALUATION_PURPOSE_MISMATCH"))
    );
    assert_eq!(
        check_comparison(
            Id(1),
            InputPurpose::Validation,
            &items,
            Id(1),
            SelectionEvaluationKind::WalkForward,
            sealed
        ),
        Err(field("split_policy.sealed_revision_id", None, "SEALED_COMPARISON_BINDING"))
    );
}

#[test]
fn selection_uses_walk_forward_evidence_only() {
    assert_eq!(check_selection_kind(SelectionEvaluationKind::WalkForward), Ok(()));
    assert_eq!(
        check_selection_kind(SelectionEvaluationKind::Sealed),
        Err(StoreError::Domain(DomainError::CapabilityUnavailable("sealed_trial_selection")))
    );
}
