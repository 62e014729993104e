//! Research preparation: the checks an input set and an evaluation policy pass
//! before they are frozen. Membership in an input set grants nothing by itself:
//! every source, runtime and data-use grant is checked again under its lock.
use vstd::prelude::*;
use crate::error::{DomainError, StoreError};
use crate::ids::{plus_seconds, DbCounter, Id, UtcTime};
use crate::native::DataPartition;
use crate::text::same_text;

verus! {

/// What an input set is prepared for.
#[derive(Clone, Copy, Debug, PartialEq, Eq, Structural)]
pub enum InputPurpose {
    Discovery,
    Validation,
    Sealed,
    Portfolio,
    Forward,
}

/// How a selection policy compares its candidates.
#[derive(Clone, Copy, Debug, PartialEq, Eq, Structural)]
pub enum SelectionEvaluationKind {
    WalkForward,
    Sealed,
}

/// One member of an input set.
#[derive(Clone, Debug)]
pub enum InputItem {
    Dataset { dataset_revision_id: Id, role: DataPartition },
    Artifact { artifact_id: Id, role: String },
}

/// The refusal of field `field`, of list entry `item` where there is one.
pub open spec fn refusal(field: &'static str, item: Option<usize>, code: &'static str) -> StoreError {
    StoreError::Domain(DomainError::Fields { field, item, code })
}

/// A page holds one to a hundred entries.
pub fn check_page_size(limit: u32) -> (r: Result<(), StoreError>)
    ensures
        (1 <= limit <= 100) ==> r == Ok::<(), StoreError>(()),
        !(1 <= limit <= 100) ==> r == Err::<(), StoreError>(refusal("limit", None, "PAGE_SIZE")),
{
    if limit < 1 || limit > 100 {
        return Err(
            StoreError::Domain(DomainError::Fields { field: "limit", item: None, code: "PAGE_SIZE" }),
        );
    }
    Ok(())
}

/// A frozen input set holds one to 256 items, numbered from zero in order.
pub open spec fn ordinals_intact(ordinals: Seq<i32>) -> bool {
    &&& 1 <= ordinals.len() <= 256
    &&& forall|i: int| 0 <= i < ordinals.len() ==> #[trigger] ordinals[i] == i
}

/// A frozen input set is intact exactly when it holds one to 256 items and
/// the item at every position carries that position as its ordinal: one item
/// out of place anywhere breaks it.
pub proof fn ordinal_out_of_place_breaks_the_set(ordinals: Seq<i32>)
    ensures
        forall|i: int| 0 <= i < ordinals.len() && #[trigger] ordinals[i] != i ==> !ordinals_intact(ordinals),
        (ordinals.len() == 0 || ordinals.len() > 256) ==> !ordinals_intact(ordinals),
        (1 <= ordinals.len() <= 256 && forall|i: int| 0 <= i < ordinals.len() ==> #[trigger] ordinals[i] == i)
            ==> ordinals_intact(ordinals),
{
}

pub fn check_item_ordinals(ordinals: &Vec<i32>) -> (r: Result<(), StoreError>)
    ensures
        forall|i: int| 0 <= i < ordinals@.len() && #[trigger] ordinals@[i] != i ==> r == Err::<
            (),
            StoreError,
        >(StoreError::Integrity),
        (ordinals@.len() == 0 || ordinals@.len() > 256) ==> r == Err::<(), StoreError>(
            StoreError::Integrity,
        ),
        ordinals_intact(ordinals@) ==> r == Ok::<(), StoreError>(()),
        !ordinals_intact(ordinals@) ==> r == Err::<(), StoreError>(StoreError::Integrity),
{
    if ordinals.len() < 1 || ordinals.len() > 256 {
        return Err(StoreError::Integrity);
    }
    let mut i: usize = 0;
    while i < ordinals.len()
        invariant
            i <= ordinals@.len() <= 256,
            forall|k: int| 0 <= k < i ==> #[trigger] ordinals@[k] == k,
        decreases ordinals@.len() - i,
    {
        if ordinals[i] != i as i32 {
            return Err(StoreError::Integrity);
        }
        i = i + 1;
    }
    Ok(())
}

/// Writes go only to a project that is not archived.
pub fn check_project_open(state: &str) -> (r: Result<(), StoreError>)
    ensures
        state@ != "ARCHIVED"@ ==> r == Ok::<(), StoreError>(()),
        state@ == "ARCHIVED"@ ==> r == Err::<(), StoreError>(
            StoreError::Domain(DomainError::AdmissionClosed),
        ),
{
    if same_text(state, "ARCHIVED") {
        return Err(StoreError::Domain(DomainError::AdmissionClosed));
    }
    Ok(())
}

/// The stored code of a partition role.
pub open spec fn partition_code(role: DataPartition) -> Seq<char> {
    match role {
        DataPartition::Discovery => "DISCOVERY"@,
        DataPartition::Validation => "VALIDATION"@,
        DataPartition::Sealed => "SEALED"@,
        DataPartition::Forward => "FORWARD"@,
    }
}

pub fn partition_name(role: DataPartition) -> (r: &'static str)
    ensures
        r@ == partition_code(role),
{
    match role {
        DataPartition::Discovery => "DISCOVERY",
        DataPartition::Validation => "VALIDATION",
        DataPartition::Sealed => "SEALED",
        DataPartition::Forward => "FORWARD",
    }
}

/// One dataset revision an input set (or a policy's sealed split) uses, with
/// the field that names it.
#[derive(Clone, Copy, Debug)]
pub struct DatasetUse {
    pub field: &'static str,
    pub item: Option<usize>,
    pub role: DataPartition,
    pub cutoff: Option<UtcTime>,
    pub purpose: InputPurpose,
}

/// A registered dataset revision, as read for a check.
#[derive(Clone, Debug)]
pub struct DatasetRow {
    pub source: Id,
    pub grant: Id,
    pub partition_role: String,
    pub available_through: UtcTime,
    pub pit_status: String,
}

/// The revision is registered for the role it is used in, its point-in-time
/// status is not invalid, and it was available by the decision cutoff.
pub open spec fn dataset_fits(used: DatasetUse, row: DatasetRow) -> bool {
    &&& row.partition_role@ == partition_code(used.role)
    &&& row.pit_status@ != "INVALID"@
    &&& (used.cutoff matches Some(c) ==> row.available_through.nanos <= c.nanos)
}

pub open spec fn dataset_check(used: DatasetUse, row: Option<DatasetRow>) -> Result<(), StoreError> {
    match row {
        None => Err(refusal(used.field, used.item, "REFERENCE_UNAVAILABLE")),
        Some(r) => if dataset_fits(used, r) {
            Ok(())
        } else {
            Err(refusal(used.field, used.item, "DATASET_PARTITION_OR_ASOF"))
        },
    }
}

pub fn check_dataset(used: &DatasetUse, row: &Option<DatasetRow>) -> (r: Result<(), StoreError>)
    ensures
        r == dataset_check(*used, *row),
{
    match row {
        None => Err(
            StoreError::Domain(
                DomainError::Fields {
                    field: used.field,
                    item: used.item,
                    code: "REFERENCE_UNAVAILABLE",
                },
            ),
        ),
        Some(r) => {
            let late = match used.cutoff {
                Some(c) => c.is_before(&r.available_through),
                None => false,
            };
            if !same_text(r.partition_role.as_str(), partition_name(used.role)) || same_text(
                r.pit_status.as_str(),
                "INVALID",
            ) || late {
                return Err(
                    StoreError::Domain(
                        DomainError::Fields {
                            field: used.field,
                            item: used.item,
                            code: "DATASET_PARTITION_OR_ASOF",
                        },
                    ),
                );
            }
            Ok(())
        },
    }
}

/// A registered artifact, as read for a check.
#[derive(Clone, Debug)]
pub struct ArtifactRow {
    pub project: Option<Id>,
    pub kind: String,
    pub access_class: String,
}

/// An artifact belongs to the project, is of the kind its role names, and is
/// evaluator-only only in a sealed input set.
pub open spec fn artifact_fits(
    row: ArtifactRow,
    project: Id,
    role: Seq<char>,
    purpose: InputPurpose,
) -> bool {
    &&& row.project == Some(project)
    &&& row.kind@ == role
    &&& (row.access_class@ == "EVALUATOR_ONLY"@ ==> purpose == InputPurpose::Sealed)
}

pub fn check_artifact(
    item: usize,
    row: &Option<ArtifactRow>,
    project: Id,
    role: &str,
    purpose: InputPurpose,
) -> (r: Result<(), StoreError>)
    ensures
        row is None ==> r == Err::<(), StoreError>(
            refusal("artifact_id", Some(item), "REFERENCE_UNAVAILABLE"),
        ),
        (*row) matches Some(a) ==> (artifact_fits(a, project, role@, purpose) ==> r == Ok::<
            (),
            StoreError,
        >(())) && (!artifact_fits(a, project, role@, purpose) ==> r == Err::<(), StoreError>(
            refusal("artifact_id", Some(item), "ARTIFACT_BINDING"),
        )),
{
    match row {
        None => Err(
            StoreError::Domain(
                DomainError::Fields {
                    field: "artifact_id",
                    item: Some(item),
                    code: "REFERENCE_UNAVAILABLE",
                },
            ),
        ),
        Some(a) => {
            let own = match a.project {
                Some(p) => p == project,
                None => false,
            };
            if !own || !same_text(a.kind.as_str(), role) || (same_text(
                a.access_class.as_str(),
                "EVALUATOR_ONLY",
            ) && purpose != InputPurpose::Sealed) {
                return Err(
                    StoreError::Domain(
                        DomainError::Fields {
                            field: "artifact_id",
                            item: Some(item),
                            code: "ARTIFACT_BINDING",
                        },
                    ),
                );
            }
            Ok(())
        },
    }
}

/// A decision cutoff may not lie in the future.
pub fn check_cutoff(cutoff: UtcTime, now: UtcTime) -> (r: Result<(), StoreError>)
    ensures
        cutoff.nanos <= now.nanos ==> r == Ok::<(), StoreError>(()),
        cutoff.nanos > now.nanos ==> r == Err::<(), StoreError>(
            refusal("decision_cutoff", None, "FUTURE_CUTOFF"),
        ),
{
    if now.is_before(&cutoff) {
        return Err(
            StoreError::Domain(
                DomainError::Fields { field: "decision_cutoff", item: None, code: "FUTURE_CUTOFF" },
            ),
        );
    }
    Ok(())
}

/// What stands behind one dataset's source at the time of the check.
#[derive(Clone, Copy, Debug)]
pub struct SourceAuthority {
    pub source_enabled: bool,
    pub runtime_enabled: bool,
    pub grant_source: Id,
    pub grant_valid_from: UtcTime,
    pub grant_valid_until: Option<UtcTime>,
    pub grant_revoked: bool,
    /// Whether the grant's allowed uses permit preparing this purpose.
    pub purpose_permitted: bool,
}

/// The grant is the source's, has begun, has not ended and is not revoked.
pub open spec fn grant_current(authority: SourceAuthority, source: Id, now: UtcTime) -> bool {
    &&& authority.grant_source == source
    &&& authority.grant_valid_from.nanos <= now.nanos
    &&& (authority.grant_valid_until matches Some(end) ==> now.nanos < end.nanos)
    &&& !authority.grant_revoked
}

pub open spec fn authority_check(
    used: DatasetUse,
    source: Id,
    authority: SourceAuthority,
    now: UtcTime,
) -> Result<(), StoreError> {
    if !authority.source_enabled || !authority.runtime_enabled {
        Err(refusal(used.field, used.item, "SOURCE_DISABLED"))
    } else if !grant_current(authority, source, now) {
        Err(refusal(used.field, used.item, "DATA_USE_NOT_AUTHORIZED"))
    } else if !authority.purpose_permitted {
        Err(refusal(used.field, used.item, "DATA_USE_PURPOSE_NOT_AUTHORIZED"))
    } else {
        Ok(())
    }
}

/// The current authority behind a dataset: its source and runtime are enabled,
/// and a current, unrevoked grant of that source permits the purpose.
pub fn check_source_authority(
    used: &DatasetUse,
    source: Id,
    authority: &SourceAuthority,
    now: UtcTime,
) -> (r: Result<(), StoreError>)
    ensures
        r == authority_check(*used, source, *authority, now),
{
    if !authority.source_enabled || !authority.runtime_enabled {
        return Err(
            StoreError::Domain(
                DomainError::Fields { field: used.field, item: used.item, code: "SOURCE_DISABLED" },
            ),
        );
    }
    let ended = match authority.grant_valid_until {
        Some(end) => !now.is_before(&end),
        None => false,
    };
    if authority.grant_source != source || now.is_before(&authority.grant_valid_from) || ended
        || authority.grant_revoked {
        return Err(
            StoreError::Domain(
                DomainError::Fields {
                    field: used.field,
                    item: used.item,
                    code: "DATA_USE_NOT_AUTHORIZED",
                },
            ),
        );
    }
    if !authority.purpose_permitted {
        return Err(
            StoreError::Domain(
                DomainError::Fields {
                    field: used.field,
                    item: used.item,
                    code: "DATA_USE_PURPOSE_NOT_AUTHORIZED",
                },
            ),
        );
    }
    Ok(())
}

/// The first refusal among the datasets' authorities, in the order they are used.
pub open spec fn authorities_check(
    uses: Seq<DatasetUse>,
    sources: Seq<Id>,
    authorities: Seq<SourceAuthority>,
    now: UtcTime,
) -> Result<(), StoreError>
    decreases uses.len(),
{
    if uses.len() == 0 {
        Ok(())
    } else {
        match authorities_check(uses.drop_last(), sources, authorities, now) {
            Err(e) => Err(e),
            Ok(()) => {
                let i = uses.len() - 1;
                authority_check(uses[i], sources[i], authorities[i], now)
            },
        }
    }
}

/// Every dataset of the set, at whatever position, is checked against the
/// authority behind it: the set passes exactly when each does, and a refusal
/// is the refusal of the first dataset that fails.
pub proof fn every_dataset_is_checked(
    uses: Seq<DatasetUse>,
    sources: Seq<Id>,
    authorities: Seq<SourceAuthority>,
    now: UtcTime,
)
    requires
        uses.len() == sources.len(),
        uses.len() == authorities.len(),
    ensures
        authorities_check(uses, sources, authorities, now) is Ok <==> forall|i: int|
            0 <= i < uses.len() ==> (#[trigger] authority_check(uses[i], sources[i], authorities[i], now))
                is Ok,
        authorities_check(uses, sources, authorities, now) matches Err(e) ==> exists|i: int|
            0 <= i < uses.len() && #[trigger] authority_check(uses[i], sources[i], authorities[i], now)
                == Err::<(), StoreError>(e) && forall|k: int|
                0 <= k < i ==> (#[trigger] authority_check(uses[k], sources[k], authorities[k], now)) is Ok,
    decreases uses.len(),
{
    if uses.len() > 0 {
        let n = uses.len() - 1;
        every_dataset_is_checked(uses.drop_last(), sources.drop_last(), authorities.drop_last(), now);
        assert forall|i: int| 0 <= i < n implies uses.drop_last()[i] == uses[i] && sources.drop_last()[i]
            == sources[i] && authorities.drop_last()[i] == authorities[i] by {}
        assert(authorities_check(uses.drop_last(), sources, authorities, now) == authorities_check(
            uses.drop_last(),
            sources.drop_last(),
            authorities.drop_last(),
            now,
        )) by {
            lemma_check_ignores_tail(uses.drop_last(), sources, authorities, sources.drop_last(), authorities.drop_last(), now);
        }
    }
}

proof fn lemma_check_ignores_tail(
    uses: Seq<DatasetUse>,
    sources: Seq<Id>,
    authorities: Seq<SourceAuthority>,
    sources2: Seq<Id>,
    authorities2: Seq<SourceAuthority>,
    now: UtcTime,
)
    requires
        uses.len() <= sources.len(),
        uses.len() <= authorities.len(),
        uses.len() <= sources2.len(),
        uses.len() <= authorities2.len(),
        forall|i: int| 0 <= i < uses.len() ==> sources[i] == sources2[i] && authorities[i] == authorities2[i],
    ensures
        authorities_check(uses, sources, authorities, now) == authorities_check(uses, sources2, authorities2, now),
    decreases uses.len(),
{
    if uses.len() > 0 {
        lemma_check_ignores_tail(uses.drop_last(), sources, authorities, sources2, authorities2, now);
    }
}

/// Every dataset of the set, checked in order against the authority behind it.
pub fn check_authorities(
    uses: &Vec<DatasetUse>,
    sources: &Vec<Id>,
    authorities: &Vec<SourceAuthority>,
    now: UtcTime,
) -> (r: Result<(), StoreError>)
    requires
        uses@.len() == sources@.len(),
        uses@.len() == authorities@.len(),
    ensures
        r == authorities_check(uses@, sources@, authorities@, now),
{
    let mut i: usize = 0;
    while i < uses.len()
        invariant
            i <= uses@.len(),
            uses@.len() == sources@.len(),
            uses@.len() == authorities@.len(),
            authorities_check(uses@.subrange(0, i as int), sources@, authorities@, now) == Ok::<
                (),
                StoreError,
            >(()),
        decreases uses@.len() - i,
    {
        proof {
            assert(uses@.subrange(0, i + 1).drop_last() =~= uses@.subrange(0, i as int));
        }
        match check_source_authority(&uses[i], sources[i], &authorities[i], now) {
            Ok(()) => {},
            Err(e) => {
                proof {
                    lemma_authorities_prefix(uses@, sources@, authorities@, now, i as int + 1);
                }
                return Err(e);
            },
        }
        i = i + 1;
    }
    proof {
        assert(uses@.subrange(0, uses@.len() as int) =~= uses@);
    }
    Ok(())
}

/// A refusal within a prefix is the refusal of the whole.
proof fn lemma_authorities_prefix(
    uses: Seq<DatasetUse>,
    sources: Seq<Id>,
    authorities: Seq<SourceAuthority>,
    now: UtcTime,
    n: int,
)
    requires
        0 <= n <= uses.len(),
        authorities_check(uses.subrange(0, n), sources, authorities, now) is Err,
    ensures
        authorities_check(uses, sources, authorities, now) == authorities_check(
            uses.subrange(0, n),
            sources,
            authorities,
            now,
        ),
    decreases uses.len() - n,
{
    if n == uses.len() {
        assert(uses.subrange(0, n) =~= uses);
    } else {
        assert(uses.subrange(0, n + 1).drop_last() =~= uses.subrange(0, n));
        assert(authorities_check(uses.subrange(0, n + 1), sources, authorities, now)
            == authorities_check(uses.subrange(0, n), sources, authorities, now));
        lemma_authorities_prefix(uses, sources, authorities, now, n + 1);
    }
}

/// The purpose a comparison input set must have for a selection kind.
pub open spec fn comparison_purpose_of(kind: SelectionEvaluationKind) -> InputPurpose {
    match kind {
        SelectionEvaluationKind::WalkForward => InputPurpose::Validation,
        SelectionEvaluationKind::Sealed => InputPurpose::Sealed,
    }
}

pub fn comparison_purpose(kind: SelectionEvaluationKind) -> (r: InputPurpose)
    ensures
        r == comparison_purpose_of(kind),
{
    match kind {
        SelectionEvaluationKind::WalkForward => InputPurpose::Validation,
        SelectionEvaluationKind::Sealed => InputPurpose::Sealed,
    }
}

pub open spec fn binds_dataset(items: Seq<InputItem>, revision: Id) -> bool {
    exists|i: int|
        0 <= i < items.len() && (#[trigger] items[i] matches InputItem::Dataset {
            dataset_revision_id,
            ..
        } && dataset_revision_id == revision)
}

/// An input set binds a revision exactly when some item, at whatever position,
/// is a dataset item of that revision.
pub proof fn dataset_bound_anywhere(items: Seq<InputItem>, revision: Id)
    ensures
        forall|i: int|
            0 <= i < items.len() && (#[trigger] items[i] matches InputItem::Dataset {
                dataset_revision_id,
                ..
            } && dataset_revision_id == revision) ==> binds_dataset(items, revision),
        binds_dataset(items, revision) ==> exists|i: int|
            0 <= i < items.len() && (#[trigger] items[i] matches InputItem::Dataset {
                dataset_revision_id,
                ..
            } && dataset_revision_id == revision),
{
}

fn has_dataset(items: &Vec<InputItem>, revision: Id) -> (r: bool)
    ensures
        r == binds_dataset(items@, revision),
{
    let mut i: usize = 0;
    while i < items.len()
        invariant
            i <= items@.len(),
            forall|k: int|
                0 <= k < i ==> !(#[trigger] items@[k] matches InputItem::Dataset {
                    dataset_revision_id,
                    ..
                } && dataset_revision_id == revision),
        decreases items@.len() - i,
    {
        if let InputItem::Dataset { dataset_revision_id, .. } = &items[i] {
            if *dataset_revision_id == revision {
                return true;
            }
        }
        i = i + 1;
    }
    false
}

pub open spec fn comparison_check(
    comparison_project: Id,
    comparison_purpose: InputPurpose,
    items: Seq<InputItem>,
    project: Id,
    kind: SelectionEvaluationKind,
    sealed_revision: Id,
) -> Result<(), StoreError> {
    if comparison_project != project {
        Err(refusal("comparison_input_set_id", None, "PROJECT_MISMATCH"))
    } else if comparison_purpose != comparison_purpose_of(kind) {
        Err(refusal("comparison_input_set_id", None, "EVALUATION_PURPOSE_MISMATCH"))
    } else if (kind == SelectionEvaluationKind::Sealed) != binds_dataset(items, sealed_revision) {
        Err(refusal("split_policy.sealed_revision_id", None, "SEALED_COMPARISON_BINDING"))
    } else {
        Ok(())
    }
}

/// A policy's comparison input set is the project's, prepared for the policy's
/// kind of evaluation, and holds the sealed revision exactly when the policy
/// selects on sealed evidence.
pub fn check_comparison(
    comparison_project: Id,
    comparison_purpose: InputPurpose,
    items: &Vec<InputItem>,
    project: Id,
    kind: SelectionEvaluationKind,
    sealed_revision: Id,
) -> (r: Result<(), StoreError>)
    ensures
        r == comparison_check(
            comparison_project,
            comparison_purpose,
            items@,
            project,
            kind,
            sealed_revision,
        ),
{
    if comparison_project != project {
        return Err(
            StoreError::Domain(
                DomainError::Fields {
                    field: "comparison_input_set_id",
                    item: None,
                    code: "PROJECT_MISMATCH",
                },
            ),
        );
    }
    if comparison_purpose != self::comparison_purpose(kind) {
        return Err(
            StoreError::Domain(
                DomainError::Fields {
                    field: "comparison_input_set_id",
                    item: None,
                    code: "EVALUATION_PURPOSE_MISMATCH",
                },
            ),
        );
    }
    if (kind == SelectionEvaluationKind::Sealed) != has_dataset(items, sealed_revision) {
        return Err(
            StoreError::Domain(
                DomainError::Fields {
                    field: "split_policy.sealed_revision_id",
                    item: None,
                    code: "SEALED_COMPARISON_BINDING",
                },
            ),
        );
    }
    Ok(())
}

/// Execution assumptions may refer only to the project's own artifacts.
pub fn check_assumptions(fee_project: Option<Id>, liquidity_project: Option<Id>, project: Id) -> (r:
    Result<(), StoreError>)
    ensures
        ((fee_project is None || fee_project == Some(project)) && (liquidity_project is None
            || liquidity_project == Some(project))) ==> r == Ok::<(), StoreError>(()),
        !((fee_project is None || fee_project == Some(project)) && (liquidity_project is None
            || liquidity_project == Some(project))) ==> r == Err::<(), StoreError>(
            refusal("execution_assumptions_id", None, "PROJECT_MISMATCH"),
        ),
{
    let fee_foreign = match fee_project {
        Some(p) => p != project,
        None => false,
    };
    let liquidity_foreign = match liquidity_project {
        Some(p) => p != project,
        None => false,
    };
    if fee_foreign || liquidity_foreign {
        return Err(
            StoreError::Domain(
                DomainError::Fields {
                    field: "execution_assumptions_id",
                    item: None,
                    code: "PROJECT_MISMATCH",
                },
            ),
        );
    }
    Ok(())
}

/// A policy's validity period, counted from now, must stay representable.
pub fn check_validity_range(now: UtcTime, validity_seconds: DbCounter) -> (r: Result<
    (),
    StoreError,
>)
    ensures
        plus_seconds(now, validity_seconds.amount() as int) is Some ==> r == Ok::<(), StoreError>(
            (),
        ),
        plus_seconds(now, validity_seconds.amount() as int) is None ==> r == Err::<(), StoreError>(
            refusal("validity_seconds", None, "TIME_RANGE"),
        ),
{
    let seconds = validity_seconds.get();
    match now.checked_add_seconds(seconds as i64) {
        Some(_) => Ok(()),
        None => Err(
            StoreError::Domain(
                DomainError::Fields { field: "validity_seconds", item: None, code: "TIME_RANGE" },
            ),
        ),
    }
}

/// A project's next policy version must fit the stored 32-bit column.
pub fn policy_version(next: i64) -> (r: Result<i32, StoreError>)
    ensures
        (i32::MIN <= next <= i32::MAX) ==> r == Ok::<i32, StoreError>(next as i32),
        !(i32::MIN <= next <= i32::MAX) ==> r == Err::<i32, StoreError>(
            refusal("version", None, "VERSION_EXHAUSTED"),
        ),
{
    if next < i32::MIN as i64 || next > i32::MAX as i64 {
        return Err(
            StoreError::Domain(
                DomainError::Fields { field: "version", item: None, code: "VERSION_EXHAUSTED" },
            ),
        );
    }
    Ok(next as i32)
}

/// A Cycle's trials are selected only under a walk-forward policy; sealed
/// evidence is never a selection input.
pub fn check_selection_kind(kind: SelectionEvaluationKind) -> (r: Result<(), StoreError>)
    ensures
        kind == SelectionEvaluationKind::WalkForward ==> r == Ok::<(), StoreError>(()),
        kind == SelectionEvaluationKind::Sealed ==> r == Err::<(), StoreError>(
            StoreError::Domain(DomainError::CapabilityUnavailable("sealed_trial_selection")),
        ),
{
    match kind {
        SelectionEvaluationKind::WalkForward => Ok(()),
        SelectionEvaluationKind::Sealed => Err(
            StoreError::Domain(DomainError::CapabilityUnavailable("sealed_trial_selection")),
        ),
    }
}

} // verus!
