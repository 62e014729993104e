//! The verdict of a native Alpha validation: the metric verdict, tightened by what
//! the registered data and the policy demand, its expiry, and the experiment
//! outcome it concludes.
use vstd::prelude::*;
use crate::error::StoreError;
use crate::ids::{plus_seconds, pow10, DbCounter, DecimalValue, UtcTime};
use crate::portfolio::EvidenceStatus;
use crate::review::Decision;
use crate::runs::RunState;
use crate::text::{push_reason, same_text, texts};

verus! {

/// Evidence status, decision and reasons of an evaluation.
#[derive(Clone, Debug)]
pub struct MetricGate {
    pub evidence_status: EvidenceStatus,
    pub decision: Decision,
    pub reasons: Vec<String>,
}

/// A verdict as the contracts read it.
#[verifier::ext_equal]
pub struct GateView {
    pub status: EvidenceStatus,
    pub decision: Decision,
    pub reasons: Seq<Seq<char>>,
}

pub open spec fn gate_view(g: MetricGate) -> GateView {
    GateView { status: g.evidence_status, decision: g.decision, reasons: texts(g.reasons@) }
}

/// The two verdicts of an Alpha: its walk-forward validation, and its one
/// held-out (sealed) execution.
#[derive(Clone, Copy, Debug, PartialEq, Eq, Structural)]
pub enum VerdictKind {
    Validation,
    Sealed,
    /// The hold evaluation of a portfolio Candidate's simulation.
    Candidate,
}

pub open spec fn cancelled_reason(kind: VerdictKind) -> Seq<char> {
    match kind {
        VerdictKind::Validation => "VALIDATION_CANCELLED"@,
        VerdictKind::Sealed => "SEALED_CANCELLED"@,
        VerdictKind::Candidate => "CANDIDATE_SIMULATION_CANCELLED"@,
    }
}

pub open spec fn failed_reason(kind: VerdictKind) -> Seq<char> {
    match kind {
        VerdictKind::Validation => "VALIDATION_EXECUTION_FAILED"@,
        VerdictKind::Sealed => "SEALED_EXECUTION_FAILED"@,
        VerdictKind::Candidate => "CANDIDATE_SIMULATION_FAILED"@,
    }
}

pub open spec fn expired_reason(kind: VerdictKind) -> Seq<char> {
    match kind {
        VerdictKind::Validation => "VALIDATION_EXPIRED"@,
        VerdictKind::Sealed => "SEALED_EXPIRED"@,
        VerdictKind::Candidate => "CANDIDATE_EVIDENCE_EXPIRED_OR_INELIGIBLE"@,
    }
}

/// Too few observations: test observations of an Alpha, daily returns of a Candidate.
pub open spec fn thin_reason(kind: VerdictKind) -> Seq<char> {
    match kind {
        VerdictKind::Candidate => "INSUFFICIENT_DAILY_OBSERVATIONS"@,
        _ => "INSUFFICIENT_TEST_OBSERVATIONS"@,
    }
}

/// The verdict of an evaluation that did not succeed: incomplete and
/// inconclusive, with the reason it ended.
pub open spec fn unsucceeded_gate(kind: VerdictKind, state: RunState) -> GateView {
    GateView {
        status: EvidenceStatus::Incomplete,
        decision: Decision::Inconclusive,
        reasons: seq![
            if state == RunState::Cancelled {
                cancelled_reason(kind)
            } else {
                failed_reason(kind)
            },
        ],
    }
}

pub fn initial_gate(kind: VerdictKind, state: RunState) -> (r: MetricGate)
    ensures
        gate_view(r) == unsucceeded_gate(kind, state),
{
    let mut reasons: Vec<String> = Vec::new();
    let reason = match (kind, state == RunState::Cancelled) {
        (VerdictKind::Validation, true) => "VALIDATION_CANCELLED",
        (VerdictKind::Validation, false) => "VALIDATION_EXECUTION_FAILED",
        (VerdictKind::Sealed, true) => "SEALED_CANCELLED",
        (VerdictKind::Sealed, false) => "SEALED_EXECUTION_FAILED",
        (VerdictKind::Candidate, true) => "CANDIDATE_SIMULATION_CANCELLED",
        (VerdictKind::Candidate, false) => "CANDIDATE_SIMULATION_FAILED",
    };
    push_reason(&mut reasons, reason);
    proof {
        assert(texts(reasons@) =~= unsucceeded_gate(kind, state).reasons);
    }
    MetricGate {
        evidence_status: EvidenceStatus::Incomplete,
        decision: Decision::Inconclusive,
        reasons,
    }
}

/// The verdict of a Candidate evaluation whose policy defines no portfolio criteria.
pub fn undefined_criteria_gate() -> (r: MetricGate)
    ensures
        gate_view(r) == (GateView {
            status: EvidenceStatus::Incomplete,
            decision: Decision::Inconclusive,
            reasons: seq!["PORTFOLIO_CRITERIA_UNDEFINED"@],
        }),
{
    let mut reasons: Vec<String> = Vec::new();
    push_reason(&mut reasons, "PORTFOLIO_CRITERIA_UNDEFINED");
    proof {
        assert(texts(reasons@) =~= seq!["PORTFOLIO_CRITERIA_UNDEFINED"@]);
    }
    MetricGate {
        evidence_status: EvidenceStatus::Incomplete,
        decision: Decision::Inconclusive,
        reasons,
    }
}

/// One fold of a native validation report.
#[derive(Clone, Copy, Debug)]
pub struct FoldRows {
    pub fold_index: u32,
    pub source_row_count: DbCounter,
}

/// The source rows the report read: those of its first fold's entries.
pub open spec fn first_fold_rows(folds: Seq<FoldRows>) -> int
    decreases folds.len(),
{
    if folds.len() == 0 {
        0
    } else {
        first_fold_rows(folds.drop_last()) + if folds.last().fold_index == 0 {
            folds.last().source_row_count.amount() as int
        } else {
            0
        }
    }
}

proof fn lemma_first_fold_rows_grow(folds: Seq<FoldRows>, i: int)
    requires
        0 <= i <= folds.len(),
    ensures
        first_fold_rows(folds.subrange(0, i)) <= first_fold_rows(folds),
    decreases folds.len() - i,
{
    if i < folds.len() {
        lemma_first_fold_rows_grow(folds, i + 1);
        assert(folds.subrange(0, i + 1).drop_last() =~= folds.subrange(0, i));
    } else {
        assert(folds.subrange(0, i) =~= folds);
    }
}

pub fn source_rows(folds: &Vec<FoldRows>) -> (r: u64)
    requires
        first_fold_rows(folds@) <= u64::MAX,
    ensures
        r == first_fold_rows(folds@),
{
    let mut sum: u64 = 0;
    let mut i: usize = 0;
    while i < folds.len()
        invariant
            i <= folds@.len(),
            first_fold_rows(folds@) <= u64::MAX,
            sum == first_fold_rows(folds@.subrange(0, i as int)),
        decreases folds@.len() - i,
    {
        proof {
            assert(folds@.subrange(0, i + 1).drop_last() =~= folds@.subrange(0, i as int));
            lemma_first_fold_rows_grow(folds@, i + 1);
        }
        if folds[i].fold_index == 0 {
            sum = sum + folds[i].source_row_count.get();
        }
        i = i + 1;
    }
    proof {
        assert(folds@.subrange(0, folds@.len() as int) =~= folds@);
    }
    sum
}

/// The sum of a list of counts.
pub open spec fn total(counts: Seq<DbCounter>) -> int
    decreases counts.len(),
{
    if counts.len() == 0 {
        0
    } else {
        total(counts.drop_last()) + counts.last().amount()
    }
}

/// The sum of counts adds up piece by piece: nothing sums to zero, one count
/// to itself, and two lists joined to the sum of their sums, so every count,
/// at whatever position, is counted exactly once.
pub proof fn totals_add_up(a: Seq<DbCounter>, b: Seq<DbCounter>, x: DbCounter)
    ensures
        total(Seq::<DbCounter>::empty()) == 0,
        total(seq![x]) == x.amount(),
        total(a + b) == total(a) + total(b),
    decreases b.len(),
{
    assert(seq![x].drop_last() =~= Seq::<DbCounter>::empty());
    if b.len() == 0 {
        assert(a + b =~= a);
    } else {
        totals_add_up(a, b.drop_last(), x);
        assert((a + b).drop_last() =~= a + b.drop_last());
    }
}

/// Source rows add up piece by piece: a first-fold entry counts its rows, any
/// other entry none, and two reports joined count the sum of their rows.
pub proof fn fold_rows_add_up(a: Seq<FoldRows>, b: Seq<FoldRows>, f: FoldRows)
    ensures
        first_fold_rows(Seq::<FoldRows>::empty()) == 0,
        first_fold_rows(seq![f]) == (if f.fold_index == 0 {
            f.source_row_count.amount() as int
        } else {
            0
        }),
        first_fold_rows(a + b) == first_fold_rows(a) + first_fold_rows(b),
    decreases b.len(),
{
    assert(seq![f].drop_last() =~= Seq::<FoldRows>::empty());
    if b.len() == 0 {
        assert(a + b =~= a);
    } else {
        fold_rows_add_up(a, b.drop_last(), f);
        assert((a + b).drop_last() =~= a + b.drop_last());
    }
}

proof fn lemma_total_grows(counts: Seq<DbCounter>, i: int)
    requires
        0 <= i <= counts.len(),
    ensures
        total(counts.subrange(0, i)) <= total(counts),
    decreases counts.len() - i,
{
    if i < counts.len() {
        lemma_total_grows(counts, i + 1);
        assert(counts.subrange(0, i + 1).drop_last() =~= counts.subrange(0, i));
    } else {
        assert(counts.subrange(0, i) =~= counts);
    }
}

/// The observations a sealed report labelled: the sum over its assets.
pub fn labelled_observations(counts: &Vec<DbCounter>) -> (r: u64)
    requires
        total(counts@) <= u64::MAX,
    ensures
        r == total(counts@),
{
    let mut sum: u64 = 0;
    let mut i: usize = 0;
    while i < counts.len()
        invariant
            i <= counts@.len(),
            total(counts@) <= u64::MAX,
            sum == total(counts@.subrange(0, i as int)),
        decreases counts@.len() - i,
    {
        proof {
            assert(counts@.subrange(0, i + 1).drop_last() =~= counts@.subrange(0, i as int));
            lemma_total_grows(counts@, i + 1);
        }
        sum = sum + counts[i].get();
        i = i + 1;
    }
    proof {
        assert(counts@.subrange(0, counts@.len() as int) =~= counts@);
    }
    sum
}

/// `missing > fraction * registered`, exactly.
pub open spec fn exceeds(missing: int, fraction: DecimalValue, registered: int) -> bool {
    missing * pow10(fraction.places()) > fraction.digits() * registered
}

/// Compares `missing` with `fraction * registered` in exact decimal arithmetic
/// with `bigdecimal` (`BigDecimal::new`, `From<u64>`, `Mul` and `PartialOrd`);
/// the contract claims the exact comparison of the rational values.
#[verifier::external_body]
fn exceeds_share(missing: u64, fraction: DecimalValue, registered: u64) -> (r: bool)
    ensures
        r == exceeds(missing as int, fraction, registered as int),
{
    let (digits, scale) = fraction.parts();
    let share = bigdecimal::BigDecimal::new(bigdecimal::num_bigint::BigInt::from(digits), scale as i64);
    bigdecimal::BigDecimal::from(missing) > share * bigdecimal::BigDecimal::from(registered)
}

/// What the validation policy demands of the data.
#[derive(Clone, Copy, Debug)]
pub struct DataRequirements {
    pub minimum_observations: u32,
    pub maximum_missing_fraction: DecimalValue,
    pub require_real_data: bool,
}

/// The registered dataset revision an evaluation ran on.
#[derive(Clone, Debug)]
pub struct RegisteredData {
    pub row_count: DbCounter,
    pub origin: String,
    pub pit_status: String,
    pub revision_policy: String,
    /// The origin of the native task, where it must be real as well.
    pub task_origin: Option<String>,
}

/// Real, verified point-in-time data, revised only as known then.
pub open spec fn real_point_in_time(data: RegisteredData) -> bool {
    &&& data.origin@ == "REAL"@
    &&& data.pit_status@ == "VERIFIED"@
    &&& data.revision_policy@ == "AS_KNOWN_THEN"@
    &&& (data.task_origin matches Some(t) ==> t@ == "REAL"@)
}

/// Registered rows the report did not read, never below zero.
pub open spec fn missing_rows(registered: int, actual: int) -> int {
    if actual >= registered {
        0
    } else {
        registered - actual
    }
}

/// The reasons the evidence is incomplete, in the order they are reported.
pub open spec fn incomplete_reasons(
    kind: VerdictKind,
    req: DataRequirements,
    data: RegisteredData,
    actual: int,
    observations: int,
    source_eligible: bool,
) -> Seq<Seq<char>> {
    let a = if exceeds(
        missing_rows(data.row_count.amount() as int, actual),
        req.maximum_missing_fraction,
        data.row_count.amount() as int,
    ) {
        seq!["REGISTERED_DATA_MISSING"@]
    } else {
        Seq::<Seq<char>>::empty()
    };
    let b = if observations < req.minimum_observations {
        a.push(thin_reason(kind))
    } else {
        a
    };
    let c = if req.require_real_data && !real_point_in_time(data) {
        b.push("REAL_POINT_IN_TIME_DATA_REQUIRED"@)
    } else {
        b
    };
    if !source_eligible {
        c.push("CANDIDATE_SOURCE_NO_LONGER_ELIGIBLE"@)
    } else {
        c
    }
}

/// Missing data, too few observations or data that is not real point-in-time
/// leave the evidence at most incomplete and the decision inconclusive; more
/// rows read than registered make it invalid.
pub open spec fn data_gate_spec(
    kind: VerdictKind,
    g: GateView,
    req: DataRequirements,
    data: RegisteredData,
    actual: int,
    observations: int,
    source_eligible: bool,
) -> GateView {
    let incomplete = incomplete_reasons(kind, req, data, actual, observations, source_eligible);
    let g1 = if incomplete.len() > 0 {
        GateView {
            status: if g.status == EvidenceStatus::Valid {
                EvidenceStatus::Incomplete
            } else {
                g.status
            },
            decision: Decision::Inconclusive,
            reasons: g.reasons + incomplete,
        }
    } else {
        g
    };
    if actual > data.row_count.amount() {
        GateView {
            status: EvidenceStatus::Invalid,
            decision: Decision::Inconclusive,
            reasons: g1.reasons.push("REGISTERED_DATA_ROW_COUNT_EXCEEDED"@),
        }
    } else {
        g1
    }
}

/// The verdict of a succeeded evaluation, after the data checks: `actual` rows
/// were read of the registered data, over `observations` test observations.
pub fn data_gate(
    kind: VerdictKind,
    gate: MetricGate,
    req: &DataRequirements,
    data: &RegisteredData,
    actual: u64,
    observations: u64,
    source_eligible: bool,
) -> (r: MetricGate)
    ensures
        gate_view(r) == data_gate_spec(
            kind,
            gate_view(gate),
            *req,
            *data,
            actual as int,
            observations as int,
            source_eligible,
        ),
{
    let registered = data.row_count.get();
    let missing = if actual >= registered {
        0
    } else {
        registered - actual
    };
    let mut incomplete: Vec<String> = Vec::new();
    proof {
        assert(texts(incomplete@) =~= Seq::<Seq<char>>::empty());
    }
    if exceeds_share(missing, req.maximum_missing_fraction, registered) {
        push_reason(&mut incomplete, "REGISTERED_DATA_MISSING");
    }
    if observations < req.minimum_observations as u64 {
        let reason = match kind {
            VerdictKind::Candidate => "INSUFFICIENT_DAILY_OBSERVATIONS",
            _ => "INSUFFICIENT_TEST_OBSERVATIONS",
        };
        push_reason(&mut incomplete, reason);
    }
    let task_real = match &data.task_origin {
        Some(t) => same_text(t.as_str(), "REAL"),
        None => true,
    };
    if req.require_real_data && !(same_text(data.origin.as_str(), "REAL") && same_text(
        data.pit_status.as_str(),
        "VERIFIED",
    ) && same_text(data.revision_policy.as_str(), "AS_KNOWN_THEN") && task_real) {
        push_reason(&mut incomplete, "REAL_POINT_IN_TIME_DATA_REQUIRED");
    }
    if !source_eligible {
        push_reason(&mut incomplete, "CANDIDATE_SOURCE_NO_LONGER_ELIGIBLE");
    }
    proof {
        let want = incomplete_reasons(
            kind,
            *req,
            *data,
            actual as int,
            observations as int,
            source_eligible,
        );
        assert(texts(incomplete@) =~= want);
    }
    let mut g = gate;
    if incomplete.len() > 0 {
        if g.evidence_status == EvidenceStatus::Valid {
            g.evidence_status = EvidenceStatus::Incomplete;
        }
        g.decision = Decision::Inconclusive;
        let ghost before = texts(g.reasons@);
        let ghost status = g.evidence_status;
        let mut i: usize = 0;
        while i < incomplete.len()
            invariant
                i <= incomplete@.len(),
                g.evidence_status == status,
                g.decision == Decision::Inconclusive,
                texts(g.reasons@) == before + texts(incomplete@).subrange(0, i as int),
            decreases incomplete@.len() - i,
        {
            push_reason(&mut g.reasons, incomplete[i].as_str());
            proof {
                assert(texts(incomplete@).subrange(0, i + 1) =~= texts(incomplete@).subrange(
                    0,
                    i as int,
                ).push(incomplete@[i as int]@));
                assert(before + texts(incomplete@).subrange(0, i + 1) =~= (before + texts(
                    incomplete@,
                ).subrange(0, i as int)).push(incomplete@[i as int]@));
            }
            i = i + 1;
        }
        proof {
            assert(texts(incomplete@).subrange(0, incomplete@.len() as int) =~= texts(
                incomplete@,
            ));
        }
    }
    let ghost g1 = gate_view(g);
    proof {
        let incomplete_spec = incomplete_reasons(
            kind,
            *req,
            *data,
            actual as int,
            observations as int,
            source_eligible,
        );
        let gv = gate_view(gate);
        if incomplete_spec.len() > 0 {
            assert(g1.reasons =~= gv.reasons + incomplete_spec);
        } else {
            assert(g1.reasons =~= gv.reasons);
        }
    }
    if actual > registered {
        g.evidence_status = EvidenceStatus::Invalid;
        g.decision = Decision::Inconclusive;
        push_reason(&mut g.reasons, "REGISTERED_DATA_ROW_COUNT_EXCEEDED");
        proof {
            assert(gate_view(g).reasons =~= g1.reasons.push("REGISTERED_DATA_ROW_COUNT_EXCEEDED"@));
        }
    }
    proof {
        assert(gate_view(g) =~= data_gate_spec(
            kind,
            gate_view(gate),
            *req,
            *data,
            actual as int,
            observations as int,
            source_eligible,
        ));
    }
    g
}

/// Evidence stays valid for the policy's period after the native job
/// completed, and no longer than `bound` where there is one, if that ends after
/// the conclusion. Evidence whose sources are no longer eligible has no period.
pub open spec fn evidence_valid_until(
    completed_at: UtcTime,
    validity_seconds: DbCounter,
    concluded_at: UtcTime,
    eligible: bool,
    bound: Option<UtcTime>,
) -> Option<UtcTime> {
    if !eligible {
        None
    } else {
        match plus_seconds(completed_at, validity_seconds.amount() as int) {
            Some(period) => {
                let until = match bound {
                    Some(b) => if b.nanos < period.nanos {
                        b
                    } else {
                        period
                    },
                    None => period,
                };
                if until.nanos > concluded_at.nanos {
                    Some(until)
                } else {
                    None
                }
            },
            None => None,
        }
    }
}

/// A succeeded evaluation whose evidence has already expired is inconclusive.
pub open spec fn expired_gate(kind: VerdictKind, g: GateView) -> GateView {
    GateView {
        status: if g.status == EvidenceStatus::Valid {
            EvidenceStatus::Incomplete
        } else {
            g.status
        },
        decision: Decision::Inconclusive,
        reasons: g.reasons.push(expired_reason(kind)),
    }
}

/// The expiry of an evaluation's evidence, and the verdict it leaves: only a
/// succeeded evaluation carries an expiry, and one already past (or ineligible)
/// makes it inconclusive.
pub fn validation_expiry(
    kind: VerdictKind,
    gate: MetricGate,
    state: RunState,
    completed_at: UtcTime,
    validity_seconds: DbCounter,
    concluded_at: UtcTime,
    eligible: bool,
    bound: Option<UtcTime>,
) -> (r: (MetricGate, Option<UtcTime>))
    ensures
        state == RunState::Succeeded ==> r.1 == evidence_valid_until(
            completed_at,
            validity_seconds,
            concluded_at,
            eligible,
            bound,
        ),
        state != RunState::Succeeded ==> r.1 is None,
        gate_view(r.0) == (if state == RunState::Succeeded && evidence_valid_until(
            completed_at,
            validity_seconds,
            concluded_at,
            eligible,
            bound,
        ) is None {
            expired_gate(kind, gate_view(gate))
        } else {
            gate_view(gate)
        }),
{
    let period = if eligible {
        completed_at.checked_add_seconds(validity_seconds.get() as i64)
    } else {
        None
    };
    let until = match period {
        Some(p) => {
            let u = match bound {
                Some(b) => if b.is_before(&p) {
                    b
                } else {
                    p
                },
                None => p,
            };
            if concluded_at.is_before(&u) {
                Some(u)
            } else {
                None
            }
        },
        None => None,
    };
    let mut g = gate;
    if until.is_none() && state == RunState::Succeeded {
        if g.evidence_status == EvidenceStatus::Valid {
            g.evidence_status = EvidenceStatus::Incomplete;
        }
        g.decision = Decision::Inconclusive;
        let reason = match kind {
            VerdictKind::Validation => "VALIDATION_EXPIRED",
            VerdictKind::Sealed => "SEALED_EXPIRED",
            VerdictKind::Candidate => "CANDIDATE_EVIDENCE_EXPIRED_OR_INELIGIBLE",
        };
        push_reason(&mut g.reasons, reason);
    }
    if state == RunState::Succeeded {
        (g, until)
    } else {
        (g, None)
    }
}

/// The experiment outcome and its reason a validation concludes.
pub open spec fn outcome_of(status: EvidenceStatus, decision: Decision) -> (Seq<char>, Seq<char>) {
    if status == EvidenceStatus::Valid && decision == Decision::Pass {
        ("SUPPORTED"@, "VALIDATION_METRICS_PASSED"@)
    } else if status == EvidenceStatus::Valid && decision == Decision::Reject {
        ("REJECTED"@, "VALIDATION_METRICS_REJECTED"@)
    } else if status == EvidenceStatus::Invalid {
        ("INVALID"@, "VALIDATION_EVIDENCE_INVALID"@)
    } else {
        ("INCONCLUSIVE"@, "VALIDATION_EVIDENCE_INCOMPLETE"@)
    }
}

pub fn experiment_outcome(status: EvidenceStatus, decision: Decision) -> (r: (
    &'static str,
    &'static str,
))
    ensures
        (r.0@, r.1@) == outcome_of(status, decision),
{
    match (status, decision) {
        (EvidenceStatus::Valid, Decision::Pass) => ("SUPPORTED", "VALIDATION_METRICS_PASSED"),
        (EvidenceStatus::Valid, Decision::Reject) => ("REJECTED", "VALIDATION_METRICS_REJECTED"),
        (EvidenceStatus::Invalid, _) => ("INVALID", "VALIDATION_EVIDENCE_INVALID"),
        _ => ("INCONCLUSIVE", "VALIDATION_EVIDENCE_INCOMPLETE"),
    }
}

/// A report is published only while the evidence it carries is still valid.
pub fn check_published_in_time(valid_until: Option<UtcTime>, published_at: UtcTime) -> (r: Result<
    (),
    StoreError,
>)
    ensures
        (valid_until matches Some(u) && u.nanos <= published_at.nanos) ==> r == Err::<
            (),
            StoreError,
        >(StoreError::Conflict),
        !(valid_until matches Some(u) && u.nanos <= published_at.nanos) ==> r == Ok::<
            (),
            StoreError,
        >(()),
{
    match valid_until {
        Some(u) => if !published_at.is_before(&u) {
            Err(StoreError::Conflict)
        } else {
            Ok(())
        },
        None => Ok(()),
    }
}

/// A calibration is adopted only with an expiry that has not passed.
pub fn check_calibration_in_time(valid_until: Option<UtcTime>, published_at: UtcTime) -> (r: Result<
    (),
    StoreError,
>)
    ensures
        (valid_until matches Some(u) && published_at.nanos < u.nanos) ==> r == Ok::<
            (),
            StoreError,
        >(()),
        !(valid_until matches Some(u) && published_at.nanos < u.nanos) ==> r == Err::<
            (),
            StoreError,
        >(StoreError::Conflict),
{
    match valid_until {
        Some(u) => if published_at.is_before(&u) {
            Ok(())
        } else {
            Err(StoreError::Conflict)
        },
        None => Err(StoreError::Conflict),
    }
}

/// Largest validation report, in bytes.
pub const MAX_REPORT_BYTES: usize = 65536usize;

pub fn check_report_size(len: usize) -> (r: Result<(), StoreError>)
    ensures
        len <= MAX_REPORT_BYTES ==> r == Ok::<(), StoreError>(()),
        len > MAX_REPORT_BYTES ==> r == Err::<(), StoreError>(StoreError::Integrity),
{
    if len > MAX_REPORT_BYTES {
        return Err(StoreError::Integrity);
    }
    Ok(())
}

/// The training label's end as PostgreSQL stores it: the model's nanoseconds
/// rounded up to the microsecond, never backwards.
pub fn calibration_end(fit_end_ns: DbCounter) -> (r: UtcTime)
    ensures
        r.nanos == (if fit_end_ns.amount() % 1000 == 0 {
            fit_end_ns.amount() as int
        } else {
            ((fit_end_ns.amount() / 1000 + 1) * 1000) as int
        }),
        r.nanos >= fit_end_ns.amount(),
        r.nanos < fit_end_ns.amount() + 1000,
{
    let ns = fit_end_ns.get();
    let micros = ns / 1000 + if ns % 1000 != 0 {
        1
    } else {
        0
    };
    UtcTime::from_timestamp_micros(micros as i64)
}

/// A stored document is read only when its recorded size is non-zero and
/// within the reader's maximum, and the bytes read are exactly that many.
pub fn check_document_size(size: DbCounter, maximum: usize) -> (r: Result<(), StoreError>)
    ensures
        (1 <= size.amount() <= maximum) ==> r == Ok::<(), StoreError>(()),
        !(1 <= size.amount() <= maximum) ==> r == Err::<(), StoreError>(StoreError::Integrity),
{
    let n = size.get();
    if n == 0 || n > maximum as u64 {
        return Err(StoreError::Integrity);
    }
    Ok(())
}

pub fn check_document_read(len: usize, size: DbCounter) -> (r: Result<(), StoreError>)
    ensures
        len == size.amount() ==> r == Ok::<(), StoreError>(()),
        len != size.amount() ==> r == Err::<(), StoreError>(StoreError::Integrity),
{
    if len as u64 != size.get() {
        return Err(StoreError::Integrity);
    }
    Ok(())
}

/// Data and expiry conditions never loosen what the metrics concluded: they
/// make no evidence valid, and no decision other than inconclusive, that the
/// metrics did not give, and they keep every reason the metrics gave, in order.
pub proof fn conditions_never_loosen(
    kind: VerdictKind,
    g: GateView,
    req: DataRequirements,
    data: RegisteredData,
    actual: int,
    observations: int,
    source_eligible: bool,
)
    ensures
        ({
            let d = data_gate_spec(kind, g, req, data, actual, observations, source_eligible);
            &&& (d.status == EvidenceStatus::Valid ==> g.status == EvidenceStatus::Valid)
            &&& (d.decision == g.decision || d.decision == Decision::Inconclusive)
            &&& d.reasons.len() >= g.reasons.len()
            &&& d.reasons.subrange(0, g.reasons.len() as int) == g.reasons
        }),
        ({
            let e = expired_gate(kind, g);
            &&& e.status != EvidenceStatus::Valid
            &&& e.decision == Decision::Inconclusive
            &&& e.reasons.subrange(0, g.reasons.len() as int) == g.reasons
        }),
{
    let d = data_gate_spec(kind, g, req, data, actual, observations, source_eligible);
    let incomplete = incomplete_reasons(kind, req, data, actual, observations, source_eligible);
    let g1 = if incomplete.len() > 0 {
        GateView {
            status: if g.status == EvidenceStatus::Valid {
                EvidenceStatus::Incomplete
            } else {
                g.status
            },
            decision: Decision::Inconclusive,
            reasons: g.reasons + incomplete,
        }
    } else {
        g
    };
    assert(g1.reasons.subrange(0, g.reasons.len() as int) =~= g.reasons);
    if actual > data.row_count.amount() {
        assert(d.reasons.subrange(0, g.reasons.len() as int) =~= g.reasons);
    }
    assert(expired_gate(kind, g).reasons.subrange(0, g.reasons.len() as int) =~= g.reasons);
}

} // verus!
