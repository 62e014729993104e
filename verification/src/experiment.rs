//! A proposal's concrete native compilation, forecast and validation: which
//! step is ready, whether a trusted Mission worker may start it, and the
//! resources it may claim. Existing Run admission owns execution.
use vstd::prelude::*;
use crate::error::{DomainError, StoreError};
use crate::ids::{DbCounter, Id, UtcTime};
use crate::runs::{in_progress, JobLimits, RunKind, RunState, RuntimeCapabilities};

verus! {

/// The next ready step of a Researcher Mission's pending experiment.
#[derive(Clone, Copy, Debug, PartialEq, Eq, Structural)]
pub enum ExperimentWork {
    Compile(Id),
    Forecast(Id),
    RecordAlpha(Id),
    Validate(Id),
}

/// The oldest pending experiment that has work, with what it already has.
#[derive(Clone, Copy, Debug, PartialEq, Eq, Structural)]
pub struct PendingExperiment {
    pub id: Id,
    pub compile_run_id: Option<Id>,
    pub forecast_run_id: Option<Id>,
    pub alpha_version_id: Option<Id>,
}

pub open spec fn work_of(e: PendingExperiment) -> ExperimentWork {
    if e.alpha_version_id is Some {
        ExperimentWork::Validate(e.id)
    } else if e.forecast_run_id is Some {
        ExperimentWork::RecordAlpha(e.id)
    } else if e.compile_run_id is None {
        ExperimentWork::Compile(e.id)
    } else {
        ExperimentWork::Forecast(e.id)
    }
}

/// What the Mission's Run admits: its kind, whether it is the Cycle's
/// Researcher, whether its admission is open, its state, deadline and the clock.
#[derive(Clone, Copy, Debug, PartialEq, Eq, Structural)]
pub struct MissionRun {
    pub kind: RunKind,
    pub researcher: bool,
    pub admission_open: bool,
    pub state: RunState,
    pub deadline: UtcTime,
    pub now: UtcTime,
}

pub open spec fn mission_accepting(run: MissionRun) -> bool {
    run.admission_open && in_progress(run.state) && run.now.nanos < run.deadline.nanos
}

/// A ready step, not a second queue or a verdict on settled scientific work.
pub fn next_mission_experiment(run: MissionRun, pending: Option<PendingExperiment>) -> (r: Result<
    Option<ExperimentWork>,
    StoreError,
>)
    ensures
        (run.kind != RunKind::AgentResearch || !run.researcher) ==> r == Err::<
            Option<ExperimentWork>,
            StoreError,
        >(StoreError::Forbidden),
        (run.kind == RunKind::AgentResearch && run.researcher && !mission_accepting(run)) ==> r
            == Ok::<Option<ExperimentWork>, StoreError>(None),
        (run.kind == RunKind::AgentResearch && run.researcher && mission_accepting(run)) ==> r
            == Ok::<Option<ExperimentWork>, StoreError>(
            match pending {
                Some(e) => Some(work_of(e)),
                None => None,
            },
        ),
{
    if run.kind != RunKind::AgentResearch || !run.researcher {
        return Err(StoreError::Forbidden);
    }
    if !run.admission_open || !run.state.is_in_progress() || !run.now.is_before(&run.deadline) {
        return Ok(None);
    }
    match pending {
        Some(e) => Ok(
            Some(
                if e.alpha_version_id.is_some() {
                    ExperimentWork::Validate(e.id)
                } else if e.forecast_run_id.is_some() {
                    ExperimentWork::RecordAlpha(e.id)
                } else if e.compile_run_id.is_none() {
                    ExperimentWork::Compile(e.id)
                } else {
                    ExperimentWork::Forecast(e.id)
                },
            ),
        ),
        None => Ok(None),
    }
}

/// The native stage a trusted worker starts for an experiment.
#[derive(Clone, Copy, Debug, PartialEq, Eq, Structural)]
pub enum ExperimentStage {
    Compilation,
    Forecast,
    Validation,
}

/// The experiment's own state when a stage is started.
#[derive(Clone, Copy, Debug, PartialEq, Eq, Structural)]
pub struct ExperimentState {
    pub pending: bool,
    pub has_run: bool,
}

pub open spec fn stage_open(
    state: RunState,
    deadline: UtcTime,
    now: UtcTime,
    experiment: ExperimentState,
    stage: ExperimentStage,
) -> bool {
    in_progress(state) && now.nanos < deadline.nanos && experiment.pending && (
    stage == ExperimentStage::Validation || !experiment.has_run)
}

/// Whether a new stage may start, and with which limits: a compilation charges
/// exactly the experiment's one trial, a forecast or validation none; each needs
/// wall and CPU time.
pub open spec fn stage_start(
    state: RunState,
    deadline: UtcTime,
    now: UtcTime,
    experiment: ExperimentState,
    stage: ExperimentStage,
    limits: JobLimits,
) -> Result<(), StoreError> {
    if !stage_open(state, deadline, now, experiment, stage) {
        Err(StoreError::Domain(DomainError::AdmissionClosed))
    } else if limits.experiments != (if stage == ExperimentStage::Compilation {
        1u32
    } else {
        0u32
    }) || limits.wall_seconds == 0 || limits.cpu_seconds.amount() == 0 {
        Err(
            StoreError::Invalid(
                if stage == ExperimentStage::Compilation {
                    "compilation_limits"
                } else {
                    "forecast_limits"
                },
            ),
        )
    } else {
        Ok(())
    }
}

pub fn start_stage(
    state: RunState,
    deadline: UtcTime,
    now: UtcTime,
    experiment: ExperimentState,
    stage: ExperimentStage,
    limits: &JobLimits,
) -> (r: Result<(), StoreError>)
    ensures
        r == stage_start(state, deadline, now, experiment, stage, *limits),
{
    if !state.is_in_progress() || !now.is_before(&deadline) || !experiment.pending || (stage
        != ExperimentStage::Validation && experiment.has_run) {
        return Err(StoreError::Domain(DomainError::AdmissionClosed));
    }
    let trials: u32 = if stage == ExperimentStage::Compilation {
        1
    } else {
        0
    };
    if limits.experiments != trials || limits.wall_seconds == 0 || limits.cpu_seconds.get() == 0 {
        return Err(
            StoreError::Invalid(
                if stage == ExperimentStage::Compilation {
                    "compilation_limits"
                } else {
                    "forecast_limits"
                },
            ),
        );
    }
    Ok(())
}

/// Starting a forecast or validation again finds the Run already bound to the
/// experiment for that stage and answers it, with nothing written, whatever
/// the Mission's state, deadline or limits; only without one does a new stage
/// have to pass the admission of `stage_start`.
pub open spec fn science_start(
    existing: Option<Id>,
    state: RunState,
    deadline: UtcTime,
    now: UtcTime,
    experiment: ExperimentState,
    stage: ExperimentStage,
    limits: JobLimits,
) -> Result<Option<Id>, StoreError> {
    match existing {
        Some(run) => Ok(Some(run)),
        None => match stage_start(state, deadline, now, experiment, stage, limits) {
            Ok(()) => Ok(None),
            Err(e) => Err(e),
        },
    }
}

/// `Some(run)`: the stage's existing Run, to be answered again; `None`: start it.
pub fn start_science_stage(
    existing: Option<Id>,
    state: RunState,
    deadline: UtcTime,
    now: UtcTime,
    experiment: ExperimentState,
    stage: ExperimentStage,
    limits: &JobLimits,
) -> (r: Result<Option<Id>, StoreError>)
    ensures
        r == science_start(existing, state, deadline, now, experiment, stage, *limits),
{
    if let Some(run) = existing {
        return Ok(Some(run));
    }
    start_stage(state, deadline, now, experiment, stage, limits)?;
    Ok(None)
}

/// `ceil(a / b)` over naturals.
pub open spec fn div_ceil(a: nat, b: nat) -> nat
    recommends
        b > 0,
{
    ((a + b - 1) / (b as int)) as nat
}

/// The CPUs a job gets: its CPU seconds spread over its wall seconds, rounded
/// up, which must be between one and what the runtime offers.
pub open spec fn cpu_allocation(limits: JobLimits, max_cpu: u16) -> Result<u16, StoreError> {
    if limits.wall_seconds == 0 {
        Err(StoreError::Domain(DomainError::BudgetExhausted("wall_seconds")))
    } else {
        let cpu = div_ceil(limits.cpu_seconds.amount(), limits.wall_seconds as nat);
        if cpu == 0 || cpu > max_cpu {
            Err(StoreError::Domain(DomainError::CapabilityUnavailable("native_cpu_capacity")))
        } else {
            Ok(cpu as u16)
        }
    }
}

/// `job_limits` is the runtime job-limit rule's answer for these limits and
/// capabilities; its refusal comes first, then the CPU allocation.
pub fn native_cpu(
    limits: &JobLimits,
    capabilities: &RuntimeCapabilities,
    job_limits: Result<(), StoreError>,
) -> (r: Result<u16, StoreError>)
    ensures
        job_limits is Err ==> r == Err::<u16, StoreError>(job_limits->Err_0),
        job_limits is Ok ==> r == cpu_allocation(*limits, capabilities.max_cpu),
{
    if let Err(e) = job_limits {
        return Err(e);
    }
    if limits.wall_seconds == 0 {
        return Err(StoreError::Domain(DomainError::BudgetExhausted("wall_seconds")));
    }
    let seconds = limits.cpu_seconds.get();
    let wall = limits.wall_seconds as u64;
    let cpu = seconds / wall + if seconds % wall == 0 {
        0
    } else {
        1
    };
    proof {
        assert(div_ceil(seconds as nat, wall as nat) == cpu) by (nonlinear_arith)
            requires
                wall > 0,
                cpu == seconds / wall + if seconds % wall == 0 {
                    0int
                } else {
                    1int
                },
        {
        }
    }
    if cpu == 0 || cpu > capabilities.max_cpu as u64 {
        return Err(StoreError::Domain(DomainError::CapabilityUnavailable("native_cpu_capacity")));
    }
    Ok(cpu as u16)
}

/// Whole seconds from `now` until `deadline`, or `None` when it has passed.
pub open spec fn seconds_left(deadline: UtcTime, now: UtcTime) -> Option<int> {
    if deadline.nanos < now.nanos {
        None
    } else {
        Some((deadline.nanos - now.nanos) / 1_000_000_000)
    }
}

/// The job's wall seconds, cut to what remains of its parent's deadline.
pub open spec fn wall_allocation(wall: u32, deadline: UtcTime, now: UtcTime) -> Result<u32, StoreError> {
    match seconds_left(deadline, now) {
        None => Err(StoreError::Domain(DomainError::BudgetExhausted("wall_seconds"))),
        Some(left) => if left > u32::MAX {
            if wall == 0 {
                Err(StoreError::Domain(DomainError::BudgetExhausted("wall_seconds")))
            } else {
                Ok(wall)
            }
        } else {
            let w: int = if wall <= left {
                wall as int
            } else {
                left
            };
            if w == 0 {
                Err(StoreError::Domain(DomainError::BudgetExhausted("wall_seconds")))
            } else {
                Ok(w as u32)
            }
        },
    }
}

pub fn bounded_wall_seconds(wall: u32, deadline: UtcTime, now: UtcTime) -> (r: Result<
    u32,
    StoreError,
>)
    ensures
        r == wall_allocation(wall, deadline, now),
{
    if deadline.nanos < now.nanos {
        return Err(StoreError::Domain(DomainError::BudgetExhausted("wall_seconds")));
    }
    let left = match deadline.nanos.checked_sub(now.nanos) {
        Some(d) => d / 1_000_000_000,
        None => i128::MAX,
    };
    let w = if left > u32::MAX as i128 {
        wall
    } else if (wall as i128) <= left {
        wall
    } else {
        left as u32
    };
    if w == 0 {
        return Err(StoreError::Domain(DomainError::BudgetExhausted("wall_seconds")));
    }
    Ok(w)
}

/// A job never gets more wall time than it proposed, nor than its parent has left.
pub proof fn wall_allocation_is_bounded(wall: u32, deadline: UtcTime, now: UtcTime)
    requires
        wall_allocation(wall, deadline, now) is Ok,
    ensures
        0 < wall_allocation(wall, deadline, now)->Ok_0 <= wall,
        wall_allocation(wall, deadline, now)->Ok_0 * 1_000_000_000 <= deadline.nanos - now.nanos,
{
}

/// A stored input artifact holds between one byte and `max` bytes.
pub fn artifact_size(size: DbCounter, max: u64) -> (r: Result<DbCounter, StoreError>)
    ensures
        (0 < size.amount() <= max) ==> r == Ok::<DbCounter, StoreError>(size),
        !(0 < size.amount() <= max) ==> r == Err::<DbCounter, StoreError>(StoreError::Integrity),
{
    if size.get() == 0 || size.get() > max {
        return Err(StoreError::Integrity);
    }
    Ok(size)
}

/// The forecast unit of a frozen Brief's target kind.
pub fn forecast_unit(target_kind: &str) -> (r: Result<&'static str, StoreError>)
    ensures
        target_kind@ == "SCORE"@ ==> (r matches Ok(u) && u@ == "UNITLESS_SCORE"@),
        target_kind@ == "EXPECTED_RETURN"@ ==> (r matches Ok(u) && u@ == "RETURN_PER_HORIZON"@),
        (target_kind@ != "SCORE"@ && target_kind@ != "EXPECTED_RETURN"@) ==> r == Err::<
            &'static str,
            StoreError,
        >(StoreError::Integrity),
{
    proof {
        reveal_strlit("SCORE");
        reveal_strlit("EXPECTED_RETURN");
        assert("SCORE"@.len() != "EXPECTED_RETURN"@.len());
    }
    if crate::text::same_text(target_kind, "SCORE") {
        Ok("UNITLESS_SCORE")
    } else if crate::text::same_text(target_kind, "EXPECTED_RETURN") {
        Ok("RETURN_PER_HORIZON")
    } else {
        Err(StoreError::Integrity)
    }
}

/// Only the Cycle's Researcher Mission compiles experiments.
pub fn check_compiler(kind: RunKind, researcher: bool) -> (r: Result<(), StoreError>)
    ensures
        (kind == RunKind::AgentResearch && researcher) ==> r == Ok::<(), StoreError>(()),
        !(kind == RunKind::AgentResearch && researcher) ==> r == Err::<(), StoreError>(
            StoreError::Forbidden,
        ),
{
    if kind != RunKind::AgentResearch || !researcher {
        return Err(StoreError::Forbidden);
    }
    Ok(())
}

/// An existing compilation always keeps its Run, and is replayed only to the
/// Mission that started it.
pub fn check_compilation_owner(owner: Id, mission: Id) -> (r: Result<(), StoreError>)
    ensures
        owner == mission ==> r == Ok::<(), StoreError>(()),
        owner != mission ==> r == Err::<(), StoreError>(StoreError::Conflict),
{
    if owner != mission {
        return Err(StoreError::Conflict);
    }
    Ok(())
}

/// A compilation needs the experiment's code and parameters.
pub fn compilation_sources(code: Option<Id>, parameters: Option<Id>) -> (r: Result<
    (Id, Id),
    StoreError,
>)
    ensures
        code is None ==> r == Err::<(Id, Id), StoreError>(
            StoreError::Invalid("experiment_code_required"),
        ),
        (code is Some && parameters is None) ==> r == Err::<(Id, Id), StoreError>(
            StoreError::Invalid("experiment_parameters_required"),
        ),
        (code is Some && parameters is Some) ==> r == Ok::<(Id, Id), StoreError>(
            (code->0, parameters->0),
        ),
{
    let c = match code {
        Some(c) => c,
        None => {
            return Err(StoreError::Invalid("experiment_code_required"));
        },
    };
    match parameters {
        Some(p) => Ok((c, p)),
        None => Err(StoreError::Invalid("experiment_parameters_required")),
    }
}

/// The Cycle's frozen runtime binding is the one the Mission was admitted on.
pub fn check_runtime_binding(
    context_runtime: Id,
    context_revision: crate::ids::Revision,
    admitted_runtime: Id,
    admitted_revision: crate::ids::Revision,
) -> (r: Result<(), StoreError>)
    ensures
        (context_runtime == admitted_runtime && context_revision == admitted_revision) ==> r
            == Ok::<(), StoreError>(()),
        !(context_runtime == admitted_runtime && context_revision == admitted_revision) ==> r
            == Err::<(), StoreError>(StoreError::Integrity),
{
    if context_runtime != admitted_runtime || context_revision != admitted_revision {
        return Err(StoreError::Integrity);
    }
    Ok(())
}

pub open spec fn compilation_check(charged: bool, accepted_models: nat) -> Result<(), StoreError> {
    if !charged {
        Err(StoreError::Invalid("original_trial_charge_required"))
    } else if accepted_models != 1 {
        Err(StoreError::Invalid("accepted_compilation_required"))
    } else {
        Ok(())
    }
}

/// A forecast or validation needs the compilation that charged the
/// experiment's one trial, with exactly one accepted model.
pub fn check_compilation(charged: bool, accepted_models: usize) -> (r: Result<(), StoreError>)
    ensures
        r == compilation_check(charged, accepted_models as nat),
{
    if !charged {
        return Err(StoreError::Invalid("original_trial_charge_required"));
    }
    if accepted_models != 1 {
        return Err(StoreError::Invalid("accepted_compilation_required"));
    }
    Ok(())
}

pub open spec fn horizon_check(kind: Seq<char>, value: Option<i64>, label: u32) -> Result<
    (),
    StoreError,
> {
    if kind != "FIXED_BARS"@ {
        Err(StoreError::Domain(DomainError::CapabilityUnavailable("native_fixed_bar_horizon")))
    } else if value != Some(label as i64) {
        Err(StoreError::Invalid("forecast_label_horizon"))
    } else {
        Ok(())
    }
}

/// Native forecasts run only fixed-bar horizons, and the proposal labels
/// exactly the Brief's horizon.
pub fn check_horizon(kind: &str, value: Option<i64>, label: u32) -> (r: Result<(), StoreError>)
    ensures
        r == horizon_check(kind@, value, label),
{
    if !crate::text::same_text(kind, "FIXED_BARS") {
        return Err(
            StoreError::Domain(DomainError::CapabilityUnavailable("native_fixed_bar_horizon")),
        );
    }
    if value != Some(label as i64) {
        return Err(StoreError::Invalid("forecast_label_horizon"));
    }
    Ok(())
}

/// The dataset a stage runs on, by its index among the input set's bindings:
/// a validation's one revision, which the Alpha was forecast on; a forecast's
/// first binding of the proposed revision.
pub open spec fn science_dataset_spec(
    validation: bool,
    bindings: Seq<Id>,
    proposed: Id,
    alpha_dataset: Option<Id>,
) -> Result<int, StoreError> {
    if validation {
        if bindings.len() != 1 {
            Err(
                StoreError::Domain(
                    DomainError::CapabilityUnavailable("native_alpha_single_validation_revision"),
                ),
            )
        } else if alpha_dataset != Some(proposed) {
            Err(StoreError::Integrity)
        } else {
            Ok(0)
        }
    } else if exists|i: int| 0 <= i < bindings.len() && bindings[i] == proposed {
        Ok(choose|i: int| 0 <= i < bindings.len() && bindings[i] == proposed && forall|k: int|
            0 <= k < i ==> bindings[k] != proposed)
    } else {
        Err(StoreError::Invalid("forecast_discovery_dataset"))
    }
}

/// A forecast runs on the first binding, at whatever position, of the proposed
/// revision, and is refused only when no binding is that revision; a validation
/// runs on the single binding, which must be the revision its Alpha was forecast on.
pub proof fn forecast_runs_on_the_first_proposed_binding(
    validation: bool,
    bindings: Seq<Id>,
    proposed: Id,
    alpha_dataset: Option<Id>,
)
    ensures
        !validation && (exists|i: int| 0 <= i < bindings.len() && bindings[i] == proposed)
            ==> science_dataset_spec(validation, bindings, proposed, alpha_dataset) is Ok,
        !validation && (forall|i: int| 0 <= i < bindings.len() ==> bindings[i] != proposed)
            ==> science_dataset_spec(validation, bindings, proposed, alpha_dataset) == Err::<
            int,
            StoreError,
        >(StoreError::Invalid("forecast_discovery_dataset")),
        !validation ==> (science_dataset_spec(validation, bindings, proposed, alpha_dataset) matches Ok(i) ==> {
            &&& 0 <= i < bindings.len()
            &&& bindings[i] == proposed
            &&& forall|k: int| 0 <= k < i ==> bindings[k] != proposed
        }),
        validation ==> science_dataset_spec(validation, bindings, proposed, alpha_dataset) == (if bindings.len() != 1 {
            Err::<int, StoreError>(
                StoreError::Domain(
                    DomainError::CapabilityUnavailable("native_alpha_single_validation_revision"),
                ),
            )
        } else if alpha_dataset != Some(proposed) {
            Err::<int, StoreError>(StoreError::Integrity)
        } else {
            Ok::<int, StoreError>(0)
        }),
{
    if !validation && exists|i: int| 0 <= i < bindings.len() && bindings[i] == proposed {
        let w = choose|i: int| 0 <= i < bindings.len() && bindings[i] == proposed;
        lemma_first_binding(bindings, proposed, w);
        let c = choose|c: int|
            0 <= c < bindings.len() && bindings[c] == proposed && forall|k: int|
                0 <= k < c ==> bindings[k] != proposed;
        assert(0 <= c < bindings.len() && bindings[c] == proposed);
    }
}

proof fn lemma_first_binding(bindings: Seq<Id>, proposed: Id, w: int)
    requires
        0 <= w < bindings.len(),
        bindings[w] == proposed,
    ensures
        exists|i: int|
            0 <= i < bindings.len() && bindings[i] == proposed && forall|k: int|
                0 <= k < i ==> bindings[k] != proposed,
    decreases w,
{
    if exists|k: int| 0 <= k < w && bindings[k] == proposed {
        let k = choose|k: int| 0 <= k < w && bindings[k] == proposed;
        lemma_first_binding(bindings, proposed, k);
    } else {
        assert(forall|k: int| 0 <= k < w ==> bindings[k] != proposed);
    }
}

pub fn science_dataset(
    validation: bool,
    bindings: &Vec<Id>,
    proposed: Id,
    alpha_dataset: Option<Id>,
) -> (r: Result<usize, StoreError>)
    ensures
        match science_dataset_spec(validation, bindings@, proposed, alpha_dataset) {
            Ok(i) => r == Ok::<usize, StoreError>(i as usize),
            Err(e) => r == Err::<usize, StoreError>(e),
        },
        !validation ==> (r matches Ok(i) <==> (exists|j: int|
            0 <= j < bindings@.len() && bindings@[j] == proposed)),
        !validation && r is Err ==> r == Err::<usize, StoreError>(
            StoreError::Invalid("forecast_discovery_dataset"),
        ),
        !validation ==> (r matches Ok(i) ==> {
            &&& i < bindings@.len()
            &&& bindings@[i as int] == proposed
            &&& forall|k: int| 0 <= k < i ==> bindings@[k] != proposed
        }),
{
    proof {
        forecast_runs_on_the_first_proposed_binding(validation, bindings@, proposed, alpha_dataset);
    }
    if validation {
        if bindings.len() != 1 {
            return Err(
                StoreError::Domain(
                    DomainError::CapabilityUnavailable("native_alpha_single_validation_revision"),
                ),
            );
        }
        if alpha_dataset != Some(proposed) {
            return Err(StoreError::Integrity);
        }
        return Ok(0);
    }
    let mut i: usize = 0;
    while i < bindings.len()
        invariant
            !validation,
            i <= bindings@.len(),
            forall|k: int| 0 <= k < i ==> bindings@[k] != proposed,
        decreases bindings@.len() - i,
    {
        if bindings[i] == proposed {
            proof {
                assert(0 <= i < bindings@.len() && bindings@[i as int] == proposed && forall|k: int|
                    0 <= k < i ==> bindings@[k] != proposed);
                let c = choose|c: int|
                    0 <= c < bindings@.len() && bindings@[c] == proposed && forall|k: int|
                        0 <= k < c ==> bindings@[k] != proposed;
                if c < i {
                    assert(bindings@[c] != proposed);
                }
                if c > i {
                    assert(bindings@[i as int] != proposed);
                }
                assert(c == i);
                assert(science_dataset_spec(validation, bindings@, proposed, alpha_dataset) == Ok::<
                    int,
                    StoreError,
                >(i as int));
            }
            return Ok(i);
        }
        i = i + 1;
    }
    Err(StoreError::Invalid("forecast_discovery_dataset"))
}

/// The stage runs the Brief's frozen engine image, and a validation the very
/// image its Alpha was frozen with.
pub fn check_science_image(image: &str, brief_image: &str, alpha_image: &Option<String>) -> (r:
    Result<(), StoreError>)
    ensures
        (image@ == brief_image@ && (alpha_image matches Some(a) ==> a@ == image@)) ==> r == Ok::<
            (),
            StoreError,
        >(()),
        !(image@ == brief_image@ && (alpha_image matches Some(a) ==> a@ == image@)) ==> r
            == Err::<(), StoreError>(
            StoreError::Domain(DomainError::CapabilityUnavailable("frozen_alpha_image_changed")),
        ),
{
    let alpha_differs = match alpha_image {
        Some(a) => !crate::text::same_text(a.as_str(), image),
        None => false,
    };
    if !crate::text::same_text(image, brief_image) || alpha_differs {
        return Err(
            StoreError::Domain(DomainError::CapabilityUnavailable("frozen_alpha_image_changed")),
        );
    }
    Ok(())
}

} // verus!
