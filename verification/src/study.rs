//! The admission checks of a portfolio study: the policy owns the study window,
//! the source Candidate owns the cohort, and nothing is trimmed or replaced
//! between the two reads of the sources.
use vstd::prelude::*;
use crate::error::{DomainError, StoreError};
use crate::ids::{DbCounter, Id, UtcTime, DB_MAX};
use crate::native::RuntimeInput;
use crate::portfolio_build::{first_occurrences, pinned, pins, real_pit, unavailable, EngineVersion, ForwardDataset};

verus! {

/// The most native inputs a study job may read, exclusive.
pub const MAX_STUDY_INPUTS: usize = 256usize;

/// The engines a study needs, each at its exact version.
pub open spec fn study_engines(
    engines: Seq<EngineVersion>,
    execution: Seq<char>,
    solver: Seq<char>,
    ensemble: Seq<char>,
    covariance: Seq<char>,
) -> bool {
    &&& pins(engines, "portfolio-study"@, "6"@)
    &&& pins(engines, "portfolio-history"@, "1"@)
    &&& pins(engines, "portfolio-models"@, "4"@)
    &&& pins(engines, "portfolio-cost-source"@, "1"@)
    &&& pins(engines, "portfolio-slippage"@, "1"@)
    &&& pins(engines, "simulation-models"@, "1"@)
    &&& pins(engines, "nautilus"@, execution)
    &&& pins(engines, "clarabel"@, solver)
    &&& pins(engines, "ndarray"@, ensemble)
    &&& pins(engines, "ndarray-stats"@, covariance)
}

/// The runtime runs the study, history, model, cost, slippage and simulation
/// engines, and the execution, solver, ensemble and covariance engines at the
/// versions given.
pub fn check_study_engines(
    engines: &Vec<EngineVersion>,
    execution: &str,
    solver: &str,
    ensemble: &str,
    covariance: &str,
) -> (r: Result<(), StoreError>)
    ensures
        study_engines(engines@, execution@, solver@, ensemble@, covariance@) ==> r == Ok::<
            (),
            StoreError,
        >(()),
        !study_engines(engines@, execution@, solver@, ensemble@, covariance@) ==> r == Err::<
            (),
            StoreError,
        >(unavailable("portfolio_study_engines")),
{
    if !pinned(engines, "portfolio-study", "6") || !pinned(engines, "portfolio-history", "1")
        || !pinned(engines, "portfolio-models", "4") || !pinned(
        engines,
        "portfolio-cost-source",
        "1",
    ) || !pinned(engines, "portfolio-slippage", "1") || !pinned(engines, "simulation-models", "1")
        || !pinned(engines, "nautilus", execution) || !pinned(engines, "clarabel", solver)
        || !pinned(engines, "ndarray", ensemble) || !pinned(engines, "ndarray-stats", covariance) {
        return Err(StoreError::Domain(DomainError::CapabilityUnavailable("portfolio_study_engines")));
    }
    Ok(())
}

/// What a Candidate was built from, against what a study or simulation of it asks.
#[derive(Clone, Copy, Debug)]
pub struct CandidateSource {
    pub cycle_policy: Id,
    pub required_policy: Id,
    pub build_runtime: Id,
    pub requested_runtime: Id,
    pub build_mandate: Id,
    pub mandate: Id,
}

pub open spec fn source_matches(s: CandidateSource) -> bool {
    s.cycle_policy == s.required_policy && s.build_runtime == s.requested_runtime && s.build_mandate
        == s.mandate
}

/// A study runs under the mandate's required policy, on the runtime and for
/// the mandate its Candidate was built with.
pub fn check_study_source(s: &CandidateSource) -> (r: Result<(), StoreError>)
    ensures
        source_matches(*s) ==> r == Ok::<(), StoreError>(()),
        !source_matches(*s) ==> r == Err::<(), StoreError>(StoreError::Invalid("portfolio_study_source")),
{
    if s.cycle_policy != s.required_policy || s.build_runtime != s.requested_runtime
        || s.build_mandate != s.mandate {
        return Err(StoreError::Invalid("portfolio_study_source"));
    }
    Ok(())
}

/// The policy a study is admitted under, as far as the study reads it.
#[derive(Clone, Copy, Debug)]
pub struct StudyPolicy {
    pub has_plan: bool,
    pub project: Id,
    pub has_portfolio_metrics: bool,
}

pub open spec fn policy_check(p: StudyPolicy, project: Id) -> Result<(), StoreError> {
    if !p.has_plan {
        Err(StoreError::Invalid("portfolio_study_plan_required"))
    } else if p.project != project || !p.has_portfolio_metrics {
        Err(StoreError::Invalid("portfolio_study_policy"))
    } else {
        Ok(())
    }
}

/// The policy freezes a study plan and portfolio metric requirements, for this project.
pub fn check_study_policy(p: &StudyPolicy, project: Id) -> (r: Result<(), StoreError>)
    ensures
        r == policy_check(*p, project),
{
    if !p.has_plan {
        return Err(StoreError::Invalid("portfolio_study_plan_required"));
    }
    if p.project != project || !p.has_portfolio_metrics {
        return Err(StoreError::Invalid("portfolio_study_policy"));
    }
    Ok(())
}

/// A dataset bound for a study, with the window its selection covers.
#[derive(Clone, Debug)]
pub struct StudyDataset {
    pub dataset: ForwardDataset,
    pub selection_start_ns: DbCounter,
    pub selection_end_ns: DbCounter,
    pub event_start: UtcTime,
    pub event_end: UtcTime,
}

pub open spec fn representable(t: UtcTime) -> bool {
    0 <= t.nanos <= DB_MAX
}

/// The selection covers the registered version's whole window.
pub open spec fn whole_window(d: StudyDataset) -> bool {
    d.selection_start_ns.amount() == d.event_start.nanos && d.selection_end_ns.amount()
        == d.event_end.nanos
}

pub open spec fn study_dataset_check(datasets: Seq<StudyDataset>, universe: Id) -> Result<
    (),
    StoreError,
> {
    if datasets.len() != 1 {
        Err(StoreError::Invalid("portfolio_study_dataset"))
    } else if !representable(datasets[0].event_start) {
        Err(StoreError::Integrity)
    } else if datasets[0].selection_start_ns.amount() != datasets[0].event_start.nanos {
        Err(StoreError::Invalid("portfolio_study_source_window"))
    } else if !representable(datasets[0].event_end) {
        Err(StoreError::Integrity)
    } else if !whole_window(datasets[0]) {
        Err(StoreError::Invalid("portfolio_study_source_window"))
    } else if !real_pit(datasets[0].dataset) {
        Err(StoreError::Invalid("portfolio_study_real_pit"))
    } else if datasets[0].dataset.universe_version != universe {
        Err(StoreError::Invalid("portfolio_study_universe"))
    } else {
        Ok(())
    }
}

/// A study reads exactly one portfolio dataset, over the registered version's
/// whole window (a quality report for less is no permission to trim it), of
/// real verified point-in-time data, in the mandate's universe.
pub fn check_study_dataset(datasets: &Vec<StudyDataset>, universe: Id) -> (r: Result<
    (),
    StoreError,
>)
    ensures
        r == study_dataset_check(datasets@, universe),
{
    if datasets.len() != 1 {
        return Err(StoreError::Invalid("portfolio_study_dataset"));
    }
    let d = &datasets[0];
    let start = crate::portfolio::nanos(d.event_start)?;
    if d.selection_start_ns.get() != start.get() {
        return Err(StoreError::Invalid("portfolio_study_source_window"));
    }
    let end = crate::portfolio::nanos(d.event_end)?;
    if d.selection_end_ns.get() != end.get() {
        return Err(StoreError::Invalid("portfolio_study_source_window"));
    }
    if !(crate::text::same_text(d.dataset.origin.as_str(), "REAL") && crate::text::same_text(
        d.dataset.pit_status.as_str(),
        "VERIFIED",
    ) && crate::text::same_text(d.dataset.revision_policy.as_str(), "AS_KNOWN_THEN")) {
        return Err(StoreError::Invalid("portfolio_study_real_pit"));
    }
    if d.dataset.universe_version != universe {
        return Err(StoreError::Invalid("portfolio_study_universe"));
    }
    Ok(())
}

/// The latest of the research datasets' availability, or zero.
pub open spec fn latest(values: Seq<DbCounter>) -> nat
    decreases values.len(),
{
    if values.len() == 0 {
        0
    } else {
        let earlier = latest(values.drop_last());
        if values.last().amount() > earlier {
            values.last().amount()
        } else {
            earlier
        }
    }
}

/// The latest availability is one of the datasets' own, or zero with none.
pub proof fn latest_is_one_of_them(values: Seq<DbCounter>)
    ensures
        latest(values) == 0 || exists|i: int|
            0 <= i < values.len() && (#[trigger] values[i]).amount() == latest(values),
        forall|i: int| 0 <= i < values.len() ==> (#[trigger] values[i]).amount() <= latest(values),
    decreases values.len(),
{
    if values.len() > 0 {
        let rest = values.drop_last();
        latest_is_one_of_them(rest);
        assert forall|i: int| 0 <= i < rest.len() implies #[trigger] rest[i] == values[i] by {}
        assert(values[values.len() - 1] == values.last());
        if latest(values) != 0 && latest(values) == latest(rest) {
            let k = choose|i: int| 0 <= i < rest.len() && (#[trigger] rest[i]).amount() == latest(rest);
            assert(values[k] == rest[k]);
        }
        assert forall|i: int| 0 <= i < values.len() implies (#[trigger] values[i]).amount() <= latest(values) by {
            if i < rest.len() {
                assert(rest[i] == values[i]);
            }
        }
    }
}

/// The research the cohort was selected on was available through the latest
/// of its datasets' availability.
pub fn research_available_through(values: &Vec<DbCounter>) -> (r: DbCounter)
    ensures
        r.amount() == latest(values@),
        forall|i: int| 0 <= i < values@.len() ==> (#[trigger] values@[i]).amount() <= r.amount(),
        r.amount() == 0 || exists|i: int| 0 <= i < values@.len() && (#[trigger] values@[i]).amount() == r.amount(),
{
    proof {
        latest_is_one_of_them(values@);
    }
    let mut best = DbCounter::zero();
    let mut i: usize = 0;
    while i < values.len()
        invariant
            i <= values@.len(),
            best.amount() == latest(values@.subrange(0, i as int)),
            forall|k: int| 0 <= k < i ==> (#[trigger] values@[k]).amount() <= best.amount(),
        decreases values@.len() - i,
    {
        proof {
            assert(values@.subrange(0, i + 1).drop_last() =~= values@.subrange(0, i as int));
        }
        if values[i].get() > best.get() {
            best = values[i];
        }
        i = i + 1;
    }
    proof {
        assert(values@.subrange(0, values@.len() as int) =~= values@);
    }
    best
}

/// The earliest of a list of deadlines, if there is any.
pub open spec fn earliest_deadline(deadlines: Seq<UtcTime>) -> Option<UtcTime>
    decreases deadlines.len(),
{
    if deadlines.len() == 0 {
        None
    } else {
        match earliest_deadline(deadlines.drop_last()) {
            None => Some(deadlines.last()),
            Some(e) => if deadlines.last().nanos < e.nanos {
                Some(deadlines.last())
            } else {
                Some(e)
            },
        }
    }
}

/// How long a study's sources hold: every named qualification must exist, and
/// the sources hold until the earliest of the qualifications' validity, their
/// revocations, the data-use grants behind the inputs and those grants'
/// revocations, which must still lie ahead of `now`.
pub open spec fn sources_until(requested: nat, found: nat, deadlines: Seq<UtcTime>, now: UtcTime) -> Result<
    UtcTime,
    StoreError,
> {
    match earliest_deadline(deadlines) {
        Some(e) => if requested > 0 && found == requested && now.nanos < e.nanos {
            Ok(e)
        } else {
            Err(StoreError::Invalid("portfolio_study_source_expired"))
        },
        None => Err(StoreError::Invalid("portfolio_study_source_expired")),
    }
}

pub fn study_sources_until(requested: usize, found: usize, deadlines: &Vec<UtcTime>, now: UtcTime) -> (r:
    Result<UtcTime, StoreError>)
    ensures
        r == sources_until(requested as nat, found as nat, deadlines@, now),
        r matches Ok(u) ==> {
            &&& requested > 0 && found == requested
            &&& now.nanos < u.nanos
            &&& forall|i: int| 0 <= i < deadlines@.len() ==> u.nanos <= (#[trigger] deadlines@[i]).nanos
            &&& exists|i: int| 0 <= i < deadlines@.len() && #[trigger] deadlines@[i] == u
        },
        (requested == 0 || found != requested || deadlines@.len() == 0 || exists|i: int|
            0 <= i < deadlines@.len() && (#[trigger] deadlines@[i]).nanos <= now.nanos) ==> r
            == Err::<UtcTime, StoreError>(StoreError::Invalid("portfolio_study_source_expired")),
{
    proof {
        lemma_earliest_is_first(deadlines@);
    }
    let mut best: Option<UtcTime> = None;
    let mut i: usize = 0;
    while i < deadlines.len()
        invariant
            i <= deadlines@.len(),
            best == earliest_deadline(deadlines@.subrange(0, i as int)),
        decreases deadlines@.len() - i,
    {
        proof {
            assert(deadlines@.subrange(0, i + 1).drop_last() =~= deadlines@.subrange(0, i as int));
        }
        let d = deadlines[i];
        best = match best {
            None => Some(d),
            Some(e) => if d.is_before(&e) {
                Some(d)
            } else {
                Some(e)
            },
        };
        i = i + 1;
    }
    proof {
        assert(deadlines@.subrange(0, deadlines@.len() as int) =~= deadlines@);
    }
    match best {
        Some(e) => if requested > 0 && found == requested && now.is_before(&e) {
            Ok(e)
        } else {
            Err(StoreError::Invalid("portfolio_study_source_expired"))
        },
        None => Err(StoreError::Invalid("portfolio_study_source_expired")),
    }
}

/// No source deadline passes before the window the sources answer: the
/// answer lies at or before every deadline, and after `now`.
pub proof fn sources_hold_until_the_first_deadline(
    requested: nat,
    found: nat,
    deadlines: Seq<UtcTime>,
    now: UtcTime,
)
    requires
        sources_until(requested, found, deadlines, now) is Ok,
    ensures
        now.nanos < sources_until(requested, found, deadlines, now)->Ok_0.nanos,
        forall|i: int|
            0 <= i < deadlines.len() ==> sources_until(requested, found, deadlines, now)->Ok_0.nanos
                <= (#[trigger] deadlines[i]).nanos,
        exists|i: int|
            0 <= i < deadlines.len() && #[trigger] deadlines[i] == sources_until(
                requested,
                found,
                deadlines,
                now,
            )->Ok_0,
        requested > 0 && found == requested,
{
    lemma_earliest_is_first(deadlines);
}

proof fn lemma_earliest_is_first(deadlines: Seq<UtcTime>)
    ensures
        earliest_deadline(deadlines) matches Some(e) ==> forall|i: int|
            0 <= i < deadlines.len() ==> e.nanos <= (#[trigger] deadlines[i]).nanos,
        earliest_deadline(deadlines) matches Some(e) ==> exists|i: int|
            0 <= i < deadlines.len() && #[trigger] deadlines[i] == e,
        deadlines.len() > 0 <==> earliest_deadline(deadlines) is Some,
    decreases deadlines.len(),
{
    if deadlines.len() > 0 {
        lemma_earliest_is_first(deadlines.drop_last());
        let rest = deadlines.drop_last();
        assert forall|i: int| 0 <= i < deadlines.len() - 1 implies #[trigger] deadlines[i] == rest[i] by {}
        assert(deadlines[deadlines.len() - 1] == deadlines.last());
        if let Some(e) = earliest_deadline(deadlines) {
            if rest.len() > 0 && e == earliest_deadline(rest)->0 {
                let k = choose|i: int| 0 <= i < rest.len() && #[trigger] rest[i] == e;
                assert(deadlines[k] == rest[k]);
            }
        }
    }
}

/// A rolling liquidity source must be the mandate's own liquidity artifact and
/// needs the runtime's rolling-liquidity and bar-notional models.
pub open spec fn rolling_check(
    input: RuntimeInput,
    liquidity_ref: Option<Id>,
    engines: Seq<EngineVersion>,
) -> Result<(), StoreError> {
    if !(input matches RuntimeInput::Artifact { artifact_id, .. } && liquidity_ref == Some(
        artifact_id,
    )) {
        Err(StoreError::Integrity)
    } else if !pins(engines, "portfolio-rolling-liquidity"@, "1"@) || !pins(
        engines,
        "bar-notional"@,
        "1"@,
    ) {
        Err(unavailable("portfolio_study_liquidity"))
    } else {
        Ok(())
    }
}

pub fn check_rolling_liquidity(
    input: &RuntimeInput,
    liquidity_ref: Option<Id>,
    engines: &Vec<EngineVersion>,
) -> (r: Result<(), StoreError>)
    ensures
        r == rolling_check(*input, liquidity_ref, engines@),
{
    let own = match input {
        RuntimeInput::Artifact { artifact_id, .. } => match liquidity_ref {
            Some(l) => l == *artifact_id,
            None => false,
        },
        RuntimeInput::Dataset { .. } => false,
    };
    if !own {
        return Err(StoreError::Integrity);
    }
    if !pinned(engines, "portfolio-rolling-liquidity", "1") || !pinned(engines, "bar-notional", "1") {
        return Err(
            StoreError::Domain(DomainError::CapabilityUnavailable("portfolio_study_liquidity")),
        );
    }
    Ok(())
}

/// A calendar-session schedule needs the runtime's calendar model.
pub fn check_calendar_engine(calendar_session: bool, engines: &Vec<EngineVersion>) -> (r: Result<
    (),
    StoreError,
>)
    ensures
        (calendar_session && !pins(engines@, "portfolio-calendar"@, "2"@)) ==> r == Err::<
            (),
            StoreError,
        >(unavailable("portfolio_study_calendar")),
        !(calendar_session && !pins(engines@, "portfolio-calendar"@, "2"@)) ==> r == Ok::<
            (),
            StoreError,
        >(()),
{
    if calendar_session && !pinned(engines, "portfolio-calendar", "2") {
        return Err(StoreError::Domain(DomainError::CapabilityUnavailable("portfolio_study_calendar")));
    }
    Ok(())
}

/// A study job reads each artifact once (shared models appear under several
/// members), and fewer than 256 inputs in all.
pub fn study_inputs(inputs: Vec<RuntimeInput>) -> (r: Result<Vec<RuntimeInput>, StoreError>)
    ensures
        first_occurrences(inputs@).len() < MAX_STUDY_INPUTS ==> (r matches Ok(v) && v@
            == first_occurrences(inputs@)),
        first_occurrences(inputs@).len() >= MAX_STUDY_INPUTS ==> r == Err::<
            Vec<RuntimeInput>,
            StoreError,
        >(StoreError::Invalid("portfolio_study_inputs")),
{
    let kept = crate::portfolio_build::dedup_inputs(inputs);
    if kept.len() >= MAX_STUDY_INPUTS {
        return Err(StoreError::Invalid("portfolio_study_inputs"));
    }
    Ok(kept)
}

} // verus!
