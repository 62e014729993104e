//! Portfolio mandates: a mandate is admitted only against the runtime's native
//! portfolio models and a convex solver, and only when every reference it
//! freezes agrees with the execution assumptions and the universe it names.
use vstd::prelude::*;
use crate::error::{DomainError, StoreError};
use crate::ids::{DecimalValue, Id};
use crate::portfolio_build::{pinned, pins, unavailable, EngineVersion};
use crate::runs::{ImageRef, RunKind};
use crate::text::same_text;
use crate::turns::opt_text;

verus! {

pub open spec fn mandate_models(
    engines: Seq<EngineVersion>,
    solver: Seq<char>,
    ensemble: Seq<char>,
    covariance: Seq<char>,
) -> bool {
    &&& pins(engines, "clarabel"@, solver)
    &&& pins(engines, "ndarray"@, ensemble)
    &&& pins(engines, "ndarray-stats"@, covariance)
    &&& pins(engines, "portfolio-models"@, "4"@)
}

/// A mandate needs the solver, ensemble and covariance engines at the versions
/// given, and the portfolio models at version 4.
pub fn check_mandate_models(
    engines: &Vec<EngineVersion>,
    solver: &str,
    ensemble: &str,
    covariance: &str,
) -> (r: Result<(), StoreError>)
    ensures
        mandate_models(engines@, solver@, ensemble@, covariance@) ==> r == Ok::<(), StoreError>(()),
        !mandate_models(engines@, solver@, ensemble@, covariance@) ==> r == Err::<(), StoreError>(
            unavailable("mandate_native_models"),
        ),
{
    if !pinned(engines, "clarabel", solver) || !pinned(engines, "ndarray", ensemble) || !pinned(
        engines,
        "ndarray-stats",
        covariance,
    ) || !pinned(engines, "portfolio-models", "4") {
        return Err(StoreError::Domain(DomainError::CapabilityUnavailable("mandate_native_models")));
    }
    Ok(())
}

pub open spec fn lists_code(codes: Seq<String>, code: Seq<char>) -> bool {
    exists|i: int| 0 <= i < codes.len() && (#[trigger] codes[i])@ == code
}

/// A code is offered exactly when some entry, at whatever position, reads it.
pub proof fn code_listed_anywhere(codes: Seq<String>, code: Seq<char>)
    ensures
        forall|i: int| 0 <= i < codes.len() && (#[trigger] codes[i])@ == code ==> lists_code(codes, code),
        lists_code(codes, code) ==> exists|i: int| 0 <= i < codes.len() && (#[trigger] codes[i])@ == code,
{
}

/// A mandate needs a runtime whose solver handles convex quadratic programs.
pub fn check_mandate_solver(solvers: &Vec<String>) -> (r: Result<(), StoreError>)
    ensures
        lists_code(solvers@, "CONVEX_QP"@) ==> r == Ok::<(), StoreError>(()),
        !lists_code(solvers@, "CONVEX_QP"@) ==> r == Err::<(), StoreError>(
            unavailable("mandate_native_solver"),
        ),
{
    if !crate::runs::listed(solvers, "CONVEX_QP") {
        proof {
            assert(!crate::runs::lists(solvers@, "CONVEX_QP"@));
        }
        return Err(StoreError::Domain(DomainError::CapabilityUnavailable("mandate_native_solver")));
    }
    Ok(())
}

/// What a mandate freezes, against what its execution assumptions, selection
/// policy and universe record.
#[derive(Clone, Debug)]
pub struct MandateReferences {
    /// The execution assumptions the selection policy was frozen with.
    pub policy_assumptions: Id,
    pub assumptions: Id,
    pub assumption_currency: String,
    pub base_currency: String,
    pub starting_capital: DecimalValue,
    pub capital_assumption: DecimalValue,
    pub fee_schedule: Id,
    pub transaction_costs_ref: Id,
    pub liquidity_artifact: Option<Id>,
    pub liquidity_ref: Option<Id>,
    pub participation_limit: Option<DecimalValue>,
    pub max_participation: Option<DecimalValue>,
    pub cost_assumption_status: String,
    pub calendar_version: String,
    pub universe_calendar_version: String,
    pub schedule_calendar: Option<String>,
    pub universe_calendar: Option<String>,
    /// The engine image the assumptions were frozen with.
    pub engine_image: String,
}

pub open spec fn runs_image(images: Seq<ImageRef>, image: Seq<char>) -> bool {
    exists|i: int|
        0 <= i < images.len() && (#[trigger] images[i]).job_kind == RunKind::PortfolioBuild
            && images[i].image_ref@ == image
}

/// The runtime runs builds on an image exactly when some entry, at whatever
/// position, is a portfolio-build image of that reference.
pub proof fn build_image_anywhere(images: Seq<ImageRef>, image: Seq<char>)
    ensures
        forall|i: int|
            0 <= i < images.len() && (#[trigger] images[i]).job_kind == RunKind::PortfolioBuild
                && images[i].image_ref@ == image ==> runs_image(images, image),
        runs_image(images, image) ==> exists|i: int|
            0 <= i < images.len() && (#[trigger] images[i]).job_kind == RunKind::PortfolioBuild
                && images[i].image_ref@ == image,
{
}

pub open spec fn references_agree(m: MandateReferences, images: Seq<ImageRef>) -> bool {
    &&& m.policy_assumptions == m.assumptions
    &&& m.assumption_currency@ == m.base_currency@
    &&& m.starting_capital == m.capital_assumption
    &&& m.fee_schedule == m.transaction_costs_ref
    &&& m.liquidity_artifact == m.liquidity_ref
    &&& m.participation_limit == m.max_participation
    &&& m.cost_assumption_status@ != "INSUFFICIENT"@
    &&& m.calendar_version@ == m.universe_calendar_version@
    &&& (m.schedule_calendar matches Some(c) ==> opt_text(m.universe_calendar) == Some(c@))
    &&& runs_image(images, m.engine_image@)
}

fn has_build_image(images: &Vec<ImageRef>, image: &str) -> (r: bool)
    ensures
        r == runs_image(images@, image@),
{
    let mut i: usize = 0;
    while i < images.len()
        invariant
            i <= images@.len(),
            forall|k: int|
                0 <= k < i ==> !((#[trigger] images@[k]).job_kind == RunKind::PortfolioBuild
                    && images@[k].image_ref@ == image@),
        decreases images@.len() - i,
    {
        if images[i].job_kind == RunKind::PortfolioBuild && same_text(
            images[i].image_ref.as_str(),
            image,
        ) {
            return true;
        }
        i = i + 1;
    }
    false
}

/// Every reference a mandate freezes agrees with its sources, and the runtime
/// builds portfolios with the assumptions' engine image.
pub fn check_frozen_references(m: &MandateReferences, images: &Vec<ImageRef>) -> (r: Result<
    (),
    StoreError,
>)
    ensures
        references_agree(*m, images@) ==> r == Ok::<(), StoreError>(()),
        !references_agree(*m, images@) ==> r == Err::<(), StoreError>(
            StoreError::Domain(DomainError::Invalid("mandate_frozen_references")),
        ),
{
    let calendar_ok = match &m.schedule_calendar {
        Some(c) => match &m.universe_calendar {
            Some(u) => same_text(u.as_str(), c.as_str()),
            None => false,
        },
        None => true,
    };
    if m.policy_assumptions != m.assumptions || !same_text(
        m.assumption_currency.as_str(),
        m.base_currency.as_str(),
    ) || m.starting_capital != m.capital_assumption || m.fee_schedule != m.transaction_costs_ref
        || m.liquidity_artifact != m.liquidity_ref || m.participation_limit != m.max_participation
        || same_text(m.cost_assumption_status.as_str(), "INSUFFICIENT") || !same_text(
        m.calendar_version.as_str(),
        m.universe_calendar_version.as_str(),
    ) || !calendar_ok || !has_build_image(images, m.engine_image.as_str()) {
        return Err(StoreError::Domain(DomainError::Invalid("mandate_frozen_references")));
    }
    Ok(())
}

/// A project's next mandate version.
pub fn next_mandate_version(previous: i32) -> (r: Result<i32, StoreError>)
    ensures
        previous < i32::MAX ==> r == Ok::<i32, StoreError>((previous + 1) as i32),
        previous == i32::MAX ==> r == Err::<i32, StoreError>(StoreError::Integrity),
{
    match previous.checked_add(1) {
        Some(v) => Ok(v),
        None => Err(StoreError::Integrity),
    }
}

} // verus!
