//! The admission checks of a Candidate simulation: it holds the Candidate's
//! own targets over the forward data from the moment they became available,
//! and never past their expiry. Success grants no evaluation or release authority.
use vstd::prelude::*;
use crate::error::{DomainError, StoreError};
use crate::ids::{DbCounter, UtcTime, DB_MAX};
use crate::portfolio_build::{pinned, pins, unavailable, EngineVersion};
use crate::study::{source_matches, CandidateSource};
use crate::text::same_text;

verus! {

/// A simulation runs under the mandate's required policy, on the runtime and
/// for the mandate its Candidate was built with.
pub fn check_simulation_source(s: &CandidateSource) -> (r: Result<(), StoreError>)
    ensures
        source_matches(*s) ==> r == Ok::<(), StoreError>(()),
        !source_matches(*s) ==> r == Err::<(), StoreError>(
            StoreError::Invalid("candidate_simulation_source"),
        ),
{
    if s.cycle_policy != s.required_policy || s.build_runtime != s.requested_runtime
        || s.build_mandate != s.mandate {
        return Err(StoreError::Invalid("candidate_simulation_source"));
    }
    Ok(())
}

pub open spec fn simulation_runtime(
    image: Seq<char>,
    frozen_image: Seq<char>,
    engines: Seq<EngineVersion>,
) -> bool {
    &&& image == frozen_image
    &&& pins(engines, "candidate-simulation"@, "1"@)
    &&& pins(engines, "simulation-models"@, "1"@)
}

/// The simulation image is the one the Candidate was built with, and the
/// runtime runs the simulation models.
pub fn check_simulation_runtime(image: &str, frozen_image: &str, engines: &Vec<EngineVersion>) -> (r:
    Result<(), StoreError>)
    ensures
        simulation_runtime(image@, frozen_image@, engines@) ==> r == Ok::<(), StoreError>(()),
        !simulation_runtime(image@, frozen_image@, engines@) ==> r == Err::<(), StoreError>(
            unavailable("candidate_simulation_source"),
        ),
{
    if !same_text(image, frozen_image) || !pinned(engines, "candidate-simulation", "1") || !pinned(
        engines,
        "simulation-models",
        "1",
    ) {
        return Err(
            StoreError::Domain(DomainError::CapabilityUnavailable("candidate_simulation_source")),
        );
    }
    Ok(())
}

/// The window a simulation holds the targets over.
#[derive(Clone, Copy, Debug, PartialEq, Eq, Structural)]
pub struct SimulationWindow {
    pub event_start_ns: DbCounter,
    pub event_end_ns: DbCounter,
    pub valid_until_ns: DbCounter,
}

pub open spec fn window_spec(
    start: DbCounter,
    end: DbCounter,
    available: DbCounter,
    valid_until: UtcTime,
) -> Result<(int, int, int), StoreError> {
    if !(0 <= valid_until.nanos <= DB_MAX) {
        Err(StoreError::Integrity)
    } else if start.amount() > available.amount() {
        Err(StoreError::Invalid("candidate_simulation_start_coverage"))
    } else {
        Ok(
            (
                available.amount() as int,
                if end.amount() < valid_until.nanos {
                    end.amount() as int
                } else {
                    valid_until.nanos as int
                },
                valid_until.nanos as int,
            ),
        )
    }
}

/// The forward data must cover the moment the targets became available; the
/// simulation starts there and ends no later than the targets' expiry.
pub fn simulation_window(
    start: DbCounter,
    end: DbCounter,
    available: DbCounter,
    valid_until: UtcTime,
) -> (r: Result<SimulationWindow, StoreError>)
    ensures
        match window_spec(start, end, available, valid_until) {
            Ok((s, e, u)) => r matches Ok(w) && w.event_start_ns.amount() == s
                && w.event_end_ns.amount() == e && w.valid_until_ns.amount() == u,
            Err(err) => r == Err::<SimulationWindow, StoreError>(err),
        },
{
    let until = crate::portfolio::nanos(valid_until)?;
    if start.get() > available.get() {
        return Err(StoreError::Invalid("candidate_simulation_start_coverage"));
    }
    let last = if end.get() < until.get() {
        end
    } else {
        until
    };
    Ok(SimulationWindow { event_start_ns: available, event_end_ns: last, valid_until_ns: until })
}

/// A simulation whose window ends after its start holds targets only while
/// they are valid: it starts when they became available and ends by their expiry.
pub proof fn simulation_stays_within_targets(
    start: DbCounter,
    end: DbCounter,
    available: DbCounter,
    valid_until: UtcTime,
)
    requires
        window_spec(start, end, available, valid_until) is Ok,
    ensures
        ({
            let (s, e, u) = window_spec(start, end, available, valid_until)->Ok_0;
            &&& s == available.amount()
            &&& e <= u
            &&& e <= end.amount()
            &&& start.amount() <= s
        }),
{
}

/// The targets must still be valid when the simulation is admitted.
pub fn check_targets_current(checked: UtcTime, valid_until: UtcTime) -> (r: Result<
    (),
    StoreError,
>)
    ensures
        checked.nanos < valid_until.nanos ==> r == Ok::<(), StoreError>(()),
        checked.nanos >= valid_until.nanos ==> r == Err::<(), StoreError>(
            StoreError::Invalid("candidate_simulation_expired"),
        ),
{
    if !checked.is_before(&valid_until) {
        return Err(StoreError::Invalid("candidate_simulation_expired"));
    }
    Ok(())
}

} // verus!
