//! Where publishing a Run's result starts: an earlier publication is replayed
//! with nothing written, and only a terminal Run publishes anew.
use vstd::prelude::*;
use crate::error::StoreError;
use crate::ids::Id;
use crate::runs::{terminal, RunState};

verus! {

/// How a publication begins.
#[derive(Clone, Copy, Debug, PartialEq, Eq, Structural)]
pub enum PublishStart {
    /// The result was published before as this resource: answer it again.
    Replay(Id),
    /// The Run carries nothing of this kind to publish.
    Nothing,
    /// Publish now.
    Publish,
}

/// An earlier publication wins; otherwise the Run must have reached a terminal state.
pub open spec fn publish_start(prior: Option<Id>, state: RunState) -> Result<PublishStart, StoreError> {
    match prior {
        Some(id) => Ok(PublishStart::Replay(id)),
        None => if terminal(state) {
            Ok(PublishStart::Publish)
        } else {
            Err(StoreError::Conflict)
        },
    }
}

/// The start of publishing a portfolio build's Candidate: the Candidate
/// published before for this Run is replayed, whatever the Run's state.
pub fn candidate_publication_start(prior: Option<Id>, state: RunState) -> (r: Result<
    PublishStart,
    StoreError,
>)
    ensures
        r == publish_start(prior, state),
{
    match prior {
        Some(id) => Ok(PublishStart::Replay(id)),
        None => if state.is_terminal() {
            Ok(PublishStart::Publish)
        } else {
            Err(StoreError::Conflict)
        },
    }
}

/// The start of observing a forward evaluation: only forward Runs are
/// observed; an earlier observation is replayed.
pub fn forward_observation_start(forward_run: bool, prior: Option<Id>, state: RunState) -> (r:
    Result<PublishStart, StoreError>)
    ensures
        !forward_run ==> r == Ok::<PublishStart, StoreError>(PublishStart::Nothing),
        forward_run ==> r == publish_start(prior, state),
{
    if !forward_run {
        return Ok(PublishStart::Nothing);
    }
    candidate_publication_start(prior, state)
}

/// The start of publishing a scientific result, in the store's order: a Run
/// bound to no validation publishes nothing; an evaluation it already has is
/// replayed; otherwise its terminal receipt must exist, the Run be terminal and
/// the experiment's outcome still pending.
pub open spec fn scientific_start(
    bound: bool,
    existing: Option<Id>,
    receipt_found: bool,
    state: RunState,
    outcome_pending: bool,
) -> Result<PublishStart, StoreError> {
    if !bound {
        Ok(PublishStart::Nothing)
    } else {
        match existing {
            Some(id) => Ok(PublishStart::Replay(id)),
            None => if !receipt_found || !terminal(state) || !outcome_pending {
                Err(StoreError::Conflict)
            } else {
                Ok(PublishStart::Publish)
            },
        }
    }
}

pub fn scientific_publication_start(
    bound: bool,
    existing: Option<Id>,
    receipt_found: bool,
    state: RunState,
    outcome_pending: bool,
) -> (r: Result<PublishStart, StoreError>)
    ensures
        r == scientific_start(bound, existing, receipt_found, state, outcome_pending),
{
    if !bound {
        return Ok(PublishStart::Nothing);
    }
    if let Some(id) = existing {
        return Ok(PublishStart::Replay(id));
    }
    if !receipt_found || !state.is_terminal() || !outcome_pending {
        return Err(StoreError::Conflict);
    }
    Ok(PublishStart::Publish)
}

/// What a Candidate simulation Run is bound to, against what its request names.
#[derive(Clone, Copy, Debug)]
pub struct SimulationBinding {
    pub request_candidate: Id,
    pub candidate: Id,
    pub request_input_set: Id,
    pub run_input_set: Id,
    pub request_cycle: Id,
    pub run_cycle: Option<Id>,
    pub candidate_project: Id,
    pub run_project: Id,
    pub policy: Id,
    pub required_policy: Id,
}

/// The request agrees with the Run and the Candidate's mandate on every identity.
pub open spec fn simulation_consistent(b: SimulationBinding) -> bool {
    &&& b.request_candidate == b.candidate
    &&& b.request_input_set == b.run_input_set
    &&& b.run_cycle == Some(b.request_cycle)
    &&& b.candidate_project == b.run_project
    &&& b.policy == b.required_policy
}

/// The start of publishing a Candidate simulation's evaluation, in the store's
/// order: a Run bound to no simulation publishes nothing; a binding that
/// disagrees with its request is corrupt; an evaluation published before is
/// replayed; otherwise the Run must be terminal, with its terminal receipt.
pub open spec fn simulation_start(
    binding: Option<SimulationBinding>,
    prior: Option<Id>,
    state: RunState,
    receipt_found: bool,
) -> Result<PublishStart, StoreError> {
    match binding {
        None => Ok(PublishStart::Nothing),
        Some(b) => if !simulation_consistent(b) {
            Err(StoreError::Integrity)
        } else {
            match publish_start(prior, state) {
                Ok(PublishStart::Publish) => if receipt_found {
                    Ok(PublishStart::Publish)
                } else {
                    Err(StoreError::Integrity)
                },
                other => other,
            }
        },
    }
}

pub fn simulation_publication_start(
    binding: Option<SimulationBinding>,
    prior: Option<Id>,
    state: RunState,
    receipt_found: bool,
) -> (r: Result<PublishStart, StoreError>)
    ensures
        r == simulation_start(binding, prior, state, receipt_found),
{
    let b = match binding {
        None => {
            return Ok(PublishStart::Nothing);
        },
        Some(b) => b,
    };
    if b.request_candidate != b.candidate || b.request_input_set != b.run_input_set
        || b.run_cycle != Some(b.request_cycle) || b.candidate_project != b.run_project
        || b.policy != b.required_policy {
        return Err(StoreError::Integrity);
    }
    let start = candidate_publication_start(prior, state)?;
    if start == PublishStart::Publish && !receipt_found {
        return Err(StoreError::Integrity);
    }
    Ok(start)
}

/// The start of publishing a held-out (Sealed) evaluation: one published before
/// is replayed; otherwise the Run's terminal receipt must exist and the Run be terminal.
pub fn sealed_publication_start(existing: Option<Id>, receipt_found: bool, state: RunState) -> (r:
    Result<PublishStart, StoreError>)
    ensures
        existing matches Some(id) ==> r == Ok::<PublishStart, StoreError>(PublishStart::Replay(id)),
        existing is None ==> r == (if receipt_found && terminal(state) {
            Ok::<PublishStart, StoreError>(PublishStart::Publish)
        } else {
            Err::<PublishStart, StoreError>(StoreError::Conflict)
        }),
{
    if let Some(id) = existing {
        return Ok(PublishStart::Replay(id));
    }
    if !receipt_found || !state.is_terminal() {
        return Err(StoreError::Conflict);
    }
    Ok(PublishStart::Publish)
}

/// A publication is answered again, with nothing written, whatever the Run's
/// state and however often it is asked: once published, the same resource
/// comes back, and no second publication starts.
pub proof fn publications_replay(
    prior: Id,
    state: RunState,
    receipt_found: bool,
    pending: bool,
    binding: SimulationBinding,
)
    requires
        simulation_consistent(binding),
    ensures
        simulation_start(Some(binding), Some(prior), state, receipt_found) == Ok::<
            PublishStart,
            StoreError,
        >(PublishStart::Replay(prior)),
        publish_start(Some(prior), state) == Ok::<PublishStart, StoreError>(PublishStart::Replay(prior)),
        scientific_start(true, Some(prior), receipt_found, state, pending) == Ok::<
            PublishStart,
            StoreError,
        >(PublishStart::Replay(prior)),
{
}

} // verus!
