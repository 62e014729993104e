//! Runtime probes: the short check that a runtime integration answers, the
//! readiness it reports, and the check every fresh native job passes. A probe is
//! no scientific evidence and grants no configuration authority.
use vstd::prelude::*;
use crate::error::{DomainError, StoreError};
use crate::ids::{in_utc_range, Revision, UtcTime};
use crate::runs::{lists, listed, run_kind_code, RunKind, RuntimeCapabilities};

verus! {

/// Seconds a probe may take from its start to its publication.
pub const PROBE_SECONDS: i64 = 20i64;

/// Seconds before the probe's start that a capability snapshot may have been taken.
pub const SNAPSHOT_SLACK_SECONDS: i64 = 5i64;

/// Seconds a probe observation stays valid after the probe started.
pub const PROBE_VALIDITY_SECONDS: i64 = 60i64;

/// Largest probe document a runtime observation may publish.
pub const MAX_PROBE_DOCUMENT_BYTES: usize = 1048576usize;

/// What a probe saw of the runtime.
#[derive(Clone, Debug)]
pub enum ProbeOutcome {
    Available { capabilities: RuntimeCapabilities },
    Unavailable,
}

/// The latest recorded probe of a runtime.
#[derive(Clone, Debug)]
pub struct ProbeObservation {
    pub integration_revision: Revision,
    pub observed_at: UtcTime,
    pub valid_until: UtcTime,
    pub outcome: ProbeOutcome,
}

/// The configured runtime integration, as locked for a decision.
#[derive(Clone, Debug)]
pub struct RuntimeIntegration {
    pub revision: Revision,
    pub enabled: bool,
    pub allowed_capabilities: Vec<String>,
}

#[derive(Clone, Copy, Debug, PartialEq, Eq, Structural)]
pub enum ReadinessState {
    Disabled,
    NotChecked,
    Stale,
    Unavailable,
    Available,
}

/// A probe speaks for the configuration it was taken of, until it expires.
pub open spec fn probe_current(probe: ProbeObservation, revision: Revision, now: UtcTime) -> bool {
    probe.integration_revision == revision && now.nanos < probe.valid_until.nanos
}

pub open spec fn readiness_state(
    integration: RuntimeIntegration,
    latest: Option<ProbeObservation>,
    now: UtcTime,
) -> ReadinessState {
    if !integration.enabled {
        ReadinessState::Disabled
    } else {
        match latest {
            None => ReadinessState::NotChecked,
            Some(probe) => if !probe_current(probe, integration.revision, now) {
                ReadinessState::Stale
            } else {
                match probe.outcome {
                    ProbeOutcome::Available { .. } => ReadinessState::Available,
                    ProbeOutcome::Unavailable => ReadinessState::Unavailable,
                }
            },
        }
    }
}

/// The probed job kinds that the integration is also configured to run, in the
/// probe's order.
pub open spec fn configured_kinds(kinds: Seq<RunKind>, configured: Seq<String>) -> Seq<RunKind>
    decreases kinds.len(),
{
    if kinds.len() == 0 {
        Seq::<RunKind>::empty()
    } else {
        let earlier = configured_kinds(kinds.drop_last(), configured);
        if lists(configured, run_kind_code(kinds.last())) {
            earlier.push(kinds.last())
        } else {
            earlier
        }
    }
}

/// A readiness report keeps a job kind, wherever it stands in the probe's list,
/// exactly when the integration's configuration lists its code, and keeps
/// nothing else, in the probe's order.
pub proof fn configured_kinds_keep_exactly_the_allowed(kinds: Seq<RunKind>, configured: Seq<String>)
    ensures
        forall|k: RunKind|
            #[trigger] configured_kinds(kinds, configured).contains(k) <==> (kinds.contains(k) && lists(
                configured,
                run_kind_code(k),
            )),
        configured_kinds(kinds, configured).len() <= kinds.len(),
    decreases kinds.len(),
{
    if kinds.len() > 0 {
        let rest = kinds.drop_last();
        configured_kinds_keep_exactly_the_allowed(rest, configured);
        let earlier = configured_kinds(rest, configured);
        let last = kinds.last();
        assert forall|k: RunKind|
            #[trigger] configured_kinds(kinds, configured).contains(k) <==> (kinds.contains(k) && lists(
                configured,
                run_kind_code(k),
            )) by {
            assert(kinds =~= rest.push(last));
            if kinds.contains(k) {
                let i = choose|i: int| 0 <= i < kinds.len() && kinds[i] == k;
                if i < rest.len() {
                    assert(rest[i] == k);
                }
            }
            if rest.contains(k) {
                let i = choose|i: int| 0 <= i < rest.len() && rest[i] == k;
                assert(kinds[i] == k);
            }
            if lists(configured, run_kind_code(last)) {
                assert(configured_kinds(kinds, configured) == earlier.push(last));
                if earlier.push(last).contains(k) {
                    let i = choose|i: int| 0 <= i < earlier.push(last).len() && earlier.push(last)[i] == k;
                    if i < earlier.len() {
                        assert(earlier[i] == k);
                    }
                }
                if earlier.contains(k) {
                    let i = choose|i: int| 0 <= i < earlier.len() && earlier[i] == k;
                    assert(earlier.push(last)[i] == k);
                }
                assert(earlier.push(last)[earlier.len() as int] == last);
            }
        }
    }
}

/// The job kinds a readiness report offers: those of a current, available probe
/// that the integration allows; none otherwise.
pub open spec fn ready_kinds(
    integration: RuntimeIntegration,
    latest: Option<ProbeObservation>,
    now: UtcTime,
) -> Seq<RunKind> {
    match latest {
        Some(probe) => match probe.outcome {
            ProbeOutcome::Available { capabilities } => if readiness_state(
                integration,
                latest,
                now,
            ) == ReadinessState::Available {
                configured_kinds(capabilities.job_kinds@, integration.allowed_capabilities@)
            } else {
                Seq::<RunKind>::empty()
            },
            ProbeOutcome::Unavailable => Seq::<RunKind>::empty(),
        },
        None => Seq::<RunKind>::empty(),
    }
}

fn filter_kinds(kinds: &Vec<RunKind>, configured: &Vec<String>) -> (r: Vec<RunKind>)
    ensures
        r@ == configured_kinds(kinds@, configured@),
{
    let mut out: Vec<RunKind> = Vec::new();
    let mut i: usize = 0;
    while i < kinds.len()
        invariant
            i <= kinds@.len(),
            out@ == configured_kinds(kinds@.subrange(0, i as int), configured@),
        decreases kinds@.len() - i,
    {
        proof {
            assert(kinds@.subrange(0, i + 1).drop_last() =~= kinds@.subrange(0, i as int));
        }
        if listed(configured, kinds[i].code()) {
            out.push(kinds[i]);
        }
        i = i + 1;
    }
    proof {
        assert(kinds@.subrange(0, kinds@.len() as int) =~= kinds@);
    }
    out
}

/// The readiness of a runtime: disabled, never probed, probed for another
/// revision or too long ago, or as the current probe saw it, with the job kinds
/// it is both configured and able to run.
pub fn runtime_readiness(
    integration: &RuntimeIntegration,
    latest: &Option<ProbeObservation>,
    now: UtcTime,
) -> (r: (ReadinessState, Vec<RunKind>))
    ensures
        r.0 == readiness_state(*integration, *latest, now),
        r.1@ == ready_kinds(*integration, *latest, now),
{
    if !integration.enabled {
        return (ReadinessState::Disabled, Vec::new());
    }
    match latest {
        None => (ReadinessState::NotChecked, Vec::new()),
        Some(probe) => {
            if probe.integration_revision != integration.revision || !now.is_before(
                &probe.valid_until,
            ) {
                return (ReadinessState::Stale, Vec::new());
            }
            match &probe.outcome {
                ProbeOutcome::Available { capabilities } => {
                    let kinds = filter_kinds(
                        &capabilities.job_kinds,
                        &integration.allowed_capabilities,
                    );
                    (ReadinessState::Available, kinds)
                },
                ProbeOutcome::Unavailable => (ReadinessState::Unavailable, Vec::new()),
            }
        },
    }
}

pub open spec fn offers_kind(capabilities: RuntimeCapabilities, kind: RunKind) -> bool {
    exists|j: int|
        0 <= j < capabilities.job_kinds@.len() && #[trigger] capabilities.job_kinds@[j] == kind
}

/// A runtime offers a job kind exactly when some entry, at whatever position, is that kind.
pub proof fn kind_offered_anywhere(capabilities: RuntimeCapabilities, kind: RunKind)
    ensures
        forall|j: int|
            0 <= j < capabilities.job_kinds@.len() && #[trigger] capabilities.job_kinds@[j] == kind
                ==> offers_kind(capabilities, kind),
        offers_kind(capabilities, kind) ==> exists|j: int|
            0 <= j < capabilities.job_kinds@.len() && #[trigger] capabilities.job_kinds@[j] == kind,
{
}

fn has_kind(kinds: &Vec<RunKind>, kind: RunKind) -> (r: bool)
    ensures
        r == exists|j: int| 0 <= j < kinds@.len() && #[trigger] kinds@[j] == kind,
{
    let mut j: usize = 0;
    while j < kinds.len()
        invariant
            j <= kinds@.len(),
            forall|k: int| 0 <= k < j ==> #[trigger] kinds@[k] != kind,
        decreases kinds@.len() - j,
    {
        if kinds[j] == kind {
            return true;
        }
        j = j + 1;
    }
    false
}

pub open spec fn unavailable<T>(reason: &'static str) -> Result<T, StoreError> {
    Err(StoreError::Domain(DomainError::CapabilityUnavailable(reason)))
}

/// What a fresh native job may rely on: the integration is enabled, at the
/// revision the job was admitted against, and allows the kind; the latest
/// probe is of that revision, current, and saw the kind available.
pub open spec fn capability_gate(
    integration: RuntimeIntegration,
    revision: Revision,
    kind: RunKind,
    latest: Option<ProbeObservation>,
    now: UtcTime,
) -> Result<RuntimeCapabilities, StoreError> {
    if !integration.enabled || integration.revision != revision || !lists(
        integration.allowed_capabilities@,
        run_kind_code(kind),
    ) {
        unavailable("runtime_job_kind_or_revision")
    } else {
        match latest {
            None => unavailable("runtime_not_probed"),
            Some(probe) => if !probe_current(probe, revision, now) {
                unavailable("runtime_probe_stale")
            } else {
                match probe.outcome {
                    ProbeOutcome::Available { capabilities } => if offers_kind(
                        capabilities,
                        kind,
                    ) {
                        Ok(capabilities)
                    } else {
                        unavailable("runtime_probe_unavailable")
                    },
                    ProbeOutcome::Unavailable => unavailable("runtime_probe_unavailable"),
                }
            },
        }
    }
}

/// The check of every admission and first dispatch of a native job; no network
/// I/O, implied grant or client-supplied capability takes part.
pub fn require_capabilities(
    integration: &RuntimeIntegration,
    revision: Revision,
    kind: RunKind,
    latest: Option<ProbeObservation>,
    now: UtcTime,
) -> (r: Result<RuntimeCapabilities, StoreError>)
    ensures
        r == capability_gate(*integration, revision, kind, latest, now),
{
    if !integration.enabled || integration.revision != revision || !listed(
        &integration.allowed_capabilities,
        kind.code(),
    ) {
        return Err(
            StoreError::Domain(DomainError::CapabilityUnavailable("runtime_job_kind_or_revision")),
        );
    }
    match latest {
        None => Err(StoreError::Domain(DomainError::CapabilityUnavailable("runtime_not_probed"))),
        Some(probe) => {
            if probe.integration_revision != revision || !now.is_before(&probe.valid_until) {
                return Err(
                    StoreError::Domain(DomainError::CapabilityUnavailable("runtime_probe_stale")),
                );
            }
            match probe.outcome {
                ProbeOutcome::Available { capabilities } => {
                    if has_kind(&capabilities.job_kinds, kind) {
                        Ok(capabilities)
                    } else {
                        Err(
                            StoreError::Domain(
                                DomainError::CapabilityUnavailable("runtime_probe_unavailable"),
                            ),
                        )
                    }
                },
                ProbeOutcome::Unavailable => Err(
                    StoreError::Domain(DomainError::CapabilityUnavailable("runtime_probe_unavailable")),
                ),
            }
        },
    }
}

/// A probe may be completed only between its start and twenty seconds later.
pub open spec fn probe_open(started_at: UtcTime, now: UtcTime) -> bool {
    started_at.nanos <= now.nanos <= started_at.nanos + PROBE_SECONDS * 1_000_000_000
}

/// The refusal of a probe completed too late, or of a runtime disabled meanwhile.
pub open spec fn probe_expired<T>() -> Result<T, StoreError> {
    unavailable("probe_expired_or_disabled")
}

pub open spec fn completion_check(
    current: Revision,
    ticket_revision: Revision,
    enabled: bool,
    started_at: UtcTime,
    now: UtcTime,
    outcome: ProbeOutcome,
) -> Result<(), StoreError> {
    if current != ticket_revision {
        Err(StoreError::RevisionConflict { current })
    } else if !enabled || !probe_open(started_at, now) {
        probe_expired()
    } else {
        match outcome {
            ProbeOutcome::Available { capabilities } => if capabilities.checked_at.nanos
                < started_at.nanos - SNAPSHOT_SLACK_SECONDS * 1_000_000_000 {
                unavailable("runtime_observation_predates_probe")
            } else {
                Ok(())
            },
            ProbeOutcome::Unavailable => Ok(()),
        }
    }
}

fn window_open(started_at: UtcTime, now: UtcTime) -> (r: bool)
    ensures
        r == probe_open(started_at, now),
{
    if now.is_before(&started_at) {
        return false;
    }
    match started_at.nanos.checked_add(PROBE_SECONDS as i128 * 1_000_000_000) {
        Some(end) => now.nanos <= end,
        None => true,
    }
}

/// The checks a probe's outcome passes before it is published: the integration
/// is at the ticket's revision, still enabled, the probe still within its
/// twenty seconds, and a seen snapshot no older than five seconds before the probe.
pub fn check_probe_completion(
    current: Revision,
    ticket_revision: Revision,
    enabled: bool,
    started_at: UtcTime,
    now: UtcTime,
    outcome: &ProbeOutcome,
) -> (r: Result<(), StoreError>)
    ensures
        r == completion_check(current, ticket_revision, enabled, started_at, now, *outcome),
{
    if current != ticket_revision {
        return Err(StoreError::RevisionConflict { current });
    }
    if !enabled || !window_open(started_at, now) {
        return Err(
            StoreError::Domain(DomainError::CapabilityUnavailable("probe_expired_or_disabled")),
        );
    }
    match outcome {
        ProbeOutcome::Available { capabilities } => {
            let earliest = started_at.nanos.checked_sub(
                SNAPSHOT_SLACK_SECONDS as i128 * 1_000_000_000,
            );
            let predates = match earliest {
                Some(e) => capabilities.checked_at.nanos < e,
                None => false,
            };
            if predates {
                Err(
                    StoreError::Domain(
                        DomainError::CapabilityUnavailable("runtime_observation_predates_probe"),
                    ),
                )
            } else {
                Ok(())
            }
        },
        ProbeOutcome::Unavailable => Ok(()),
    }
}

/// The publication of a probe still lies within its twenty seconds.
pub fn check_probe_publication(started_at: UtcTime, now: UtcTime) -> (r: Result<(), StoreError>)
    ensures
        probe_open(started_at, now) ==> r == Ok::<(), StoreError>(()),
        !probe_open(started_at, now) ==> r == probe_expired::<()>(),
{
    if !window_open(started_at, now) {
        return Err(
            StoreError::Domain(DomainError::CapabilityUnavailable("probe_expired_or_disabled")),
        );
    }
    Ok(())
}

/// A probe document is published only when it is neither empty nor over a mebibyte.
pub fn check_probe_document(len: usize) -> (r: Result<(), StoreError>)
    ensures
        (1 <= len <= MAX_PROBE_DOCUMENT_BYTES) ==> r == Ok::<(), StoreError>(()),
        !(1 <= len <= MAX_PROBE_DOCUMENT_BYTES) ==> r == Err::<(), StoreError>(
            StoreError::Invalid("runtime_probe_artifact_size"),
        ),
{
    if len == 0 || len > MAX_PROBE_DOCUMENT_BYTES {
        return Err(StoreError::Invalid("runtime_probe_artifact_size"));
    }
    Ok(())
}

/// A probe observation is valid for a minute from the probe's start.
pub fn probe_valid_until(started_at: UtcTime) -> (r: UtcTime)
    requires
        in_utc_range(started_at.nanos + PROBE_VALIDITY_SECONDS * 1_000_000_000),
    ensures
        r.nanos == started_at.nanos + PROBE_VALIDITY_SECONDS * 1_000_000_000,
{
    UtcTime { nanos: started_at.nanos + PROBE_VALIDITY_SECONDS as i128 * 1_000_000_000 }
}

/// Seconds a probe must still be valid for a Run's refresh to be skipped.
pub const REFRESH_MARGIN_SECONDS: i128 = 10i128;

/// The facts a Run's own readiness refresh is decided on, as locked.
#[derive(Clone, Debug)]
pub struct RunProbeFacts {
    pub state: crate::runs::RunState,
    /// The current attempt has not been sent.
    pub not_sent: bool,
    /// The Run has a registered native task.
    pub registered: bool,
    /// The runtime revision the Run was admitted against.
    pub admitted_revision: Revision,
    pub current_revision: Revision,
    pub enabled: bool,
    pub deadline: UtcTime,
    pub now: UtcTime,
    pub latest: Option<ProbeObservation>,
}

pub open spec fn prepare_spec(f: RunProbeFacts) -> Result<bool, StoreError> {
    if crate::runs::terminal(f.state) || f.state == crate::runs::RunState::CancelRequested
        || !f.not_sent {
        Ok(false)
    } else if !f.registered {
        Err(StoreError::Invalid("native_task_not_defined"))
    } else if f.current_revision != f.admitted_revision {
        Err(StoreError::RevisionConflict { current: f.current_revision })
    } else if !f.enabled {
        unavailable("runtime_disabled")
    } else if f.deadline.nanos <= f.now.nanos {
        Err(StoreError::Domain(DomainError::AdmissionClosed))
    } else if f.latest matches Some(p) && p.integration_revision == f.admitted_revision
        && p.valid_until.nanos > f.now.nanos + REFRESH_MARGIN_SECONDS * 1_000_000_000 {
        Ok(false)
    } else {
        Ok(true)
    }
}

/// Whether an owned, unsent Run refreshes its runtime's readiness now: not
/// once it was sent or is being cancelled, and not while a probe of the
/// admitted revision stays valid for ten more seconds.
pub fn prepare_run_runtime_probe(f: &RunProbeFacts) -> (r: Result<bool, StoreError>)
    ensures
        r == prepare_spec(*f),
{
    if f.state.is_terminal() || f.state == crate::runs::RunState::CancelRequested || !f.not_sent {
        return Ok(false);
    }
    if !f.registered {
        return Err(StoreError::Invalid("native_task_not_defined"));
    }
    if f.current_revision != f.admitted_revision {
        return Err(StoreError::RevisionConflict { current: f.current_revision });
    }
    if !f.enabled {
        return Err(StoreError::Domain(DomainError::CapabilityUnavailable("runtime_disabled")));
    }
    if !f.now.is_before(&f.deadline) {
        return Err(StoreError::Domain(DomainError::AdmissionClosed));
    }
    let fresh = match &f.latest {
        Some(p) => p.integration_revision == f.admitted_revision && match f.now.nanos.checked_add(
            REFRESH_MARGIN_SECONDS * 1_000_000_000,
        ) {
            Some(margin) => margin < p.valid_until.nanos,
            None => false,
        },
        None => false,
    };
    Ok(!fresh)
}

/// How a Run's readiness refresh completes.
#[derive(Clone, Copy, Debug, PartialEq, Eq, Structural)]
pub enum RefreshStep {
    /// A concurrent observer already recorded a newer, current probe: keep it.
    KeepLatest,
    /// Publish this probe's observation.
    Publish,
}

pub open spec fn complete_spec(
    f: RunProbeFacts,
    ticket_revision: Revision,
    started_at: UtcTime,
) -> Result<RefreshStep, StoreError> {
    if crate::runs::terminal(f.state) || f.state == crate::runs::RunState::CancelRequested
        || !f.not_sent {
        Err(StoreError::Domain(DomainError::AdmissionClosed))
    } else if f.current_revision != ticket_revision {
        Err(StoreError::RevisionConflict { current: f.current_revision })
    } else if !f.enabled {
        unavailable("runtime_disabled")
    } else if f.deadline.nanos <= f.now.nanos {
        Err(StoreError::Domain(DomainError::AdmissionClosed))
    } else if f.latest matches Some(p) && p.integration_revision == f.current_revision
        && p.observed_at.nanos >= started_at.nanos && p.valid_until.nanos > f.now.nanos {
        Ok(RefreshStep::KeepLatest)
    } else {
        Ok(RefreshStep::Publish)
    }
}

/// A refresh completes only for the still unsent Run, at the ticket's runtime
/// revision, before the Run's deadline; a newer current probe is kept, never
/// replaced or republished.
pub fn complete_run_runtime_probe(
    f: &RunProbeFacts,
    ticket_revision: Revision,
    started_at: UtcTime,
) -> (r: Result<RefreshStep, StoreError>)
    ensures
        r == complete_spec(*f, ticket_revision, started_at),
{
    if f.state.is_terminal() || f.state == crate::runs::RunState::CancelRequested || !f.not_sent {
        return Err(StoreError::Domain(DomainError::AdmissionClosed));
    }
    if f.current_revision != ticket_revision {
        return Err(StoreError::RevisionConflict { current: f.current_revision });
    }
    if !f.enabled {
        return Err(StoreError::Domain(DomainError::CapabilityUnavailable("runtime_disabled")));
    }
    if !f.now.is_before(&f.deadline) {
        return Err(StoreError::Domain(DomainError::AdmissionClosed));
    }
    let newer = match &f.latest {
        Some(p) => p.integration_revision == f.current_revision && !p.observed_at.is_before(
            &started_at,
        ) && f.now.is_before(&p.valid_until),
        None => false,
    };
    if newer {
        Ok(RefreshStep::KeepLatest)
    } else {
        Ok(RefreshStep::Publish)
    }
}

/// An operator probe starts only against the integration revision the
/// operator saw, while the integration is enabled.
pub fn check_probe_preparation(current: Revision, expected: Revision, enabled: bool) -> (r: Result<
    (),
    StoreError,
>)
    ensures
        current != expected ==> r == Err::<(), StoreError>(StoreError::RevisionConflict { current }),
        (current == expected && !enabled) ==> r == unavailable::<()>("runtime_disabled"),
        (current == expected && enabled) ==> r == Ok::<(), StoreError>(()),
{
    if current != expected {
        return Err(StoreError::RevisionConflict { current });
    }
    if !enabled {
        return Err(StoreError::Domain(DomainError::CapabilityUnavailable("runtime_disabled")));
    }
    Ok(())
}

} // verus!
