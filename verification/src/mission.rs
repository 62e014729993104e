//! Finite Cycle transitions and native Mission ownership: the settings a native
//! session is requested with, the limits of a Mission Run, which Cycle step
//! follows a finished Run, and what a Mission's credential may carry.
use vstd::prelude::*;
use crate::error::{DomainError, StoreError};
use crate::ids::{DbCounter, Id, Revision, UtcTime};
use crate::runs::{in_progress, terminal, JobLimits, RunKind, RunState};
use crate::text::same_text;
use crate::turns::opt_text;

verus! {

/// Saved model settings of a Codex profile.
#[derive(Clone, Debug)]
pub struct ModelSettings {
    pub use_default_model_settings: bool,
    pub saved_fast_mode: bool,
    pub saved_model: Option<String>,
    pub saved_reasoning_effort: Option<String>,
}

/// The frozen Codex profile a Mission was admitted with.
#[derive(Clone, Debug)]
pub struct CodexProfile {
    pub id: Id,
    pub revision: Revision,
    pub profile_origin: String,
    pub connection_mode: String,
    pub model_settings: ModelSettings,
}

/// Nonsecret request metadata. Ignored saved settings are not native overrides.
#[derive(Clone, Debug)]
pub struct EffectiveCodexRequest {
    pub profile_id: Id,
    pub profile_revision: Revision,
    pub profile_origin: String,
    pub connection_mode: String,
    pub use_default_model_settings: bool,
    pub model: Option<String>,
    pub reasoning_effort: Option<String>,
    pub service_tier: Option<String>,
}

/// A service tier is requested exactly when saved settings are in use and ask for fast mode.
pub open spec fn tier_consistent(profile: CodexProfile, tier: Option<String>) -> bool {
    (tier is Some) == (!profile.model_settings.use_default_model_settings
        && profile.model_settings.saved_fast_mode)
}

/// A request carries the profile's identity, origin, connection and tier, and
/// its saved model and effort unless it uses the defaults.
pub open spec fn request_fits(
    e: EffectiveCodexRequest,
    profile: CodexProfile,
    tier: Option<String>,
) -> bool {
    &&& e.profile_id == profile.id
    &&& e.profile_revision == profile.revision
    &&& e.profile_origin@ == profile.profile_origin@
    &&& e.connection_mode@ == profile.connection_mode@
    &&& e.use_default_model_settings == profile.model_settings.use_default_model_settings
    &&& opt_text(e.service_tier) == opt_text(tier)
    &&& if profile.model_settings.use_default_model_settings {
        e.model is None && e.reasoning_effort is None
    } else {
        opt_text(e.model) == opt_text(profile.model_settings.saved_model) && opt_text(
            e.reasoning_effort,
        ) == opt_text(profile.model_settings.saved_reasoning_effort)
    }
}

/// The settings a native session was requested with: the profile's identity, and
/// its saved model and effort unless it uses the defaults.
pub fn requested(profile: &CodexProfile, tier: &Option<String>) -> (r: Result<
    EffectiveCodexRequest,
    StoreError,
>)
    ensures
        !tier_consistent(*profile, *tier) ==> r == Err::<EffectiveCodexRequest, StoreError>(
            StoreError::Invalid("native_service_tier_override"),
        ),
        tier_consistent(*profile, *tier) ==> (r matches Ok(e) && request_fits(e, *profile, *tier)),
{
    let saved = &profile.model_settings;
    let defaults = saved.use_default_model_settings;
    if tier.is_some() != (!defaults && saved.saved_fast_mode) {
        return Err(StoreError::Invalid("native_service_tier_override"));
    }
    Ok(
        EffectiveCodexRequest {
            profile_id: profile.id,
            profile_revision: profile.revision,
            profile_origin: profile.profile_origin.clone(),
            connection_mode: profile.connection_mode.clone(),
            use_default_model_settings: defaults,
            model: if defaults {
                None
            } else {
                saved.saved_model.clone()
            },
            reasoning_effort: if defaults {
                None
            } else {
                saved.saved_reasoning_effort.clone()
            },
            service_tier: tier.clone(),
        },
    )
}

/// The frozen Cycle budget a Mission Run is admitted from.
#[derive(Clone, Copy, Debug, PartialEq, Eq, Structural)]
pub struct CycleBudget {
    pub max_cpu_seconds: DbCounter,
    pub max_wall_seconds: u32,
    pub max_memory_mib: u32,
    pub max_output_bytes: DbCounter,
}

pub open spec fn clamp(v: int, lo: int, hi: int) -> int {
    if v < lo {
        lo
    } else if v > hi {
        hi
    } else {
        v
    }
}

/// A Mission Run's own job limits: a tenth of the CPU budget within 1..=300
/// seconds, the whole wall budget, at most 4 GiB and 64 MiB of output; no trial.
pub fn mission_limits(budget: &CycleBudget) -> (r: JobLimits)
    ensures
        r.experiments == 0,
        r.cpu_seconds.amount() == clamp((budget.max_cpu_seconds.amount() / 10) as int, 1, 300),
        r.wall_seconds == budget.max_wall_seconds,
        r.memory_mib == (if budget.max_memory_mib <= 4096 {
            budget.max_memory_mib
        } else {
            4096
        }),
        r.output_bytes.amount() == (if budget.max_output_bytes.amount() <= 64 * 1024 * 1024 {
            budget.max_output_bytes.amount()
        } else {
            64 * 1024 * 1024
        }),
{
    let tenth = budget.max_cpu_seconds.get() / 10;
    let cpu = if tenth < 1 {
        1
    } else if tenth > 300 {
        300
    } else {
        tenth
    };
    let output = if budget.max_output_bytes.get() <= 64 * 1024 * 1024 {
        budget.max_output_bytes.get()
    } else {
        64 * 1024 * 1024
    };
    let cpu_seconds = match DbCounter::new(cpu) {
        Ok(c) => c,
        Err(_) => DbCounter::zero(),
    };
    let output_bytes = match DbCounter::new(output) {
        Ok(c) => c,
        Err(_) => DbCounter::zero(),
    };
    JobLimits {
        experiments: 0,
        cpu_seconds,
        wall_seconds: budget.max_wall_seconds,
        memory_mib: if budget.max_memory_mib <= 4096 {
            budget.max_memory_mib
        } else {
            4096
        },
        output_bytes,
    }
}

/// What follows the Cycle's initial data validation Run.
#[derive(Clone, Debug)]
pub enum CycleStep {
    /// Nothing to change; acknowledge the notification.
    Done,
    /// The Run or Cycle is still moving; keep the notification.
    Retain,
    /// End the Cycle in this state.
    End(String),
    /// Wait for input with this next action.
    Wait(String),
    /// Admit the Researcher Mission.
    AdmitResearcher,
}

/// The locked facts of a Cycle's initial Run.
#[derive(Clone, Debug)]
pub struct InitialRun {
    pub kind: RunKind,
    pub has_cycle: bool,
    pub state: RunState,
    pub admission_open: bool,
    pub cycle_state: Option<String>,
    pub researcher_admitted: bool,
    pub validation_proven: bool,
}

pub open spec fn cycle_settled(cycle_state: Option<String>) -> bool {
    match cycle_state {
        Some(s) => s@ == "COMPLETED"@ || s@ == "FAILED"@ || s@ == "CANCELLED"@ || s@
            == "WAITING_INPUT"@,
        None => false,
    }
}

pub enum CycleView {
    Done,
    Retain,
    End(Seq<char>),
    Wait(Seq<char>),
    AdmitResearcher,
}

pub open spec fn cycle_view(step: CycleStep) -> CycleView {
    match step {
        CycleStep::Done => CycleView::Done,
        CycleStep::Retain => CycleView::Retain,
        CycleStep::End(s) => CycleView::End(s@),
        CycleStep::Wait(s) => CycleView::Wait(s@),
        CycleStep::AdmitResearcher => CycleView::AdmitResearcher,
    }
}

pub open spec fn initial_cycle_step(run: Option<InitialRun>) -> Result<CycleView, StoreError> {
    match run {
        None => Ok(CycleView::Done),
        Some(r) => if !r.has_cycle || r.kind != RunKind::DataValidate {
            Err(StoreError::Integrity)
        } else if !terminal(r.state) {
            Ok(CycleView::Retain)
        } else if r.researcher_admitted || cycle_settled(r.cycle_state) {
            Ok(CycleView::Done)
        } else if r.state != RunState::Succeeded {
            Ok(
                CycleView::End(
                    if r.state == RunState::Cancelled {
                        "CANCELLED"@
                    } else {
                        "FAILED"@
                    },
                ),
            )
        } else if !r.admission_open {
            Ok(CycleView::Retain)
        } else if !r.validation_proven {
            Ok(CycleView::Wait("NATIVE_DATA_VALIDATION_REQUIRED"@))
        } else {
            Ok(CycleView::AdmitResearcher)
        },
    }
}

/// `run`: the initial Run of a Cycle startup, if this Run is one.
pub fn advance_initial_cycle(run: &Option<InitialRun>) -> (r: Result<CycleStep, StoreError>)
    ensures
        match r {
            Ok(step) => initial_cycle_step(*run) == Ok::<CycleView, StoreError>(cycle_view(step)),
            Err(e) => initial_cycle_step(*run) == Err::<CycleView, StoreError>(e),
        },
{
    let r = match run {
        None => return Ok(CycleStep::Done),
        Some(r) => r,
    };
    if !r.has_cycle || r.kind != RunKind::DataValidate {
        return Err(StoreError::Integrity);
    }
    if !r.state.is_terminal() {
        return Ok(CycleStep::Retain);
    }
    let settled = match &r.cycle_state {
        Some(s) => same_text(s.as_str(), "COMPLETED") || same_text(s.as_str(), "FAILED")
            || same_text(s.as_str(), "CANCELLED") || same_text(s.as_str(), "WAITING_INPUT"),
        None => false,
    };
    if r.researcher_admitted || settled {
        return Ok(CycleStep::Done);
    }
    if r.state != RunState::Succeeded {
        return Ok(
            CycleStep::End(
                if r.state == RunState::Cancelled {
                    "CANCELLED"
                } else {
                    "FAILED"
                }.to_string(),
            ),
        );
    }
    if !r.admission_open {
        return Ok(CycleStep::Retain);
    }
    if !r.validation_proven {
        return Ok(CycleStep::Wait("NATIVE_DATA_VALIDATION_REQUIRED".to_string()));
    }
    Ok(CycleStep::AdmitResearcher)
}

/// The two roles a Cycle admits a Mission for.
#[derive(Clone, Copy, Debug, PartialEq, Eq, Structural)]
pub enum MissionRole {
    Researcher,
    IndependentReviewer,
}

/// The Mission role a Cycle admits, read from its stored code, with the next
/// action it records.
pub fn role_admission(role: &str) -> (r: Result<(MissionRole, &'static str), StoreError>)
    ensures
        role@ == "RESEARCHER"@ ==> (r matches Ok((kind, next)) && kind == MissionRole::Researcher
            && next@ == "RESEARCH_MISSION"@),
        role@ == "INDEPENDENT_REVIEWER"@ ==> (r matches Ok((kind, next)) && kind
            == MissionRole::IndependentReviewer && next@ == "INDEPENDENT_REVIEW"@),
        (role@ != "RESEARCHER"@ && role@ != "INDEPENDENT_REVIEWER"@) ==> r == Err::<
            (MissionRole, &'static str),
            StoreError,
        >(StoreError::Integrity),
{
    proof {
        reveal_strlit("RESEARCHER");
        reveal_strlit("INDEPENDENT_REVIEWER");
        assert("RESEARCHER"@.len() != "INDEPENDENT_REVIEWER"@.len());
    }
    if same_text(role, "RESEARCHER") {
        Ok((MissionRole::Researcher, "RESEARCH_MISSION"))
    } else if same_text(role, "INDEPENDENT_REVIEWER") {
        Ok((MissionRole::IndependentReviewer, "INDEPENDENT_REVIEW"))
    } else {
        Err(StoreError::Integrity)
    }
}

/// The explicit Codex profile a Cycle startup selected: both columns or neither.
pub fn profile_choice(profile: Option<Id>, revision: Option<i64>) -> (r: Result<
    Option<(Id, Revision)>,
    StoreError,
>)
    ensures
        match (profile, revision) {
            (Some(p), Some(v)) => if v >= 0 {
                r == Ok::<Option<(Id, Revision)>, StoreError>(Some((p, Revision(v as u64))))
            } else {
                r == Err::<Option<(Id, Revision)>, StoreError>(StoreError::Integrity)
            },
            (None, None) => r == Ok::<Option<(Id, Revision)>, StoreError>(None),
            _ => r == Err::<Option<(Id, Revision)>, StoreError>(StoreError::Integrity),
        },
{
    match (profile, revision) {
        (Some(p), Some(v)) => if v >= 0 {
            Ok(Some((p, Revision(v as u64))))
        } else {
            Err(StoreError::Integrity)
        },
        (None, None) => Ok(None),
        _ => Err(StoreError::Integrity),
    }
}

/// What a Cycle records after trying to admit a Mission Run.
#[derive(Clone, Copy, Debug, PartialEq, Eq, Structural)]
pub enum AdmissionRecord {
    /// The Run was admitted; record the Mission and its next action.
    Admitted,
    /// The Cycle's budget is spent: it completes for review.
    BudgetExhausted,
    /// Inputs need attention before the Cycle can go on.
    WaitForInputs,
}

/// A domain refusal of an admission leaves an honest Cycle status; any other
/// failure is the caller's.
pub fn admission_record(result: Result<(), StoreError>) -> (r: Result<AdmissionRecord, StoreError>)
    ensures
        match result {
            Ok(()) => r == Ok::<AdmissionRecord, StoreError>(AdmissionRecord::Admitted),
            Err(StoreError::Domain(DomainError::BudgetExhausted(_))) => r == Ok::<
                AdmissionRecord,
                StoreError,
            >(AdmissionRecord::BudgetExhausted),
            Err(StoreError::Domain(DomainError::Fields { .. }))
            | Err(
                StoreError::Domain(DomainError::CapabilityUnavailable(_)),
            ) => r == Ok::<AdmissionRecord, StoreError>(AdmissionRecord::WaitForInputs),
            Err(e) => r == Err::<AdmissionRecord, StoreError>(e),
        },
{
    match result {
        Ok(()) => Ok(AdmissionRecord::Admitted),
        Err(StoreError::Domain(DomainError::BudgetExhausted(_))) => Ok(
            AdmissionRecord::BudgetExhausted,
        ),
        Err(StoreError::Domain(DomainError::Fields { .. }))
        | Err(StoreError::Domain(DomainError::CapabilityUnavailable(_))) => Ok(
            AdmissionRecord::WaitForInputs,
        ),
        Err(e) => Err(e),
    }
}

/// What a native token-limit observation does.
#[derive(Clone, Copy, Debug, PartialEq, Eq, Structural)]
pub struct TokenLimitStep {
    /// Record the observation as a Run event.
    pub record: bool,
    /// Also request cancellation of the Run.
    pub request_cancel: bool,
}

pub open spec fn token_limit(
    kind: RunKind,
    state: RunState,
    reserved: Option<DbCounter>,
    observed: DbCounter,
    recorded: bool,
    settled: Option<i64>,
) -> Result<TokenLimitStep, StoreError> {
    if kind != RunKind::AgentResearch || terminal(state) || reserved is None {
        Err(StoreError::Conflict)
    } else if observed.amount() < reserved->0.amount() {
        Err(StoreError::Invalid("native_token_limit_not_reached"))
    } else if settled matches Some(t) && t < observed.amount() {
        Err(StoreError::Conflict)
    } else if !recorded && settled is None {
        Ok(TokenLimitStep { record: true, request_cancel: state != RunState::CancelRequested })
    } else {
        Ok(TokenLimitStep { record: false, request_cancel: false })
    }
}

/// A native partial usage observation can stop spending, never settle it.
/// `reserved`: the bound reservation's tokens, when this attempt owns one.
pub fn observe_mission_token_limit(
    kind: RunKind,
    state: RunState,
    reserved: Option<DbCounter>,
    observed: DbCounter,
    recorded: bool,
    settled: Option<i64>,
) -> (r: Result<TokenLimitStep, StoreError>)
    ensures
        r == token_limit(kind, state, reserved, observed, recorded, settled),
{
    if kind != RunKind::AgentResearch || state.is_terminal() {
        return Err(StoreError::Conflict);
    }
    let reserved = match reserved {
        Some(r) => r,
        None => return Err(StoreError::Conflict),
    };
    if observed.get() < reserved.get() {
        return Err(StoreError::Invalid("native_token_limit_not_reached"));
    }
    if let Some(t) = settled {
        if t < 0 || (t as u64) < observed.get() {
            return Err(StoreError::Conflict);
        }
    }
    if !recorded && settled.is_none() {
        Ok(TokenLimitStep { record: true, request_cancel: state != RunState::CancelRequested })
    } else {
        Ok(TokenLimitStep { record: false, request_cancel: false })
    }
}

/// How a Researcher Mission's completion stands.
#[derive(Clone, Copy, Debug, PartialEq, Eq, Structural)]
pub enum Completion {
    /// The Run already ended with its terminal receipt.
    Finished,
    /// Work is outstanding; the Mission is not complete.
    Outstanding,
    /// Conclude the Run with its latest public answer.
    Conclude,
}

/// The locked facts of a Researcher Mission at completion.
#[derive(Clone, Copy, Debug, PartialEq, Eq, Structural)]
pub struct MissionProgress {
    pub kind: RunKind,
    pub researcher: bool,
    pub state: RunState,
    pub terminal_committed: bool,
    /// The Mission's latest turn succeeded and has a public summary.
    pub answered: bool,
    /// A turn lacks its receipt, terminal, or (when it succeeded) its summary.
    pub unaccounted: bool,
    /// An experiment is proposed but not compiled.
    pub proposed: bool,
    /// A compilation, forecast or its feedback turn is unsettled.
    pub scientific_pending: bool,
    /// A successful forecast has no recorded Alpha version.
    pub alpha_pending: bool,
}

pub open spec fn completion(p: MissionProgress) -> Result<Completion, StoreError> {
    if p.kind != RunKind::AgentResearch || !p.researcher {
        Err(StoreError::Forbidden)
    } else if terminal(p.state) {
        if p.terminal_committed {
            Ok(Completion::Finished)
        } else {
            Err(StoreError::Conflict)
        }
    } else if !p.answered || p.unaccounted || p.proposed || p.scientific_pending
        || p.alpha_pending {
        Ok(Completion::Outstanding)
    } else {
        Ok(Completion::Conclude)
    }
}

/// A committed native public-answer chain is the completion proof; no caller
/// supplies a verdict.
pub fn complete_research_mission(progress: &MissionProgress) -> (r: Result<Completion, StoreError>)
    ensures
        r == completion(*progress),
{
    if progress.kind != RunKind::AgentResearch || !progress.researcher {
        return Err(StoreError::Forbidden);
    }
    if progress.state.is_terminal() {
        if progress.terminal_committed {
            return Ok(Completion::Finished);
        }
        return Err(StoreError::Conflict);
    }
    if !progress.answered || progress.unaccounted || progress.proposed
        || progress.scientific_pending || progress.alpha_pending {
        return Ok(Completion::Outstanding);
    }
    Ok(Completion::Conclude)
}

/// The model settings a native session reported in effect.
#[derive(Clone, Debug)]
pub struct EffectiveSettings {
    pub model: String,
    pub provider: String,
    pub reasoning_effort: Option<String>,
    pub service_tier: Option<String>,
}

/// Observable native metadata of a session: no message text, hidden items,
/// token or path.
#[derive(Clone, Debug)]
pub struct NativeSessionReceipt {
    pub thread_id: String,
    pub codex_version: String,
    pub protocol_schema_version: String,
    pub effective: EffectiveSettings,
    pub requested_service_tier: Option<String>,
}

pub open spec fn same_receipt(a: NativeSessionReceipt, b: NativeSessionReceipt) -> bool {
    &&& a.thread_id@ == b.thread_id@
    &&& a.codex_version@ == b.codex_version@
    &&& a.protocol_schema_version@ == b.protocol_schema_version@
    &&& a.effective.model@ == b.effective.model@
    &&& a.effective.provider@ == b.effective.provider@
    &&& opt_text(a.effective.reasoning_effort) == opt_text(b.effective.reasoning_effort)
    &&& opt_text(a.effective.service_tier) == opt_text(b.effective.service_tier)
    &&& opt_text(a.requested_service_tier) == opt_text(b.requested_service_tier)
}

fn receipt_matches(a: &NativeSessionReceipt, b: &NativeSessionReceipt) -> (r: bool)
    ensures
        r == same_receipt(*a, *b),
{
    same_text(a.thread_id.as_str(), b.thread_id.as_str()) && same_text(
        a.codex_version.as_str(),
        b.codex_version.as_str(),
    ) && same_text(a.protocol_schema_version.as_str(), b.protocol_schema_version.as_str())
        && same_text(a.effective.model.as_str(), b.effective.model.as_str()) && same_text(
        a.effective.provider.as_str(),
        b.effective.provider.as_str(),
    ) && crate::turns::same_opt_text(&a.effective.reasoning_effort, &b.effective.reasoning_effort)
        && crate::turns::same_opt_text(&a.effective.service_tier, &b.effective.service_tier)
        && crate::turns::same_opt_text(&a.requested_service_tier, &b.requested_service_tier)
}

/// What binding a native session to its Mission writes.
#[derive(Clone, Debug)]
pub enum SessionStep {
    /// The same native session was bound before: nothing to write.
    Replay,
    /// Record the session with the settings it was requested with.
    Record(EffectiveCodexRequest),
}

/// The first native acknowledgement binds a session once, and only after the
/// Mission's attempt was sent; a retry must report the very same session, and
/// a new one must have been requested with the frozen profile's settings.
pub fn bind_mission_session(
    state: RunState,
    sent: bool,
    existing: &Option<NativeSessionReceipt>,
    receipt: &NativeSessionReceipt,
    profile: &CodexProfile,
) -> (r: Result<SessionStep, StoreError>)
    ensures
        terminal(state) ==> r matches Err(StoreError::Domain(DomainError::TerminalRun)),
        (!terminal(state) && !sent) ==> r matches Err(StoreError::Conflict),
        (!terminal(state) && sent && existing is Some) ==> (if same_receipt(existing->0, *receipt) {
            r matches Ok(SessionStep::Replay)
        } else {
            r matches Err(StoreError::Conflict)
        }),
        (!terminal(state) && sent && existing is None) ==> (if tier_consistent(
            *profile,
            receipt.requested_service_tier,
        ) {
            r matches Ok(SessionStep::Record(e)) && request_fits(
                e,
                *profile,
                receipt.requested_service_tier,
            )
        } else {
            r matches Err(StoreError::Invalid(reason)) && reason@ == "native_service_tier_override"@
        }),
{
    if state.is_terminal() {
        return Err(StoreError::Domain(DomainError::TerminalRun));
    }
    if !sent {
        return Err(StoreError::Conflict);
    }
    match existing {
        Some(old) => if receipt_matches(old, receipt) {
            Ok(SessionStep::Replay)
        } else {
            Err(StoreError::Conflict)
        },
        None => {
            let e = requested(profile, &receipt.requested_service_tier)?;
            Ok(SessionStep::Record(e))
        },
    }
}

/// A Mission runs only on its admitted runtime, still enabled and at the
/// admitted revision.
pub fn check_mission_runtime(enabled: bool, actual: i64, admitted: i64) -> (r: Result<
    (),
    StoreError,
>)
    ensures
        (enabled && actual == admitted) ==> r == Ok::<(), StoreError>(()),
        !(enabled && actual == admitted) ==> r == Err::<(), StoreError>(
            StoreError::Domain(DomainError::CapabilityUnavailable("mission_runtime_binding")),
        ),
{
    if !enabled || actual != admitted {
        return Err(StoreError::Domain(DomainError::CapabilityUnavailable("mission_runtime_binding")));
    }
    Ok(())
}

} // verus!
