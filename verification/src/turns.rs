//! Durable per-native-turn spending: reserve -> dispatch intent -> native binding
//! -> immutable usage receipt. These are the decisions each step takes on the
//! rows it has locked; the rows themselves stay in PostgreSQL.
use vstd::prelude::*;
use crate::error::{DomainError, StoreError};
use crate::ids::{DbCounter, Id, UtcTime, DB_MAX};
use crate::text::{bounded, contains_char, has_content, holds, is_bounded, not_blank, same_text};
use vstd::string::StringSliceAdditionalSpecFns;

verus! {

#[derive(Clone, Copy, Debug, PartialEq, Eq, Structural)]
pub enum TurnKind {
    Research,
    Repair,
}

/// The stored code of a turn kind.
pub open spec fn kind_code(value: TurnKind) -> Seq<char> {
    match value {
        TurnKind::Research => "RESEARCH"@,
        TurnKind::Repair => "REPAIR"@,
    }
}

/// What `kind` reads from a stored code.
pub open spec fn parse_kind(text: Seq<char>) -> Result<TurnKind, StoreError> {
    if text == "RESEARCH"@ {
        Ok(TurnKind::Research)
    } else if text == "REPAIR"@ {
        Ok(TurnKind::Repair)
    } else {
        Err(StoreError::Invalid("turn_kind"))
    }
}

pub fn kind_name(value: TurnKind) -> (r: &'static str)
    ensures
        r@ == kind_code(value),
{
    match value {
        TurnKind::Research => "RESEARCH",
        TurnKind::Repair => "REPAIR",
    }
}

pub fn kind(value: &str) -> (r: Result<TurnKind, StoreError>)
    ensures
        r == parse_kind(value@),
{
    if same_text(value, "RESEARCH") {
        Ok(TurnKind::Research)
    } else if same_text(value, "REPAIR") {
        Ok(TurnKind::Repair)
    } else {
        Err(StoreError::Invalid("turn_kind"))
    }
}

/// Reading a stored kind code gives back the kind that wrote it.
pub proof fn kind_code_round_trip(value: TurnKind)
    ensures
        parse_kind(kind_code(value)) == Ok::<TurnKind, StoreError>(value),
{
    reveal_strlit("RESEARCH");
    reveal_strlit("REPAIR");
    assert("RESEARCH"@.len() != "REPAIR"@.len());
}

#[derive(Clone, Debug, PartialEq, Eq)]
pub enum DispatchDecision {
    /// This call inserted the unique intent. Only this owner may send once.
    Send { rpc_request_id: String },
    /// An earlier owner may have sent it; query native state, never send again.
    Reconcile { native_turn_id: Option<String> },
    Settled,
}

#[derive(Clone, Copy, Debug, PartialEq, Eq, Structural)]
pub enum TurnOutcome {
    Succeeded,
    Failed,
    Cancelled,
    NotSent,
}

/// The stored code of a turn outcome.
pub open spec fn outcome_code(value: TurnOutcome) -> Seq<char> {
    match value {
        TurnOutcome::Succeeded => "SUCCEEDED"@,
        TurnOutcome::Failed => "FAILED"@,
        TurnOutcome::Cancelled => "CANCELLED"@,
        TurnOutcome::NotSent => "NOT_SENT"@,
    }
}

/// What `outcome` reads from a stored terminal code.
pub open spec fn parse_outcome(text: Seq<char>) -> Result<TurnOutcome, StoreError> {
    if text == "SUCCEEDED"@ {
        Ok(TurnOutcome::Succeeded)
    } else if text == "FAILED"@ {
        Ok(TurnOutcome::Failed)
    } else if text == "CANCELLED"@ {
        Ok(TurnOutcome::Cancelled)
    } else if text == "NOT_SENT"@ {
        Ok(TurnOutcome::NotSent)
    } else {
        Err(StoreError::Invalid("terminal_outcome"))
    }
}

impl TurnOutcome {
    pub fn name(self) -> (r: &'static str)
        ensures
            r@ == outcome_code(self),
    {
        match self {
            Self::Succeeded => "SUCCEEDED",
            Self::Failed => "FAILED",
            Self::Cancelled => "CANCELLED",
            Self::NotSent => "NOT_SENT",
        }
    }
}

pub fn outcome(text: &str) -> (r: Result<TurnOutcome, StoreError>)
    ensures
        r == parse_outcome(text@),
{
    if same_text(text, "SUCCEEDED") {
        Ok(TurnOutcome::Succeeded)
    } else if same_text(text, "FAILED") {
        Ok(TurnOutcome::Failed)
    } else if same_text(text, "CANCELLED") {
        Ok(TurnOutcome::Cancelled)
    } else if same_text(text, "NOT_SENT") {
        Ok(TurnOutcome::NotSent)
    } else {
        Err(StoreError::Invalid("terminal_outcome"))
    }
}

/// Reading a stored outcome code gives back the outcome that wrote it, so no
/// two outcomes share a code.
pub proof fn outcome_code_round_trip(value: TurnOutcome)
    ensures
        parse_outcome(outcome_code(value)) == Ok::<TurnOutcome, StoreError>(value),
{
    reveal_strlit("SUCCEEDED");
    reveal_strlit("FAILED");
    reveal_strlit("CANCELLED");
    reveal_strlit("NOT_SENT");
    assert("SUCCEEDED"@[0] != "FAILED"@[0]);
    assert("SUCCEEDED"@[0] != "CANCELLED"@[0]);
    assert("SUCCEEDED"@[0] != "NOT_SENT"@[0]);
    assert("FAILED"@[0] != "CANCELLED"@[0]);
    assert("FAILED"@[0] != "NOT_SENT"@[0]);
    assert("CANCELLED"@[0] != "NOT_SENT"@[0]);
}

/// The public prompt rule: non-blank, at most 256 KiB, no NUL character.
pub open spec fn prompt_rule(text: Seq<char>) -> bool {
    has_content(text) && crate::text::byte_len(text) <= 256 * 1024 && !holds(text, '\0')
}

pub open spec fn prompt_ok(value: &str) -> bool {
    prompt_rule(value@)
}

pub fn prompt(value: &str) -> (r: Result<(), StoreError>)
    ensures
        r == (if prompt_ok(value) {
            Ok::<(), StoreError>(())
        } else {
            Err(StoreError::Invalid("native_turn_prompt"))
        }),
{
    if !not_blank(value) || value.as_bytes().len() > 256 * 1024 || contains_char(value, '\0') {
        return Err(StoreError::Invalid("native_turn_prompt"));
    }
    Ok(())
}

} // verus!

verus! {

/// The view of an optional text.
pub open spec fn opt_text(value: Option<String>) -> Option<Seq<char>> {
    match value {
        Some(s) => Some(s@),
        None => None,
    }
}

/// Equality of two optional texts.
pub fn same_opt_text(a: &Option<String>, b: &Option<String>) -> (r: bool)
    ensures
        r == (opt_text(*a) == opt_text(*b)),
{
    match (a, b) {
        (Some(x), Some(y)) => same_text(x.as_str(), y.as_str()),
        (None, None) => true,
        _ => false,
    }
}

#[derive(Clone, Copy, Debug, PartialEq, Eq, Structural)]
pub enum ProjectState {
    Draft,
    Active,
    Paused,
    Archived,
}

/// The locked state of a Mission that decides whether new spending may start:
/// project, Cycle, frozen Brief and Run states, whether the Cycle's budget
/// snapshot equals the locked frozen Brief, the Run deadline, and the clock read
/// after every lock was taken.
#[derive(Clone, Debug)]
pub struct MissionGate {
    pub project_state: ProjectState,
    pub cycle_state: String,
    pub brief_state: String,
    pub run_state: String,
    pub budget_matches_brief: bool,
    pub run_deadline: UtcTime,
    pub now: UtcTime,
}

/// Whether every state admits new spending.
pub open spec fn gate_open(gate: MissionGate) -> bool {
    &&& gate.project_state == ProjectState::Active
    &&& gate.cycle_state@ == "RUNNING"@
    &&& gate.brief_state@ == "FROZEN"@
    &&& gate.run_state@ == "RUNNING"@
}

/// What admission of a turn with `deadline` answers.
pub open spec fn admission(gate: MissionGate, deadline: UtcTime) -> Result<(), StoreError> {
    if !gate_open(gate) {
        Err(StoreError::Domain(DomainError::AdmissionClosed))
    } else if !gate.budget_matches_brief {
        Err(StoreError::Invalid("frozen_budget_snapshot_mismatch"))
    } else if deadline.nanos <= gate.now.nanos || deadline.nanos > gate.run_deadline.nanos {
        Err(StoreError::Invalid("turn_deadline"))
    } else {
        Ok(())
    }
}

impl MissionGate {
    /// Only an exact copy of the locked frozen Brief may authorize new spending,
    /// and only for a deadline after now and no later than the Run's.
    pub fn allow_spending(&self, deadline: UtcTime) -> (r: Result<(), StoreError>)
        ensures
            r == admission(*self, deadline),
    {
        if self.project_state != ProjectState::Active || !same_text(
            self.cycle_state.as_str(),
            "RUNNING",
        ) || !same_text(self.brief_state.as_str(), "FROZEN") || !same_text(
            self.run_state.as_str(),
            "RUNNING",
        ) {
            return Err(StoreError::Domain(DomainError::AdmissionClosed));
        }
        if !self.budget_matches_brief {
            return Err(StoreError::Invalid("frozen_budget_snapshot_mismatch"));
        }
        if !self.now.is_before(&deadline) || self.run_deadline.is_before(&deadline) {
            return Err(StoreError::Invalid("turn_deadline"));
        }
        Ok(())
    }
}

/// A model cost estimate in one currency.
#[derive(Clone, Debug)]
pub struct CostEstimate {
    pub amount: crate::ids::DecimalValue,
    pub currency: String,
}

#[derive(Clone, Debug)]
pub struct TurnRequest {
    pub command_key: String,
    pub turn_kind: TurnKind,
    pub tokens: DbCounter,
    pub estimated_cost: Option<CostEstimate>,
    pub request_artifact_id: Id,
    pub deadline_at: UtcTime,
}

#[derive(Clone, Debug)]
pub struct Reservation {
    pub id: Id,
    pub run_id: Id,
    pub session_id: Id,
    pub attempt_id: Id,
    pub request_artifact_id: Id,
    pub owner_epoch: crate::ids::Revision,
    pub profile_revision: crate::ids::Revision,
    pub ordinal: u16,
    pub turn_kind: TurnKind,
    pub tokens: DbCounter,
    pub reserved_cost: Option<crate::ids::DecimalValue>,
    pub cost_currency: Option<String>,
    pub deadline_at: UtcTime,
}

/// The checks a turn request passes before any lock is taken.
pub open spec fn request_shape(request: TurnRequest) -> Result<(), StoreError> {
    if !is_bounded(request.command_key@, 200) {
        Err(StoreError::Invalid("command_key"))
    } else if request.deadline_at.nanos % 1000 != 0 {
        Err(StoreError::Invalid("timestamp_precision"))
    } else {
        Ok(())
    }
}

pub fn check_turn_request(request: &TurnRequest) -> (r: Result<(), StoreError>)
    ensures
        r == request_shape(*request),
{
    if !bounded(request.command_key.as_str(), 200) {
        return Err(StoreError::Invalid("command_key"));
    }
    if !request.deadline_at.is_micro_precise() {
        return Err(StoreError::Invalid("timestamp_precision"));
    }
    Ok(())
}

/// The cost a request carries, as the stored reservation columns hold it.
pub open spec fn request_cost(request: TurnRequest) -> Option<crate::ids::DecimalValue> {
    match request.estimated_cost {
        Some(c) => Some(c.amount),
        None => None,
    }
}

pub open spec fn request_currency(request: TurnRequest) -> Option<Seq<char>> {
    match request.estimated_cost {
        Some(c) => Some(c.currency@),
        None => None,
    }
}

/// Whether a stored reservation with the same command key is this exact request
/// by this attempt.
pub open spec fn same_request(stored: Reservation, attempt: Id, request: TurnRequest) -> bool {
    &&& stored.attempt_id == attempt
    &&& stored.turn_kind == request.turn_kind
    &&& stored.tokens == request.tokens
    &&& stored.request_artifact_id == request.request_artifact_id
    &&& stored.deadline_at == request.deadline_at
    &&& stored.reserved_cost == request_cost(request)
    &&& opt_text(stored.cost_currency) == request_currency(request)
}

/// A repeated command returns its stored reservation; any difference is a conflict.
pub fn replay_reservation(stored: Reservation, attempt: Id, request: &TurnRequest) -> (r: Result<
    Reservation,
    StoreError,
>)
    ensures
        same_request(stored, attempt, *request) ==> r == Ok::<Reservation, StoreError>(stored),
        !same_request(stored, attempt, *request) ==> r == Err::<Reservation, StoreError>(
            StoreError::Conflict,
        ),
{
    let cost_matches = match (&stored.reserved_cost, &request.estimated_cost) {
        (Some(a), Some(c)) => *a == c.amount,
        (None, None) => true,
        _ => false,
    };
    let currency_matches = match (&stored.cost_currency, &request.estimated_cost) {
        (Some(a), Some(c)) => same_text(a.as_str(), c.currency.as_str()),
        (None, None) => true,
        _ => false,
    };
    if stored.attempt_id != attempt || stored.turn_kind != request.turn_kind
        || stored.tokens != request.tokens || stored.request_artifact_id
        != request.request_artifact_id || stored.deadline_at != request.deadline_at
        || !cost_matches || !currency_matches {
        return Err(StoreError::Conflict);
    }
    Ok(stored)
}

/// What a new reservation needs after no earlier one matched its command key.
pub open spec fn reservation_admission(
    gate: MissionGate,
    deadline: UtcTime,
    pending: bool,
    artifact_allowed: bool,
) -> Result<(), StoreError> {
    if admission(gate, deadline) is Err {
        admission(gate, deadline)
    } else if pending {
        Err(StoreError::TurnPending)
    } else if !artifact_allowed {
        Err(StoreError::Invalid("request_artifact"))
    } else {
        Ok(())
    }
}

/// `pending`: the session has a reservation without a receipt.
/// `artifact_allowed`: the request artifact is this project's nonsealed PARAMETERS.
pub fn admit_reservation(
    gate: &MissionGate,
    deadline: UtcTime,
    pending: bool,
    artifact_allowed: bool,
) -> (r: Result<(), StoreError>)
    ensures
        r == reservation_admission(*gate, deadline, pending, artifact_allowed),
{
    gate.allow_spending(deadline)?;
    if pending {
        return Err(StoreError::TurnPending);
    }
    if !artifact_allowed {
        return Err(StoreError::Invalid("request_artifact"));
    }
    Ok(())
}

/// The next ordinal of a session, one past its highest; a refund never frees one.
pub fn next_ordinal(highest: Option<u16>) -> (r: Result<u16, StoreError>)
    ensures
        match highest {
            None => r == Ok::<u16, StoreError>(1),
            Some(h) => if h < u16::MAX {
                r == Ok::<u16, StoreError>((h + 1) as u16)
            } else {
                r == Err::<u16, StoreError>(StoreError::Invalid("turn_ordinal_exhausted"))
            },
        },
{
    match highest {
        None => Ok(1),
        Some(h) => if h < u16::MAX {
            Ok(h + 1)
        } else {
            Err(StoreError::Invalid("turn_ordinal_exhausted"))
        },
    }
}

} // verus!

verus! {

/// What claiming a reservation's dispatch decides, from the facts locked for it:
/// the reservation's attempt, whether an immutable receipt settled it, whether
/// a dispatch intent or terminal already exists, and its native binding.
pub open spec fn dispatch(
    gate: MissionGate,
    item: Reservation,
    fence_attempt: Id,
    settled: bool,
    started: bool,
    binding: Option<Seq<char>>,
    rpc_request_id: Seq<char>,
) -> Result<DispatchView, StoreError> {
    if item.attempt_id != fence_attempt {
        Err(StoreError::Domain(DomainError::StaleAttempt))
    } else if settled {
        Ok(DispatchView::Settled)
    } else if started {
        Ok(DispatchView::Reconcile(binding))
    } else if admission(gate, item.deadline_at) is Err {
        Err(admission(gate, item.deadline_at)->Err_0)
    } else {
        Ok(DispatchView::Send(rpc_request_id))
    }
}

/// A dispatch decision with its texts taken by view.
pub enum DispatchView {
    Send(Seq<char>),
    Reconcile(Option<Seq<char>>),
    Settled,
}

pub open spec fn dispatch_view(d: DispatchDecision) -> DispatchView {
    match d {
        DispatchDecision::Send { rpc_request_id } => DispatchView::Send(rpc_request_id@),
        DispatchDecision::Reconcile { native_turn_id } => DispatchView::Reconcile(
            opt_text(native_turn_id),
        ),
        DispatchDecision::Settled => DispatchView::Settled,
    }
}

pub open spec fn dispatch_result_view(r: Result<DispatchDecision, StoreError>) -> Result<
    DispatchView,
    StoreError,
> {
    match r {
        Ok(d) => Ok(dispatch_view(d)),
        Err(e) => Err(e),
    }
}

/// The hyphenated lower-case text of a UUID, as the `uuid` crate writes it.
pub uninterp spec fn uuid_text(value: u128) -> Seq<char>;

/// Calls `uuid::Uuid::from_u128` and its `Display`; the contract claims only
/// that the text is a function of the 128-bit value.
#[verifier::external_body]
pub(crate) fn format_uuid(value: Id) -> (r: String)
    ensures
        r@ == uuid_text(value.0),
{
    uuid::Uuid::from_u128(value.0).to_string()
}

/// The claim of a reservation's dispatch. The native request identity of a
/// send is the reservation's own identity in text; the intent row is inserted
/// only when this returns `Send`.
pub fn claim_dispatch(
    gate: &MissionGate,
    item: &Reservation,
    fence_attempt: Id,
    settled: bool,
    started: bool,
    binding: Option<String>,
) -> (r: Result<DispatchDecision, StoreError>)
    ensures
        dispatch_result_view(r) == dispatch(
            *gate,
            *item,
            fence_attempt,
            settled,
            started,
            opt_text(binding),
            uuid_text(item.id.0),
        ),
{
    if item.attempt_id != fence_attempt {
        return Err(StoreError::Domain(DomainError::StaleAttempt));
    }
    if settled {
        return Ok(DispatchDecision::Settled);
    }
    if started {
        return Ok(DispatchDecision::Reconcile { native_turn_id: binding });
    }
    gate.allow_spending(item.deadline_at)?;
    Ok(DispatchDecision::Send { rpc_request_id: format_uuid(item.id) })
}

/// What the store holds of one reservation's dispatch: whether a dispatch
/// intent (or terminal) exists, whether a usage receipt settled it, and the
/// native turn bound to it.
pub struct DispatchRecord {
    pub intent: bool,
    pub settled: bool,
    pub binding: Option<Seq<char>>,
}

/// What happens to a reservation between two states: a claim by some owner,
/// the binding of a native turn, or the settlement by a receipt.
pub enum DispatchEvent {
    Claim { gate: MissionGate, fence_attempt: Id },
    Bind(Seq<char>),
    Settle,
}

/// What a claim answers in a state.
pub open spec fn claim_answer(
    item: Reservation,
    d: DispatchRecord,
    gate: MissionGate,
    fence_attempt: Id,
) -> Result<DispatchView, StoreError> {
    dispatch(gate, item, fence_attempt, d.settled, d.intent, d.binding, uuid_text(item.id.0))
}

/// The state after an event: a send records the intent; a binding is kept
/// once made; a receipt settles.
pub open spec fn after(item: Reservation, d: DispatchRecord, e: DispatchEvent) -> DispatchRecord {
    match e {
        DispatchEvent::Claim { gate, fence_attempt } => if claim_answer(
            item,
            d,
            gate,
            fence_attempt,
        ) is Ok && claim_answer(item, d, gate, fence_attempt)->Ok_0 is Send {
            DispatchRecord { intent: true, ..d }
        } else {
            d
        },
        DispatchEvent::Bind(id) => if d.binding is None {
            DispatchRecord { binding: Some(id), ..d }
        } else {
            d
        },
        DispatchEvent::Settle => DispatchRecord { settled: true, ..d },
    }
}

/// Whether an event is a claim answered with a send.
pub open spec fn sends(item: Reservation, d: DispatchRecord, e: DispatchEvent) -> bool {
    match e {
        DispatchEvent::Claim { gate, fence_attempt } => claim_answer(
            item,
            d,
            gate,
            fence_attempt,
        ) matches Ok(DispatchView::Send(_)),
        _ => false,
    }
}

/// The number of sends over a sequence of events, and the final state.
pub open spec fn run_events(item: Reservation, d: DispatchRecord, events: Seq<DispatchEvent>) -> (
    nat,
    DispatchRecord,
)
    decreases events.len(),
{
    if events.len() == 0 {
        (0, d)
    } else {
        let e = events[0];
        let next = after(item, d, e);
        let (n, last) = run_events(item, next, events.drop_first());
        ((if sends(item, d, e) {
            1nat
        } else {
            0nat
        }) + n, last)
    }
}

proof fn lemma_no_send_after_intent(item: Reservation, d: DispatchRecord, events: Seq<DispatchEvent>)
    requires
        d.intent,
    ensures
        run_events(item, d, events).0 == 0,
        run_events(item, d, events).1.intent,
    decreases events.len(),
{
    if events.len() > 0 {
        lemma_no_send_after_intent(item, after(item, d, events[0]), events.drop_first());
    }
}

proof fn lemma_at_most_one_send(item: Reservation, d: DispatchRecord, events: Seq<DispatchEvent>)
    ensures
        run_events(item, d, events).0 <= 1,
        run_events(item, d, events).0 == 1 ==> run_events(item, d, events).1.intent,
    decreases events.len(),
{
    if events.len() > 0 {
        let e = events[0];
        let next = after(item, d, e);
        if sends(item, d, e) {
            lemma_no_send_after_intent(item, next, events.drop_first());
        } else {
            lemma_at_most_one_send(item, next, events.drop_first());
        }
    }
}

/// A reservation is sent at most once: over any sequence of claims by any
/// owners, bindings and settlements, starting before any intent, at most one
/// claim is answered with a send, and that send names the reservation itself.
/// Once the intent exists (or a receipt settled it), a claim by the owning
/// attempt is answered `Settled` when a receipt exists and otherwise
/// `Reconcile` with the bound native turn, never with a second send.
pub proof fn dispatch_sends_at_most_once(
    item: Reservation,
    d: DispatchRecord,
    events: Seq<DispatchEvent>,
    gate: MissionGate,
)
    requires
        !d.intent,
    ensures
        run_events(item, d, events).0 <= 1,
        claim_answer(item, d, gate, item.attempt_id) matches Ok(DispatchView::Send(id)) ==> id
            == uuid_text(item.id.0),
        ({
            let last = run_events(item, d, events).1;
            &&& (last.intent || last.settled) ==> !(claim_answer(
                item,
                last,
                gate,
                item.attempt_id,
            ) matches Ok(DispatchView::Send(_)))
            &&& last.settled ==> claim_answer(item, last, gate, item.attempt_id) == Ok::<
                DispatchView,
                StoreError,
            >(DispatchView::Settled)
            &&& (last.intent && !last.settled) ==> claim_answer(item, last, gate, item.attempt_id)
                == Ok::<DispatchView, StoreError>(DispatchView::Reconcile(last.binding))
        }),
{
    lemma_at_most_one_send(item, d, events);
}

/// The step binding a native turn identity to a reservation takes.
#[derive(Clone, Copy, Debug, PartialEq, Eq, Structural)]
pub enum BindStep {
    /// No binding existed: insert this one.
    Record,
    /// The same identity was bound before: nothing to write.
    AlreadyBound,
}

pub open spec fn bind(
    native_turn_id: Seq<char>,
    item: Reservation,
    fence_attempt: Id,
    existing: Option<Seq<char>>,
) -> Result<BindStep, StoreError> {
    if !is_bounded(native_turn_id, 200) {
        Err(StoreError::Invalid("native_turn_id"))
    } else if item.attempt_id != fence_attempt {
        Err(StoreError::Domain(DomainError::StaleAttempt))
    } else {
        match existing {
            Some(old) => if old == native_turn_id {
                Ok(BindStep::AlreadyBound)
            } else {
                Err(StoreError::Conflict)
            },
            None => Ok(BindStep::Record),
        }
    }
}

/// Call only with an observed native response, never a user-supplied turn ID.
pub fn bind_native_turn(
    native_turn_id: &str,
    item: &Reservation,
    fence_attempt: Id,
    existing: &Option<String>,
) -> (r: Result<BindStep, StoreError>)
    ensures
        r == bind(native_turn_id@, *item, fence_attempt, opt_text(*existing)),
{
    if !bounded(native_turn_id, 200) {
        return Err(StoreError::Invalid("native_turn_id"));
    }
    if item.attempt_id != fence_attempt {
        return Err(StoreError::Domain(DomainError::StaleAttempt));
    }
    match existing {
        Some(old) => if same_text(old.as_str(), native_turn_id) {
            Ok(BindStep::AlreadyBound)
        } else {
            Err(StoreError::Conflict)
        },
        None => Ok(BindStep::Record),
    }
}

#[derive(Clone, Debug)]
pub struct TurnTerminal {
    pub outcome: TurnOutcome,
    pub native_turn_id: Option<String>,
    pub reason_code: String,
    pub observed_at: UtcTime,
}

#[derive(Clone, Debug)]
pub struct UsageReceipt {
    pub outcome: TurnOutcome,
    pub actual_tokens: DbCounter,
    pub actual_cost: Option<crate::ids::DecimalValue>,
    pub currency: Option<String>,
    pub reason_code: String,
}

/// Field-wise equality of two terminal facts.
pub open spec fn same_terminal(a: TurnTerminal, b: TurnTerminal) -> bool {
    &&& a.outcome == b.outcome
    &&& opt_text(a.native_turn_id) == opt_text(b.native_turn_id)
    &&& a.reason_code@ == b.reason_code@
    &&& a.observed_at == b.observed_at
}

/// Field-wise equality of two usage receipts.
pub open spec fn same_receipt(a: UsageReceipt, b: UsageReceipt) -> bool {
    &&& a.outcome == b.outcome
    &&& a.actual_tokens == b.actual_tokens
    &&& a.actual_cost == b.actual_cost
    &&& opt_text(a.currency) == opt_text(b.currency)
    &&& a.reason_code@ == b.reason_code@
}

pub fn terminal_eq(a: &TurnTerminal, b: &TurnTerminal) -> (r: bool)
    ensures
        r == same_terminal(*a, *b),
{
    a.outcome == b.outcome && same_opt_text(&a.native_turn_id, &b.native_turn_id) && same_text(
        a.reason_code.as_str(),
        b.reason_code.as_str(),
    ) && a.observed_at == b.observed_at
}

pub fn receipt_eq(a: &UsageReceipt, b: &UsageReceipt) -> (r: bool)
    ensures
        r == same_receipt(*a, *b),
{
    a.outcome == b.outcome && a.actual_tokens == b.actual_tokens && a.actual_cost == b.actual_cost
        && same_opt_text(&a.currency, &b.currency) && same_text(
        a.reason_code.as_str(),
        b.reason_code.as_str(),
    )
}

/// An exact committed terminal is a read, not a new result; a different one conflicts.
pub fn exact_terminal(old: &Option<TurnTerminal>, expected: &TurnTerminal) -> (r: Result<
    bool,
    StoreError,
>)
    ensures
        match *old {
            None => r == Ok::<bool, StoreError>(false),
            Some(o) => if same_terminal(o, *expected) {
                r == Ok::<bool, StoreError>(true)
            } else {
                r == Err::<bool, StoreError>(StoreError::Conflict)
            },
        },
{
    match old {
        Some(o) => if terminal_eq(o, expected) {
            Ok(true)
        } else {
            Err(StoreError::Conflict)
        },
        None => Ok(false),
    }
}

/// An exact immutable receipt is a read, not another settlement; a different one conflicts.
pub fn exact_receipt(old: &Option<UsageReceipt>, expected: &UsageReceipt) -> (r: Result<
    bool,
    StoreError,
>)
    ensures
        match *old {
            None => r == Ok::<bool, StoreError>(false),
            Some(o) => if same_receipt(o, *expected) {
                r == Ok::<bool, StoreError>(true)
            } else {
                r == Err::<bool, StoreError>(StoreError::Conflict)
            },
        },
{
    match old {
        Some(o) => if receipt_eq(o, expected) {
            Ok(true)
        } else {
            Err(StoreError::Conflict)
        },
        None => Ok(false),
    }
}

/// Reporting the same receipt again is always accepted as a replay.
pub proof fn receipt_replay_is_idempotent(receipt: UsageReceipt)
    ensures
        same_receipt(receipt, receipt),
{
}

/// The shape of a native terminal fact observed at or before `now`.
pub open spec fn terminal_shape(terminal: TurnTerminal, now: UtcTime) -> bool {
    &&& is_bounded(terminal.reason_code@, 120)
    &&& (terminal.native_turn_id matches Some(id) ==> is_bounded(id@, 200))
    &&& terminal.observed_at.nanos % 1000 == 0
    &&& terminal.observed_at.nanos <= now.nanos
    &&& (terminal.outcome == TurnOutcome::NotSent) == (terminal.native_turn_id is None)
}

#[derive(Clone, Copy, Debug, PartialEq, Eq, Structural)]
pub enum RecordStep {
    /// No terminal existed: insert this one.
    Insert,
    /// The same terminal was recorded before.
    Unchanged,
}

pub open spec fn record(terminal: TurnTerminal, now: UtcTime, old: Option<TurnTerminal>) -> Result<
    RecordStep,
    StoreError,
> {
    if !terminal_shape(terminal, now) {
        Err(StoreError::Invalid("native_terminal"))
    } else {
        match old {
            Some(o) => if same_terminal(o, terminal) {
                Ok(RecordStep::Unchanged)
            } else {
                Err(StoreError::Conflict)
            },
            None => Ok(RecordStep::Insert),
        }
    }
}

/// A terminal is immutable once recorded; it never lies in the future of the
/// clock read under the Mission locks.
pub fn record_terminal(terminal: &TurnTerminal, now: UtcTime, old: &Option<TurnTerminal>) -> (r:
    Result<RecordStep, StoreError>)
    ensures
        r == record(*terminal, now, *old),
{
    let id_ok = match &terminal.native_turn_id {
        Some(id) => bounded(id.as_str(), 200),
        None => true,
    };
    if !bounded(terminal.reason_code.as_str(), 120) || !id_ok
        || !terminal.observed_at.is_micro_precise() || now.is_before(&terminal.observed_at) || (
    terminal.outcome == TurnOutcome::NotSent) != terminal.native_turn_id.is_none() {
        return Err(StoreError::Invalid("native_terminal"));
    }
    match old {
        Some(o) => if terminal_eq(o, terminal) {
            Ok(RecordStep::Unchanged)
        } else {
            Err(StoreError::Conflict)
        },
        None => Ok(RecordStep::Insert),
    }
}

/// What observing a turn's terminal does.
#[derive(Clone, Copy, Debug, PartialEq, Eq, Structural)]
pub enum ObserveOutcome {
    /// The exact terminal was committed before: a read, nothing is written.
    Replayed,
    /// Record the terminal as this step says.
    Recorded(RecordStep),
}

/// Observing a terminal in the store's order: the owning attempt; an exact
/// committed terminal is a replay even after the lease was lost, a different
/// one conflicts (read before and again after the Mission locks); only then
/// does a stale lease refuse, and the terminal is recorded under the clock the
/// locks read. `first` and `second` are the committed terminal read before and
/// after taking the Mission locks; `lock` is what taking them answered.
pub open spec fn observe_terminal_spec(
    terminal: TurnTerminal,
    item: Reservation,
    fence_attempt: Id,
    first: Option<TurnTerminal>,
    lock: Result<UtcTime, StoreError>,
    second: Option<TurnTerminal>,
) -> Result<ObserveOutcome, StoreError> {
    if item.attempt_id != fence_attempt {
        Err(StoreError::Domain(DomainError::StaleAttempt))
    } else {
        match first {
            Some(t0) => if same_terminal(t0, terminal) {
                Ok(ObserveOutcome::Replayed)
            } else {
                Err(StoreError::Conflict)
            },
            None => if lock is Err && lock->Err_0 != StoreError::Domain(DomainError::StaleAttempt) {
                Err(lock->Err_0)
            } else {
                match second {
                    Some(t0) => if same_terminal(t0, terminal) {
                        Ok(ObserveOutcome::Replayed)
                    } else {
                        Err(StoreError::Conflict)
                    },
                    None => match lock {
                        Err(_) => Err(StoreError::Domain(DomainError::StaleAttempt)),
                        Ok(now) => match record(terminal, now, second) {
                            Ok(step) => Ok(ObserveOutcome::Recorded(step)),
                            Err(e) => Err(e),
                        },
                    },
                }
            },
        }
    }
}

/// An observed terminal is kept even when usage is absent; observing it settles
/// or refunds nothing and acknowledges no notification.
pub fn observe_turn_terminal(
    terminal: &TurnTerminal,
    item: &Reservation,
    fence_attempt: Id,
    first: &Option<TurnTerminal>,
    lock: Result<UtcTime, StoreError>,
    second: &Option<TurnTerminal>,
) -> (r: Result<ObserveOutcome, StoreError>)
    ensures
        r == observe_terminal_spec(*terminal, *item, fence_attempt, *first, lock, *second),
{
    if item.attempt_id != fence_attempt {
        return Err(StoreError::Domain(DomainError::StaleAttempt));
    }
    if exact_terminal(first, terminal)? {
        return Ok(ObserveOutcome::Replayed);
    }
    let now = match lock {
        Ok(now) => Some(now),
        Err(StoreError::Domain(DomainError::StaleAttempt)) => None,
        Err(e) => {
            return Err(e);
        },
    };
    if exact_terminal(second, terminal)? {
        return Ok(ObserveOutcome::Replayed);
    }
    match now {
        None => Err(StoreError::Domain(DomainError::StaleAttempt)),
        Some(now) => {
            let step = record_terminal(terminal, now, second)?;
            Ok(ObserveOutcome::Recorded(step))
        },
    }
}

/// A committed terminal is never altered: once a terminal `t0` was committed for
/// the reservation, observing again by its attempt answers a replay, with
/// nothing written, exactly when the terminal is `t0`, whatever the lease now
/// is, and a conflict otherwise; a terminal is recorded only where none exists.
pub proof fn observed_terminals_never_change(
    terminal: TurnTerminal,
    item: Reservation,
    t0: TurnTerminal,
    lock: Result<UtcTime, StoreError>,
    second: Option<TurnTerminal>,
    first: Option<TurnTerminal>,
)
    ensures
        observe_terminal_spec(terminal, item, item.attempt_id, Some(t0), lock, second) == (if same_terminal(
            t0,
            terminal,
        ) {
            Ok::<ObserveOutcome, StoreError>(ObserveOutcome::Replayed)
        } else {
            Err::<ObserveOutcome, StoreError>(StoreError::Conflict)
        }),
        observe_terminal_spec(terminal, item, item.attempt_id, Some(terminal), lock, second) == Ok::<
            ObserveOutcome,
            StoreError,
        >(ObserveOutcome::Replayed),
        observe_terminal_spec(terminal, item, item.attempt_id, first, lock, second) matches Ok(
            ObserveOutcome::Recorded(_),
        ) ==> first is None && second is None && lock is Ok,
{
}

} // verus!

verus! {

/// The shape every reported usage receipt has.
pub open spec fn receipt_shape(usage: UsageReceipt) -> bool {
    &&& is_bounded(usage.reason_code@, 120)
    &&& !(usage.actual_cost matches Some(c) && c.digits() < 0)
}

pub fn check_usage_receipt(usage: &UsageReceipt) -> (r: Result<(), StoreError>)
    ensures
        r == (if receipt_shape(*usage) {
            Ok::<(), StoreError>(())
        } else {
            Err(StoreError::Invalid("usage_receipt"))
        }),
{
    let cost_ok = match &usage.actual_cost {
        Some(c) => c.is_nonnegative(),
        None => true,
    };
    if !bounded(usage.reason_code.as_str(), 120) || !cost_ok {
        return Err(StoreError::Invalid("usage_receipt"));
    }
    Ok(())
}

/// What settling writes besides the receipt.
#[derive(Clone, Copy, Debug, PartialEq, Eq, Structural)]
pub enum SettleStep {
    /// The terminal was recorded before with the same outcome and reason.
    ReceiptOnly,
    /// A single native event delivered terminal and usage together: record both.
    TerminalAndReceipt,
}

pub open spec fn settle(usage: UsageReceipt, item: Reservation, old: Option<TurnTerminal>) -> Result<
    SettleStep,
    StoreError,
> {
    if opt_text(usage.currency) != opt_text(item.cost_currency) || (usage.actual_cost is Some)
        != (item.reserved_cost is Some) {
        Err(StoreError::Conflict)
    } else if usage.outcome == TurnOutcome::NotSent && (usage.actual_tokens.amount() != 0 || (
    usage.actual_cost matches Some(c) && c.digits() > 0)) {
        Err(StoreError::Invalid("not_sent_usage"))
    } else {
        match old {
            Some(o) => if o.outcome != usage.outcome || o.reason_code@ != usage.reason_code@ {
                Err(StoreError::Conflict)
            } else {
                Ok(SettleStep::ReceiptOnly)
            },
            None => Ok(SettleStep::TerminalAndReceipt),
        }
    }
}

/// Unknown native usage must not be settled with fabricated zeros; a settled
/// receipt keeps the reservation's currency, and a turn confirmed not sent
/// carries no usage.
pub fn settle_usage(usage: &UsageReceipt, item: &Reservation, old: &Option<TurnTerminal>) -> (r:
    Result<SettleStep, StoreError>)
    ensures
        r == settle(*usage, *item, *old),
{
    if !same_opt_text(&usage.currency, &item.cost_currency) || usage.actual_cost.is_some()
        != item.reserved_cost.is_some() {
        return Err(StoreError::Conflict);
    }
    let positive = match &usage.actual_cost {
        Some(c) => c.is_positive(),
        None => false,
    };
    if usage.outcome == TurnOutcome::NotSent && (usage.actual_tokens.get() != 0 || positive) {
        return Err(StoreError::Invalid("not_sent_usage"));
    }
    match old {
        Some(o) => if o.outcome != usage.outcome || !same_text(
            o.reason_code.as_str(),
            usage.reason_code.as_str(),
        ) {
            Err(StoreError::Conflict)
        } else {
            Ok(SettleStep::ReceiptOnly)
        },
        None => Ok(SettleStep::TerminalAndReceipt),
    }
}

/// What settling a turn does.
#[derive(Clone, Copy, Debug, PartialEq, Eq, Structural)]
pub enum SettleOutcome {
    /// The exact receipt was committed before: a read, nothing is written.
    Replayed,
    /// Record the receipt (and, where needed, the terminal).
    Settled(SettleStep),
}

/// Settling a turn in the store's order: the receipt's shape; the owning
/// attempt; an exact committed receipt is a replay even after the lease was
/// lost, a different one conflicts (read before and again after the Mission
/// locks); only then does a stale lease refuse, and the settlement itself follows.
/// `first` and `second` are the committed receipt read before and after taking
/// the Mission locks; `lock` is what taking them answered.
pub open spec fn settle_turn_spec(
    usage: UsageReceipt,
    item: Reservation,
    fence_attempt: Id,
    first: Option<UsageReceipt>,
    lock: Result<(), StoreError>,
    second: Option<UsageReceipt>,
    old: Option<TurnTerminal>,
) -> Result<SettleOutcome, StoreError> {
    if !receipt_shape(usage) {
        Err(StoreError::Invalid("usage_receipt"))
    } else if item.attempt_id != fence_attempt {
        Err(StoreError::Domain(DomainError::StaleAttempt))
    } else {
        match first {
            Some(u0) => if same_receipt(u0, usage) {
                Ok(SettleOutcome::Replayed)
            } else {
                Err(StoreError::Conflict)
            },
            None => if lock is Err && lock->Err_0 != StoreError::Domain(DomainError::StaleAttempt) {
                Err(lock->Err_0)
            } else {
                match second {
                    Some(u0) => if same_receipt(u0, usage) {
                        Ok(SettleOutcome::Replayed)
                    } else {
                        Err(StoreError::Conflict)
                    },
                    None => if lock is Err {
                        Err(StoreError::Domain(DomainError::StaleAttempt))
                    } else {
                        match settle(usage, item, old) {
                            Ok(step) => Ok(SettleOutcome::Settled(step)),
                            Err(e) => Err(e),
                        }
                    },
                }
            },
        }
    }
}

/// Unknown native usage must not be settled with fabricated zeros: `usage` is
/// a trusted native report.
pub fn settle_turn(
    usage: &UsageReceipt,
    item: &Reservation,
    fence_attempt: Id,
    first: &Option<UsageReceipt>,
    lock: Result<(), StoreError>,
    second: &Option<UsageReceipt>,
    old: &Option<TurnTerminal>,
) -> (r: Result<SettleOutcome, StoreError>)
    ensures
        r == settle_turn_spec(*usage, *item, fence_attempt, *first, lock, *second, *old),
{
    check_usage_receipt(usage)?;
    if item.attempt_id != fence_attempt {
        return Err(StoreError::Domain(DomainError::StaleAttempt));
    }
    if exact_receipt(first, usage)? {
        return Ok(SettleOutcome::Replayed);
    }
    let stale = match lock {
        Ok(()) => false,
        Err(StoreError::Domain(DomainError::StaleAttempt)) => true,
        Err(e) => {
            return Err(e);
        },
    };
    if exact_receipt(second, usage)? {
        return Ok(SettleOutcome::Replayed);
    }
    if stale {
        return Err(StoreError::Domain(DomainError::StaleAttempt));
    }
    let step = settle_usage(usage, item, old)?;
    Ok(SettleOutcome::Settled(step))
}

/// A committed receipt is never altered: once a receipt `u0` was committed for
/// the reservation, settling it again by its attempt answers a replay, with
/// nothing written, exactly when the usage is `u0`, whatever the lease now is,
/// and a conflict otherwise; a settlement writes only where no receipt exists.
pub proof fn settled_receipts_never_change(
    usage: UsageReceipt,
    item: Reservation,
    u0: UsageReceipt,
    lock: Result<(), StoreError>,
    second: Option<UsageReceipt>,
    old: Option<TurnTerminal>,
    first: Option<UsageReceipt>,
)
    requires
        receipt_shape(usage),
    ensures
        settle_turn_spec(usage, item, item.attempt_id, Some(u0), lock, second, old) == (if same_receipt(
            u0,
            usage,
        ) {
            Ok::<SettleOutcome, StoreError>(SettleOutcome::Replayed)
        } else {
            Err::<SettleOutcome, StoreError>(StoreError::Conflict)
        }),
        settle_turn_spec(usage, item, item.attempt_id, Some(usage), lock, second, old) == Ok::<
            SettleOutcome,
            StoreError,
        >(SettleOutcome::Replayed),
        settle_turn_spec(usage, item, item.attempt_id, first, lock, second, old) matches Ok(
            SettleOutcome::Settled(_),
        ) ==> first is None && second is None && lock is Ok,
{
}

/// A receipt that settles a turn confirmed not sent carries no token and no positive cost.
pub proof fn settled_not_sent_has_no_usage(
    usage: UsageReceipt,
    item: Reservation,
    old: Option<TurnTerminal>,
)
    requires
        settle(usage, item, old) is Ok,
        usage.outcome == TurnOutcome::NotSent,
    ensures
        usage.actual_tokens.amount() == 0,
        !(usage.actual_cost matches Some(c) && c.digits() > 0),
{
}

/// The stored source of a usage receipt.
pub fn usage_source(outcome: TurnOutcome) -> (r: &'static str)
    ensures
        outcome == TurnOutcome::NotSent ==> r@ == "CONFIRMED_NOT_SENT"@,
        outcome != TurnOutcome::NotSent ==> r@ == "NATIVE_REPORT"@,
{
    if outcome == TurnOutcome::NotSent {
        "CONFIRMED_NOT_SENT"
    } else {
        "NATIVE_REPORT"
    }
}

/// The terminal a native status observation records: the first observation
/// time is kept on exact replay. A NotSent status is no native observation.
pub fn observed_terminal(
    item: &Reservation,
    fence_attempt: Id,
    outcome: TurnOutcome,
    reason: &str,
    binding: Option<String>,
    prior: &Option<TurnTerminal>,
    now: UtcTime,
) -> (r: Result<TurnTerminal, StoreError>)
    ensures
        (item.attempt_id != fence_attempt || outcome == TurnOutcome::NotSent) ==> r
            == Err::<TurnTerminal, StoreError>(StoreError::Conflict),
        (item.attempt_id == fence_attempt && outcome != TurnOutcome::NotSent && binding is None)
            ==> r == Err::<TurnTerminal, StoreError>(StoreError::Integrity),
        (item.attempt_id == fence_attempt && outcome != TurnOutcome::NotSent && binding is Some)
            ==> (r matches Ok(t) && t.outcome == outcome && opt_text(t.native_turn_id) == opt_text(
            binding,
        ) && t.reason_code@ == reason@ && t.observed_at == (match *prior {
            Some(p) => p.observed_at,
            None => now,
        })),
{
    if item.attempt_id != fence_attempt || outcome == TurnOutcome::NotSent {
        return Err(StoreError::Conflict);
    }
    if binding.is_none() {
        return Err(StoreError::Integrity);
    }
    let observed_at = match prior {
        Some(p) => p.observed_at,
        None => now,
    };
    Ok(TurnTerminal {
        outcome,
        native_turn_id: binding,
        reason_code: reason.to_string(),
        observed_at,
    })
}

/// The token quote of the next Mission turn: what the frozen budget leaves after
/// settled and outstanding usage. An absent budget limit is the `bigint` maximum.
pub open spec fn remaining(max_tokens: Option<DbCounter>, used: DbCounter, reserved: DbCounter) -> int {
    let limit: int = match max_tokens {
        Some(m) => m.amount() as int,
        None => DB_MAX as int,
    };
    let after_used: int = if limit >= used.amount() {
        limit - used.amount()
    } else {
        0
    };
    if after_used >= reserved.amount() {
        after_used - reserved.amount()
    } else {
        0
    }
}

pub fn remaining_tokens(max_tokens: Option<DbCounter>, used: DbCounter, reserved: DbCounter) -> (r:
    Result<DbCounter, StoreError>)
    ensures
        remaining(max_tokens, used, reserved) == 0 ==> r == Err::<DbCounter, StoreError>(
            StoreError::Domain(DomainError::BudgetExhausted("tokens")),
        ),
        remaining(max_tokens, used, reserved) > 0 ==> (r matches Ok(c) && c.amount() == remaining(
            max_tokens,
            used,
            reserved,
        )),
{
    let limit = match max_tokens {
        Some(m) => m.get(),
        None => DB_MAX,
    };
    let left = limit.saturating_sub(used.get()).saturating_sub(reserved.get());
    if left == 0 {
        return Err(StoreError::Domain(DomainError::BudgetExhausted("tokens")));
    }
    match DbCounter::new(left) {
        Ok(c) => Ok(c),
        Err(_) => Err(StoreError::Invalid("usage_range")),
    }
}

/// A quote never lets settled, outstanding and quoted tokens together exceed the limit.
pub proof fn quote_stays_within_budget(limit: DbCounter, used: DbCounter, reserved: DbCounter)
    requires
        remaining(Some(limit), used, reserved) > 0,
    ensures
        used.amount() + reserved.amount() + remaining(Some(limit), used, reserved)
            <= limit.amount(),
{
}

/// Adding `extra` bytes to what a Run has produced stays within its output limit.
pub open spec fn fits_output(used: DbCounter, extra: nat, limit: DbCounter) -> bool {
    used.amount() + extra <= limit.amount()
}

pub fn output_budget(used: DbCounter, extra: u64, limit: DbCounter) -> (r: Result<(), StoreError>)
    ensures
        r == (if fits_output(used, extra as nat, limit) {
            Ok::<(), StoreError>(())
        } else {
            Err(StoreError::Domain(DomainError::BudgetExhausted("output_bytes")))
        }),
{
    let cap = limit.get();
    match used.get().checked_add(extra) {
        Some(total) => if total > cap {
            Err(StoreError::Domain(DomainError::BudgetExhausted("output_bytes")))
        } else {
            Ok(())
        },
        None => Err(StoreError::Domain(DomainError::BudgetExhausted("output_bytes"))),
    }
}

/// A stored usage count: non-negative, and within a `bigint`.
pub fn count(value: i64) -> (r: Result<DbCounter, StoreError>)
    ensures
        value >= 0 ==> (r matches Ok(c) && c.amount() == value),
        value < 0 ==> r == Err::<DbCounter, StoreError>(StoreError::Invalid("negative_usage")),
{
    if value < 0 {
        return Err(StoreError::Invalid("negative_usage"));
    }
    match DbCounter::new(value as u64) {
        Ok(c) => Ok(c),
        Err(_) => Err(StoreError::Invalid("usage_range")),
    }
}

pub open spec fn parse_project_state(code: Seq<char>) -> Result<ProjectState, StoreError> {
    if code == "DRAFT"@ {
        Ok(ProjectState::Draft)
    } else if code == "ACTIVE"@ {
        Ok(ProjectState::Active)
    } else if code == "PAUSED"@ {
        Ok(ProjectState::Paused)
    } else if code == "ARCHIVED"@ {
        Ok(ProjectState::Archived)
    } else {
        Err(StoreError::Invalid("project_state"))
    }
}

/// A project's stored state.
pub fn project_state(code: &str) -> (r: Result<ProjectState, StoreError>)
    ensures
        r == parse_project_state(code@),
{
    if same_text(code, "DRAFT") {
        Ok(ProjectState::Draft)
    } else if same_text(code, "ACTIVE") {
        Ok(ProjectState::Active)
    } else if same_text(code, "PAUSED") {
        Ok(ProjectState::Paused)
    } else if same_text(code, "ARCHIVED") {
        Ok(ProjectState::Archived)
    } else {
        Err(StoreError::Invalid("project_state"))
    }
}

/// The outcome of a stored usage receipt.
pub fn receipt_outcome(text: &str) -> (r: Result<TurnOutcome, StoreError>)
    ensures
        parse_outcome(text@) is Ok ==> r == parse_outcome(text@),
        parse_outcome(text@) is Err ==> r == Err::<TurnOutcome, StoreError>(
            StoreError::Invalid("receipt_outcome"),
        ),
{
    match outcome(text) {
        Ok(o) => Ok(o),
        Err(_) => Err(StoreError::Invalid("receipt_outcome")),
    }
}

/// Queue message identities are positive.
pub fn check_queue_message(message_id: i64) -> (r: Result<(), StoreError>)
    ensures
        message_id > 0 ==> r == Ok::<(), StoreError>(()),
        message_id <= 0 ==> r == Err::<(), StoreError>(StoreError::Invalid("queue_message_id")),
{
    if message_id <= 0 {
        return Err(StoreError::Invalid("queue_message_id"));
    }
    Ok(())
}

/// A model-turn queue message as the store finds it by its identity.
#[derive(Clone, Copy, Debug, PartialEq, Eq, Structural)]
pub enum QueuedMessage {
    /// No message has that identity.
    Missing,
    /// The message is exactly the notification for this reservation.
    Names(Id),
    /// The message is something else.
    Other,
}

/// What acknowledging a notification does.
#[derive(Clone, Copy, Debug, PartialEq, Eq, Structural)]
pub enum AckStep {
    /// Archive the queued message; the answer is whether the queue archived it.
    Archive,
    /// It was archived before: answer `false`, nothing is written.
    AlreadyArchived,
}

pub open spec fn acknowledge(
    message_id: i64,
    reservation: Id,
    settled: bool,
    queued: QueuedMessage,
    archived: QueuedMessage,
) -> Result<AckStep, StoreError> {
    if message_id <= 0 {
        Err(StoreError::Invalid("queue_message_id"))
    } else if !settled {
        Err(StoreError::TurnPending)
    } else {
        match queued {
            QueuedMessage::Names(r) => if r == reservation {
                Ok(AckStep::Archive)
            } else {
                Err(StoreError::Conflict)
            },
            QueuedMessage::Other => Err(StoreError::Conflict),
            QueuedMessage::Missing => if archived == QueuedMessage::Names(reservation) {
                Ok(AckStep::AlreadyArchived)
            } else {
                Err(StoreError::Conflict)
            },
        }
    }
}

/// A notification is disposable only after its exact immutable usage receipt
/// committed; queue visibility is no proof of execution or ownership. Only
/// the message naming exactly this reservation is archived, and one archived
/// before is answered again.
pub fn acknowledge_settled_message(
    message_id: i64,
    reservation: Id,
    settled: bool,
    queued: QueuedMessage,
    archived: QueuedMessage,
) -> (r: Result<AckStep, StoreError>)
    ensures
        r == acknowledge(message_id, reservation, settled, queued, archived),
{
    check_queue_message(message_id)?;
    if !settled {
        return Err(StoreError::TurnPending);
    }
    match queued {
        QueuedMessage::Names(r) => if r == reservation {
            Ok(AckStep::Archive)
        } else {
            Err(StoreError::Conflict)
        },
        QueuedMessage::Other => Err(StoreError::Conflict),
        QueuedMessage::Missing => if archived == QueuedMessage::Names(reservation) {
            Ok(AckStep::AlreadyArchived)
        } else {
            Err(StoreError::Conflict)
        },
    }
}

/// Preparing a Mission's first request: existing work always wins, with
/// nothing written; otherwise the Mission must admit spending until its own
/// deadline. `true`: go on preparing the request.
pub fn initial_turn_start(existing: bool, gate: &MissionGate) -> (r: Result<bool, StoreError>)
    ensures
        existing ==> r == Ok::<bool, StoreError>(false),
        !existing ==> r == (match admission(*gate, gate.run_deadline) {
            Ok(()) => Ok::<bool, StoreError>(true),
            Err(e) => Err(e),
        }),
{
    if existing {
        return Ok(false);
    }
    gate.allow_spending(gate.run_deadline)?;
    Ok(true)
}

/// The worker that claims to own a Mission Run's current attempt.
#[derive(Clone, Debug)]
pub struct WorkerFence {
    pub attempt_id: Id,
    pub worker_owner_id: String,
    pub owner_epoch: u64,
}

/// The attempt row as locked for a Mission.
#[derive(Clone, Debug)]
pub struct AttemptLease {
    pub worker_owner_id: String,
    pub owner_epoch: i64,
    pub lease_expires_at: UtcTime,
}

/// The Run is an agent Mission, the fence names its active attempt, and the
/// attempt is still leased to this owner and epoch after every lock was taken.
pub open spec fn fence_holds(
    kind: Seq<char>,
    active_attempt: Option<Id>,
    fence: WorkerFence,
    lease: AttemptLease,
    now: UtcTime,
) -> Result<(), StoreError> {
    if kind != "AGENT_RESEARCH"@ {
        Err(StoreError::Invalid("not_agent_mission"))
    } else if active_attempt != Some(fence.attempt_id) || lease.worker_owner_id@
        != fence.worker_owner_id@ || lease.owner_epoch != fence.owner_epoch || lease.lease_expires_at.nanos
        <= now.nanos {
        Err(StoreError::Domain(DomainError::StaleAttempt))
    } else {
        Ok(())
    }
}

pub fn check_worker_fence(
    kind: &str,
    active_attempt: Option<Id>,
    fence: &WorkerFence,
    lease: &AttemptLease,
    now: UtcTime,
) -> (r: Result<(), StoreError>)
    ensures
        r == fence_holds(kind@, active_attempt, *fence, *lease, now),
{
    if !same_text(kind, "AGENT_RESEARCH") {
        return Err(StoreError::Invalid("not_agent_mission"));
    }
    let epoch_matches = lease.owner_epoch >= 0 && lease.owner_epoch as u64 == fence.owner_epoch;
    if active_attempt != Some(fence.attempt_id) || !same_text(
        lease.worker_owner_id.as_str(),
        fence.worker_owner_id.as_str(),
    ) || !epoch_matches || !now.is_before(&lease.lease_expires_at) {
        return Err(StoreError::Domain(DomainError::StaleAttempt));
    }
    Ok(())
}

/// Largest request document of a Mission turn, in bytes.
pub const MAX_TURN_DOCUMENT: u64 = 1048576u64;

/// A turn's request document fits its limit.
pub fn check_request_document(len: usize) -> (r: Result<(), StoreError>)
    ensures
        len <= MAX_TURN_DOCUMENT ==> r == Ok::<(), StoreError>(()),
        len > MAX_TURN_DOCUMENT ==> r == Err::<(), StoreError>(StoreError::Invalid("native_turn_document")),
{
    if len as u64 > MAX_TURN_DOCUMENT {
        return Err(StoreError::Invalid("native_turn_document"));
    }
    Ok(())
}

/// A request artifact published before must be exactly the document a retry
/// would publish now.
pub fn check_request_replay(stored_size: DbCounter, len: usize, same_bytes: bool) -> (r: Result<
    (),
    StoreError,
>)
    ensures
        (stored_size.amount() == len && same_bytes) ==> r == Ok::<(), StoreError>(()),
        !(stored_size.amount() == len && same_bytes) ==> r == Err::<(), StoreError>(
            StoreError::Conflict,
        ),
{
    if stored_size.get() != len as u64 || !same_bytes {
        return Err(StoreError::Conflict);
    }
    Ok(())
}

/// The first turn of a Mission belongs to its Researcher, and no turn spends
/// under a cost budget the native runtime cannot report.
pub fn check_initial_turn(cost_budget: bool, role: &str) -> (r: Result<(), StoreError>)
    ensures
        cost_budget ==> r == Err::<(), StoreError>(
            StoreError::Domain(DomainError::CapabilityUnavailable("native_cost_usage")),
        ),
        (!cost_budget && role@ != "RESEARCHER"@) ==> r == Err::<(), StoreError>(
            StoreError::Domain(DomainError::CapabilityUnavailable("mission_initial_role")),
        ),
        (!cost_budget && role@ == "RESEARCHER"@) ==> r == Ok::<(), StoreError>(()),
{
    if cost_budget {
        return Err(StoreError::Domain(DomainError::CapabilityUnavailable("native_cost_usage")));
    }
    if !same_text(role, "RESEARCHER") {
        return Err(StoreError::Domain(DomainError::CapabilityUnavailable("mission_initial_role")));
    }
    Ok(())
}

/// The stage a scientific result reports back to its Mission.
#[derive(Clone, Copy, Debug, PartialEq, Eq, Structural)]
pub enum FeedbackStage {
    Compilation,
    DiscoveryForecast,
    Validation,
}

pub open spec fn feedback_spec(
    cost_budget: bool,
    validation: bool,
    compilation: bool,
    access_class: Seq<char>,
    state: Seq<char>,
) -> Result<(FeedbackStage, TurnKind), StoreError> {
    if cost_budget {
        Err(StoreError::Domain(DomainError::CapabilityUnavailable("native_cost_usage")))
    } else if access_class != (if validation {
        "EVALUATOR_ONLY"@
    } else {
        "RESEARCH"@
    }) {
        Err(StoreError::Integrity)
    } else {
        Ok(
            (
                if validation {
                    FeedbackStage::Validation
                } else if compilation {
                    FeedbackStage::Compilation
                } else {
                    FeedbackStage::DiscoveryForecast
                },
                if state == "SUCCEEDED"@ {
                    TurnKind::Research
                } else {
                    TurnKind::Repair
                },
            ),
        )
    }
}

/// A scientific result becomes a feedback turn of its Mission: a published
/// validation (evaluator-only) or a failed compilation or forecast (research),
/// as a research turn after success and a repair turn otherwise.
pub fn feedback_turn(
    cost_budget: bool,
    validation: bool,
    compilation: bool,
    access_class: &str,
    state: &str,
) -> (r: Result<(FeedbackStage, TurnKind), StoreError>)
    ensures
        r == feedback_spec(cost_budget, validation, compilation, access_class@, state@),
{
    if cost_budget {
        return Err(StoreError::Domain(DomainError::CapabilityUnavailable("native_cost_usage")));
    }
    let expected = if validation {
        "EVALUATOR_ONLY"
    } else {
        "RESEARCH"
    };
    if !same_text(access_class, expected) {
        return Err(StoreError::Integrity);
    }
    let stage = if validation {
        FeedbackStage::Validation
    } else if compilation {
        FeedbackStage::Compilation
    } else {
        FeedbackStage::DiscoveryForecast
    };
    let kind = if same_text(state, "SUCCEEDED") {
        TurnKind::Research
    } else {
        TurnKind::Repair
    };
    Ok((stage, kind))
}

/// The request document a Mission turn publishes before it is reserved.
#[derive(Clone, Debug)]
pub struct RequestDocument {
    pub run_id: Id,
    pub session_id: Id,
    pub attempt_id: Id,
    pub command_key: String,
    pub turn_kind: String,
    pub prompt: String,
}

/// The document names the reservation's Run, Session, attempt, kind and command key.
pub open spec fn document_names(d: RequestDocument, item: Reservation, command_key: Seq<char>) -> bool {
    &&& d.run_id == item.run_id
    &&& d.session_id == item.session_id
    &&& d.attempt_id == item.attempt_id
    &&& d.turn_kind@ == kind_code(item.turn_kind)
    &&& d.command_key@ == command_key
}

/// The document a turn request publishes for its Mission's attempt.
pub fn request_document(
    run_id: Id,
    session_id: Id,
    attempt_id: Id,
    command_key: &str,
    turn_kind: TurnKind,
    text: &str,
) -> (r: RequestDocument)
    ensures
        r.run_id == run_id,
        r.session_id == session_id,
        r.attempt_id == attempt_id,
        r.command_key@ == command_key@,
        r.turn_kind@ == kind_code(turn_kind),
        r.prompt@ == text@,
{
    RequestDocument {
        run_id,
        session_id,
        attempt_id,
        command_key: command_key.to_string(),
        turn_kind: kind_name(turn_kind).to_string(),
        prompt: text.to_string(),
    }
}

/// Only the owning worker of the reservation's own Run, Session and attempt reads its prompt.
pub fn check_prompt_reader(item: &Reservation, run: Id, session: Id, attempt: Id) -> (r: Result<
    (),
    StoreError,
>)
    ensures
        (item.run_id == run && item.session_id == session && item.attempt_id == attempt) ==> r
            == Ok::<(), StoreError>(()),
        !(item.run_id == run && item.session_id == session && item.attempt_id == attempt) ==> r
            == Err::<(), StoreError>(StoreError::Conflict),
{
    if item.run_id != run || item.session_id != session || item.attempt_id != attempt {
        return Err(StoreError::Conflict);
    }
    Ok(())
}

/// What reading a reservation's prompt back from its request document gives:
/// a document of another reservation is corrupt; its prompt must still pass
/// the prompt rule.
pub open spec fn prompt_read(d: RequestDocument, item: Reservation, command_key: Seq<char>) -> Result<
    Seq<char>,
    StoreError,
> {
    if !document_names(d, item, command_key) {
        Err(StoreError::Integrity)
    } else if !prompt_rule(d.prompt@) {
        Err(StoreError::Invalid("native_turn_prompt"))
    } else {
        Ok(d.prompt@)
    }
}

pub fn request_prompt(document: RequestDocument, item: &Reservation, command_key: &str) -> (r:
    Result<String, StoreError>)
    ensures
        match prompt_read(document, *item, command_key@) {
            Ok(text) => r matches Ok(p) && p@ == text,
            Err(e) => r == Err::<String, StoreError>(e),
        },
{
    if document.run_id != item.run_id || document.session_id != item.session_id
        || document.attempt_id != item.attempt_id || !same_text(
        document.turn_kind.as_str(),
        kind_name(item.turn_kind),
    ) || !same_text(document.command_key.as_str(), command_key) {
        return Err(StoreError::Integrity);
    }
    prompt(document.prompt.as_str())?;
    Ok(document.prompt)
}

/// A prompt comes back as it went in: the document a turn request publishes
/// for a reservation's Run, Session, attempt, kind and command key gives back
/// exactly the prompt, whenever the prompt passed the rule on the way in.
pub proof fn prompts_round_trip(d: RequestDocument, item: Reservation, command_key: Seq<char>)
    requires
        document_names(d, item, command_key),
        prompt_rule(d.prompt@),
    ensures
        prompt_read(d, item, command_key) == Ok::<Seq<char>, StoreError>(d.prompt@),
{
}

} // verus!
