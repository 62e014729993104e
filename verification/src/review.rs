//! Native Mission summaries and the independent assessor's bounded answer. One frozen
//! target per native Turn; a malformed answer is never an approval.
use vstd::prelude::*;
use crate::error::{DomainError, StoreError};
use crate::ids::{Id, UtcTime};
use crate::text::{
    any_control, bounded, byte_len, contains_char, has_content, has_control, holds, is_bounded,
    same_text,
};
use crate::turns::{opt_text, Reservation, TurnOutcome, TurnTerminal, UsageReceipt};

verus! {

/// A bounded public answer, correlated to native terminal and usage receipts.
#[derive(Clone, Debug)]
pub struct NativePublicSummary {
    pub native_turn_id: String,
    pub native_item_id: String,
    pub phase: Option<String>,
    pub text: String,
}

pub open spec fn phase_ok(phase: Option<String>) -> bool {
    match phase {
        Some(p) => p@ == "commentary"@ || p@ == "final_answer"@,
        None => true,
    }
}

/// The shape of a public summary: bounded identities without control
/// characters, at most 64 KiB of text without NUL, and a known phase.
pub open spec fn summary_shape(summary: NativePublicSummary) -> bool {
    &&& is_bounded(summary.native_turn_id@, 200)
    &&& is_bounded(summary.native_item_id@, 200)
    &&& !has_control(summary.native_turn_id@)
    &&& !has_control(summary.native_item_id@)
    &&& is_bounded(summary.text@, 64 * 1024)
    &&& !holds(summary.text@, '\0')
    &&& phase_ok(summary.phase)
}

pub fn check_summary(summary: &NativePublicSummary) -> (r: Result<(), StoreError>)
    ensures
        r == (if summary_shape(*summary) {
            Ok::<(), StoreError>(())
        } else {
            Err(StoreError::Invalid("native_public_summary"))
        }),
{
    let phase = match &summary.phase {
        Some(p) => same_text(p.as_str(), "commentary") || same_text(p.as_str(), "final_answer"),
        None => true,
    };
    if !bounded(summary.native_turn_id.as_str(), 200) || !bounded(
        summary.native_item_id.as_str(),
        200,
    ) || any_control(summary.native_turn_id.as_str()) || any_control(
        summary.native_item_id.as_str(),
    ) || !bounded(summary.text.as_str(), 64 * 1024) || contains_char(summary.text.as_str(), '\0')
        || !phase {
        return Err(StoreError::Invalid("native_public_summary"));
    }
    Ok(())
}

/// Whether a summary may be recorded for a reservation: only the owning attempt,
/// only after the turn's terminal and receipt both say it succeeded, and only
/// for the native turn that terminal names.
pub open spec fn summary_admission(
    item: Reservation,
    fence_attempt: Id,
    terminal: Option<TurnTerminal>,
    usage: Option<UsageReceipt>,
    summary: NativePublicSummary,
) -> Result<(), StoreError> {
    if item.attempt_id != fence_attempt {
        Err(StoreError::Domain(DomainError::StaleAttempt))
    } else if terminal is None {
        Err(StoreError::Integrity)
    } else if usage is None {
        Err(StoreError::TurnPending)
    } else if terminal->0.outcome != TurnOutcome::Succeeded || usage->0.outcome
        != TurnOutcome::Succeeded || opt_text(terminal->0.native_turn_id) != Some(
        summary.native_turn_id@,
    ) {
        Err(StoreError::Conflict)
    } else {
        Ok(())
    }
}

pub fn admit_summary(
    item: &Reservation,
    fence_attempt: Id,
    terminal: &Option<TurnTerminal>,
    usage: &Option<UsageReceipt>,
    summary: &NativePublicSummary,
) -> (r: Result<(), StoreError>)
    ensures
        r == summary_admission(*item, fence_attempt, *terminal, *usage, *summary),
{
    if item.attempt_id != fence_attempt {
        return Err(StoreError::Domain(DomainError::StaleAttempt));
    }
    let t = match terminal {
        Some(t) => t,
        None => return Err(StoreError::Integrity),
    };
    let u = match usage {
        Some(u) => u,
        None => return Err(StoreError::TurnPending),
    };
    let same_turn = match &t.native_turn_id {
        Some(id) => same_text(id.as_str(), summary.native_turn_id.as_str()),
        None => false,
    };
    if t.outcome != TurnOutcome::Succeeded || u.outcome != TurnOutcome::Succeeded || !same_turn {
        return Err(StoreError::Conflict);
    }
    Ok(())
}

/// A serialized summary document holds at most 1 MiB.
pub fn check_summary_document(bytes: usize) -> (r: Result<(), StoreError>)
    ensures
        r == (if bytes <= 1024 * 1024 {
            Ok::<(), StoreError>(())
        } else {
            Err(StoreError::Invalid("native_summary_document"))
        }),
{
    if bytes > 1024 * 1024 {
        return Err(StoreError::Invalid("native_summary_document"));
    }
    Ok(())
}

#[derive(Clone, Copy, Debug, PartialEq, Eq, Structural)]
pub enum Decision {
    Pass,
    Reject,
    Inconclusive,
}

pub open spec fn decision_code(d: Decision) -> Seq<char> {
    match d {
        Decision::Pass => "PASS"@,
        Decision::Reject => "REJECT"@,
        Decision::Inconclusive => "INCONCLUSIVE"@,
    }
}

impl Decision {
    /// The stored code of a decision.
    pub fn code(self) -> (r: &'static str)
        ensures
            r@ == decision_code(self),
    {
        match self {
            Decision::Pass => "PASS",
            Decision::Reject => "REJECT",
            Decision::Inconclusive => "INCONCLUSIVE",
        }
    }
}

/// The independent assessor's answer, as its exact JSON object (no other field) decodes.
#[derive(Clone, Debug)]
pub struct ReviewAnswer {
    pub alpha_version_id: Id,
    pub decision: Decision,
    pub reasons: Vec<String>,
}

/// One reason: non-blank, at most 1024 UTF-8 bytes, no NUL.
pub open spec fn reason_ok(reason: Seq<char>) -> bool {
    has_content(reason) && byte_len(reason) <= 1024 && !holds(reason, '\0')
}

/// The answer names the frozen target and gives 1..=32 acceptable reasons.
pub open spec fn answer_accepted(answer: ReviewAnswer, target: Id) -> bool {
    &&& answer.alpha_version_id == target
    &&& 1 <= answer.reasons@.len() <= 32
    &&& forall|i: int| 0 <= i < answer.reasons@.len() ==> reason_ok(#[trigger] answer.reasons@[i]@)
}

/// An answer is taken only if it names exactly the target and gives one to 32
/// reasons, each non-blank, of at most 1024 UTF-8 bytes and without NUL: one
/// bad reason at any position refuses the whole answer.
pub proof fn one_bad_reason_refuses_the_answer(answer: ReviewAnswer, target: Id)
    ensures
        forall|i: int|
            0 <= i < answer.reasons@.len() && !(has_content((#[trigger] answer.reasons@[i])@)
                && byte_len(answer.reasons@[i]@) <= 1024 && !holds(answer.reasons@[i]@, '\0'))
                ==> !answer_accepted(answer, target),
        answer.alpha_version_id != target ==> !answer_accepted(answer, target),
        (answer.reasons@.len() == 0 || answer.reasons@.len() > 32) ==> !answer_accepted(answer, target),
        answer_accepted(answer, target) ==> forall|i: int|
            0 <= i < answer.reasons@.len() ==> has_content((#[trigger] answer.reasons@[i])@)
                && byte_len(answer.reasons@[i]@) <= 1024 && !holds(answer.reasons@[i]@, '\0'),
{
}

/// The fallback reason when no acceptable answer was given.
pub open spec fn invalid_response_reasons(reasons: Seq<String>) -> bool {
    reasons.len() == 1 && reasons[0]@ == "INVALID_NATIVE_REVIEW_RESPONSE"@
}

/// Only a decoded answer for exactly this target, with bounded reasons, supplies
/// a decision; anything else is INCONCLUSIVE with a fixed reason.
pub fn assessment(answer: Option<ReviewAnswer>, target: Id) -> (r: (Decision, Vec<String>))
    ensures
        (answer matches Some(a) && answer_accepted(a, target)) ==> (r.0 == answer->0.decision
            && r.1@ == answer->0.reasons@),
        !(answer matches Some(a) && answer_accepted(a, target)) ==> (r.0 == Decision::Inconclusive
            && invalid_response_reasons(r.1@)),
{
    if let Some(a) = answer {
        let n = a.reasons.len();
        if a.alpha_version_id == target && 1 <= n && n <= 32 {
            let mut all = true;
            let mut i: usize = 0;
            while i < n
                invariant
                    n == a.reasons@.len(),
                    i <= n,
                    all == (forall|j: int| 0 <= j < i ==> reason_ok(#[trigger] a.reasons@[j]@)),
                decreases n - i,
            {
                let reason = a.reasons[i].as_str();
                let ok = crate::text::not_blank(reason) && reason.as_bytes().len() <= 1024
                    && !contains_char(reason, '\0');
                proof {
                    if all && ok {
                        assert forall|j: int| 0 <= j < i + 1 implies reason_ok(
                            #[trigger] a.reasons@[j]@,
                        ) by {}
                    }
                }
                all = all && ok;
                i = i + 1;
            }
            if all {
                return (a.decision, a.reasons);
            }
        }
    }
    let mut reasons = Vec::new();
    reasons.push("INVALID_NATIVE_REVIEW_RESPONSE".to_string());
    (Decision::Inconclusive, reasons)
}

/// An assessment's validation context carries at most 1024 metric values.
pub fn check_review_metrics(count: usize) -> (r: Result<(), StoreError>)
    ensures
        count <= 1024 ==> r == Ok::<(), StoreError>(()),
        count > 1024 ==> r == Err::<(), StoreError>(StoreError::Invalid("review_metrics_limit")),
{
    if count > 1024 {
        return Err(StoreError::Invalid("review_metrics_limit"));
    }
    Ok(())
}

} // verus!
