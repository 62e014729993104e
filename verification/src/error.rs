//! The store's refusals. Reason codes are stable public strings.
use vstd::prelude::*;

verus! {

/// A refusal of the domain rules, as distinct from a storage conflict.
#[derive(Clone, Copy, Debug, PartialEq, Eq)]
pub enum DomainError {
    StaleAttempt,
    AdmissionClosed,
    TerminalRun,
    BudgetExhausted(&'static str),
    CapabilityUnavailable(&'static str),
    /// A request refused as a whole with a reason code.
    Invalid(&'static str),
    /// A field of the request refused with a reason code; `item` is the index
    /// of the list entry the field belongs to, where it belongs to one.
    Fields { field: &'static str, item: Option<usize>, code: &'static str },
}

#[derive(Clone, Copy, Debug, PartialEq, Eq)]
pub enum StoreError {
    Invalid(&'static str),
    Conflict,
    Integrity,
    Forbidden,
    NotFound,
    TurnPending,
    RevisionConflict { current: crate::ids::Revision },
    AuthRateLimited { retry_after_seconds: u32 },
    Domain(DomainError),
}

} // verus!
