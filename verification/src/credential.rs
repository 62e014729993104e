//! Mission credentials: native verifier references for one Mission Run, with
//! fixed scopes by role. The trusted launcher owns secret generation; a retried
//! issue reuses the same native token and verifier, never a fresh secret.
use vstd::prelude::*;
use crate::error::{DomainError, StoreError};
use crate::ids::{Id, UtcTime};
use crate::settings::MachineScope;
use crate::text::same_text;

verus! {

/// The scopes of a Mission credential: read research, runs and evidence and
/// submit artifacts; a Researcher may also submit experiments.
pub open spec fn mission_scopes_spec(researcher: bool) -> Seq<MachineScope> {
    let base = seq![
        MachineScope::ResearchRead,
        MachineScope::ArtifactSubmit,
        MachineScope::EvidenceRead,
        MachineScope::RunRead,
    ];
    if researcher {
        base.push(MachineScope::ExperimentSubmit)
    } else {
        base
    }
}

pub fn mission_scopes(role: &str) -> (r: Vec<MachineScope>)
    ensures
        r@ == mission_scopes_spec(role@ == "RESEARCHER"@),
{
    let mut scopes = vec![
        MachineScope::ResearchRead,
        MachineScope::ArtifactSubmit,
        MachineScope::EvidenceRead,
        MachineScope::RunRead,
    ];
    let researcher = same_text(role, "RESEARCHER");
    if researcher {
        scopes.push(MachineScope::ExperimentSubmit);
    }
    proof {
        assert(scopes@ =~= mission_scopes_spec(researcher));
    }
    scopes
}

/// The worker that holds a Run's current attempt.
#[derive(Clone, Copy, Debug, PartialEq, Eq, Structural)]
pub struct IssuerFence {
    pub attempt_id: Id,
    pub owner_epoch: u64,
}

/// A credential already stored under the requested public token.
#[derive(Clone, Debug)]
pub struct StoredCredential {
    pub run: Option<Id>,
    pub verifier_ref: String,
    pub issuer_attempt: Option<Id>,
    pub issuer_owner_epoch: Option<i64>,
    pub principal_epoch: i64,
    pub credential_epoch: i64,
    pub scopes: Vec<MachineScope>,
    pub expires_at: UtcTime,
    pub revoked: bool,
}

/// The stored credential is exactly the one this issue would write: same Run,
/// verifier, issuing attempt and epoch, current principal epoch and scopes.
pub open spec fn same_issue(
    c: StoredCredential,
    run: Id,
    verifier: Seq<char>,
    fence: IssuerFence,
    scopes: Seq<MachineScope>,
) -> bool {
    &&& c.run == Some(run)
    &&& c.verifier_ref@ == verifier
    &&& c.issuer_attempt == Some(fence.attempt_id)
    &&& c.issuer_owner_epoch == Some(fence.owner_epoch as i64)
    &&& c.principal_epoch == c.credential_epoch
    &&& c.scopes@ == scopes
}

pub open spec fn replay_spec(
    c: StoredCredential,
    run: Id,
    verifier: Seq<char>,
    fence: IssuerFence,
    scopes: Seq<MachineScope>,
    deadline: UtcTime,
    now: UtcTime,
) -> Result<(), StoreError> {
    if !same_issue(c, run, verifier, fence, scopes) || c.revoked {
        Err(StoreError::Conflict)
    } else if deadline.nanos <= now.nanos || c.expires_at.nanos <= now.nanos {
        Err(StoreError::Domain(DomainError::AdmissionClosed))
    } else {
        Ok(())
    }
}

fn same_scopes(a: &Vec<MachineScope>, b: &Vec<MachineScope>) -> (r: bool)
    ensures
        r == (a@ == b@),
{
    if a.len() != b.len() {
        return false;
    }
    let mut i: usize = 0;
    while i < a.len()
        invariant
            i <= a@.len(),
            a@.len() == b@.len(),
            forall|k: int| 0 <= k < i ==> a@[k] == b@[k],
        decreases a@.len() - i,
    {
        if a[i] != b[i] {
            return false;
        }
        i = i + 1;
    }
    proof {
        assert(a@ =~= b@);
    }
    true
}

/// A retried issue gets back the credential it stored, only if that is
/// unrevoked, unexpired, and exactly what this issue would write.
pub fn replay_credential(
    c: &StoredCredential,
    run: Id,
    verifier: &str,
    fence: IssuerFence,
    scopes: &Vec<MachineScope>,
    deadline: UtcTime,
    now: UtcTime,
) -> (r: Result<(), StoreError>)
    requires
        fence.owner_epoch <= i64::MAX,
    ensures
        r == replay_spec(*c, run, verifier@, fence, scopes@, deadline, now),
{
    if c.run != Some(run) || !same_text(c.verifier_ref.as_str(), verifier) || c.issuer_attempt
        != Some(fence.attempt_id) || c.issuer_owner_epoch != Some(fence.owner_epoch as i64)
        || c.principal_epoch != c.credential_epoch || !same_scopes(&c.scopes, scopes) || c.revoked {
        return Err(StoreError::Conflict);
    }
    if !now.is_before(&deadline) || !now.is_before(&c.expires_at) {
        return Err(StoreError::Domain(DomainError::AdmissionClosed));
    }
    Ok(())
}

/// The Mission's one principal, as locked for an issue.
#[derive(Clone, Copy, Debug, PartialEq, Eq, Structural)]
pub struct MissionPrincipal {
    pub enabled: bool,
    pub credential_epoch: i64,
    /// Whether this attempt and owner epoch already issued a credential for it.
    pub issued_by_fence: bool,
}

pub open spec fn epoch_spec(principals: Seq<MissionPrincipal>) -> Result<i64, StoreError> {
    if principals.len() > 1 {
        Err(StoreError::Integrity)
    } else if principals.len() == 0 {
        Ok(1)
    } else if !principals[0].enabled {
        Err(StoreError::Forbidden)
    } else if principals[0].issued_by_fence {
        Err(StoreError::Conflict)
    } else if principals[0].credential_epoch >= i64::MAX {
        Err(StoreError::Integrity)
    } else {
        Ok((principals[0].credential_epoch + 1) as i64)
    }
}

/// The credential epoch a fresh issue takes: the first for a new principal,
/// the next for the existing one. A Run has at most one enabled principal, and
/// one attempt issues at most one credential.
pub fn next_credential_epoch(principals: &Vec<MissionPrincipal>) -> (r: Result<i64, StoreError>)
    ensures
        r == epoch_spec(principals@),
{
    if principals.len() > 1 {
        return Err(StoreError::Integrity);
    }
    if principals.len() == 0 {
        return Ok(1);
    }
    let p = principals[0];
    if !p.enabled {
        return Err(StoreError::Forbidden);
    }
    if p.issued_by_fence {
        return Err(StoreError::Conflict);
    }
    if p.credential_epoch >= i64::MAX {
        return Err(StoreError::Integrity);
    }
    Ok(p.credential_epoch + 1)
}

/// A Mission credential never outlives its Run: it expires at the Run's deadline,
/// which must still lie ahead.
pub fn credential_expiry(deadline: UtcTime, now: UtcTime) -> (r: Result<UtcTime, StoreError>)
    ensures
        now.nanos < deadline.nanos ==> r == Ok::<UtcTime, StoreError>(deadline),
        now.nanos >= deadline.nanos ==> r == Err::<UtcTime, StoreError>(
            StoreError::Domain(DomainError::AdmissionClosed),
        ),
{
    if !now.is_before(&deadline) {
        return Err(StoreError::Domain(DomainError::AdmissionClosed));
    }
    Ok(deadline)
}

/// What an issue of a Mission credential writes.
#[derive(Clone, Copy, Debug, PartialEq, Eq, Structural)]
pub enum IssueStep {
    /// The credential stored under the token is this very issue: return it.
    Replay,
    /// Store a new credential at this principal epoch, expiring at the Run's deadline.
    Issue { epoch: i64, expires_at: UtcTime },
}

/// The locked facts of a Mission credential issue.
#[derive(Clone, Debug)]
pub struct IssueFacts {
    pub admission_open: bool,
    pub state: crate::runs::RunState,
    pub role: String,
    pub principals: Vec<MissionPrincipal>,
    pub stored: Option<StoredCredential>,
    pub deadline: UtcTime,
    pub now: UtcTime,
}

pub open spec fn issue_spec(
    f: IssueFacts,
    run: Id,
    verifier: Seq<char>,
    fence: IssuerFence,
) -> Result<IssueStep, StoreError> {
    let scopes = mission_scopes_spec(f.role@ == "RESEARCHER"@);
    if !f.admission_open || !crate::runs::in_progress(f.state) {
        Err(StoreError::Domain(DomainError::AdmissionClosed))
    } else if f.principals@.len() > 1 {
        Err(StoreError::Integrity)
    } else if f.principals@.len() == 1 && !f.principals@[0].enabled {
        Err(StoreError::Forbidden)
    } else {
        match f.stored {
            Some(c) => match replay_spec(c, run, verifier, fence, scopes, f.deadline, f.now) {
                Ok(()) => Ok(IssueStep::Replay),
                Err(e) => Err(e),
            },
            None => match epoch_spec(f.principals@) {
                Err(e) => Err(e),
                Ok(epoch) => if f.deadline.nanos <= f.now.nanos {
                    Err(StoreError::Domain(DomainError::AdmissionClosed))
                } else {
                    Ok(IssueStep::Issue { epoch, expires_at: f.deadline })
                },
            },
        }
    }
}

/// Issues a Mission credential, or recognises a retried issue: only while the
/// Mission is admitted and running, with the role's fixed scopes, for its one
/// enabled principal, and never past the Run's deadline.
pub fn issue_mission_credential(
    f: &IssueFacts,
    run: Id,
    verifier: &str,
    fence: IssuerFence,
) -> (r: Result<IssueStep, StoreError>)
    requires
        fence.owner_epoch <= i64::MAX,
    ensures
        r == issue_spec(*f, run, verifier@, fence),
{
    if !f.admission_open || !f.state.is_in_progress() {
        return Err(StoreError::Domain(DomainError::AdmissionClosed));
    }
    let scopes = mission_scopes(f.role.as_str());
    if f.principals.len() > 1 {
        return Err(StoreError::Integrity);
    }
    if f.principals.len() == 1 && !f.principals[0].enabled {
        return Err(StoreError::Forbidden);
    }
    match &f.stored {
        Some(c) => {
            replay_credential(c, run, verifier, fence, &scopes, f.deadline, f.now)?;
            Ok(IssueStep::Replay)
        },
        None => {
            let epoch = next_credential_epoch(&f.principals)?;
            let expires_at = credential_expiry(f.deadline, f.now)?;
            Ok(IssueStep::Issue { epoch, expires_at })
        },
    }
}

/// Only a Researcher's credential may submit experiments.
pub proof fn only_researchers_submit_experiments(researcher: bool)
    ensures
        mission_scopes_spec(researcher).contains(MachineScope::ExperimentSubmit) == researcher,
{
    if !researcher {
        let s = mission_scopes_spec(researcher);
        assert forall|i: int| 0 <= i < s.len() implies s[i] != MachineScope::ExperimentSubmit by {}
    } else {
        assert(mission_scopes_spec(researcher)[4] == MachineScope::ExperimentSubmit);
    }
}

/// A retried issue never mints a second credential: with a credential already
/// stored under the token, the issue is a replay of it or is refused.
pub proof fn retried_issue_never_mints(f: IssueFacts, run: Id, verifier: Seq<char>, fence: IssuerFence)
    requires
        f.stored is Some,
    ensures
        issue_spec(f, run, verifier, fence) is Err || issue_spec(f, run, verifier, fence)
            == Ok::<IssueStep, StoreError>(IssueStep::Replay),
{
}

} // verus!
