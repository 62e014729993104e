//! Integration settings: who may read them, and which native secret references a
//! runtime or downstream configuration binds. Secret bytes never reach the store;
//! PostgreSQL keeps only their references.
use vstd::prelude::*;
use crate::error::{DomainError, StoreError};
use crate::ids::{Id, Revision};

verus! {

/// What a native secret reference is for.
#[derive(Clone, Copy, Debug, PartialEq, Eq, Structural)]
pub enum IntegrationSecretPurpose {
    Runtime,
    TlsCa,
    Downstream,
}

/// A trusted adapter's input: a native secret reference and its purpose.
#[derive(Clone, Copy, Debug, PartialEq, Eq, Structural)]
pub struct NativeSecretBinding {
    pub id: Id,
    pub purpose: IntegrationSecretPurpose,
}

/// The kinds of machine principal.
#[derive(Clone, Copy, Debug, PartialEq, Eq, Structural)]
pub enum PrincipalKind {
    Cli,
    Automation,
    Downstream,
}

/// The scopes a machine credential can carry.
#[derive(Clone, Copy, Debug, PartialEq, Eq, Structural)]
pub enum MachineScope {
    ResearchRead,
    RunRead,
    EvidenceRead,
    ArtifactSubmit,
    ExperimentSubmit,
    DoctorRead,
    DownstreamClaim,
    DownstreamAck,
}

/// A machine reads integration settings only as a CLI or automation principal
/// whose one scope is `DoctorRead`.
pub open spec fn settings_reader(kind: PrincipalKind, scopes: Seq<MachineScope>) -> bool {
    (kind == PrincipalKind::Cli || kind == PrincipalKind::Automation) && scopes == seq![
        MachineScope::DoctorRead,
    ]
}

pub fn check_settings_reader(kind: PrincipalKind, scopes: &Vec<MachineScope>) -> (r: Result<
    (),
    StoreError,
>)
    ensures
        settings_reader(kind, scopes@) ==> r == Ok::<(), StoreError>(()),
        !settings_reader(kind, scopes@) ==> r == Err::<(), StoreError>(StoreError::Forbidden),
{
    let principal = kind == PrincipalKind::Cli || kind == PrincipalKind::Automation;
    if !principal || scopes.len() != 1 || scopes[0] != MachineScope::DoctorRead {
        proof {
            if principal && scopes@.len() == 1 {
                assert(scopes@[0] != seq![MachineScope::DoctorRead][0]);
            }
        }
        return Err(StoreError::Forbidden);
    }
    proof {
        assert(scopes@ =~= seq![MachineScope::DoctorRead]);
    }
    Ok(())
}

/// The 128-bit value of a UUID written as text, as the `uuid` crate reads it.
pub uninterp spec fn parsed_uuid(text: Seq<char>) -> Option<u128>;

/// Calls `uuid::Uuid::try_parse`; the contract claims only that the result is
/// a function of the text (hyphenated, simple, braced or URN forms are accepted).
#[verifier::external_body]
fn parse_uuid(text: &str) -> (r: Option<u128>)
    ensures
        r == parsed_uuid(text@),
{
    uuid::Uuid::try_parse(text).ok().map(|u| u.as_u128())
}

/// The refusal of a field of the request.
pub open spec fn field_error(field: &'static str, code: &'static str) -> StoreError {
    StoreError::Domain(DomainError::Fields { field, item: None, code })
}

/// A stored secret reference, read back as a binding for `purpose`.
pub open spec fn stored_binding(value: Seq<char>, purpose: IntegrationSecretPurpose) -> Result<
    NativeSecretBinding,
    StoreError,
> {
    match parsed_uuid(value) {
        Some(u) => Ok(NativeSecretBinding { id: Id(u), purpose }),
        None => Err(field_error("credential_ref", "NATIVE_REFERENCE_UNAVAILABLE")),
    }
}

pub fn binding(value: &str, purpose: IntegrationSecretPurpose) -> (r: Result<
    NativeSecretBinding,
    StoreError,
>)
    ensures
        r == stored_binding(value@, purpose),
{
    match parse_uuid(value) {
        Some(u) => Ok(NativeSecretBinding { id: Id(u), purpose }),
        None => Err(
            StoreError::Domain(
                DomainError::Fields {
                    field: "credential_ref",
                    item: None,
                    code: "NATIVE_REFERENCE_UNAVAILABLE",
                },
            ),
        ),
    }
}

/// The references a runtime configuration binds: its credential, then its CA
/// certificate where it has one.
pub open spec fn runtime_refs(credential: Id, ca: Option<Id>) -> Seq<NativeSecretBinding> {
    let first = seq![
        NativeSecretBinding { id: credential, purpose: IntegrationSecretPurpose::Runtime },
    ];
    match ca {
        Some(c) => first.push(NativeSecretBinding { id: c, purpose: IntegrationSecretPurpose::TlsCa }),
        None => first,
    }
}

/// The references a new runtime configuration asks the trusted adapter to verify.
pub fn runtime_bindings(credential: Id, ca: Option<Id>) -> (r: Vec<NativeSecretBinding>)
    ensures
        r@ == runtime_refs(credential, ca),
{
    let mut refs = vec![
        NativeSecretBinding { id: credential, purpose: IntegrationSecretPurpose::Runtime },
    ];
    if let Some(c) = ca {
        refs.push(NativeSecretBinding { id: c, purpose: IntegrationSecretPurpose::TlsCa });
    }
    proof {
        match ca {
            Some(c) => assert(refs@ =~= runtime_refs(credential, ca)),
            None => assert(refs@ =~= runtime_refs(credential, ca)),
        }
    }
    refs
}

/// A runtime row as locked for an update.
#[derive(Clone, Debug)]
pub struct StoredRuntime {
    pub revision: Revision,
    pub credential_ref: String,
    pub ca_certificate_ref: Option<String>,
}

/// The CA reference an updated runtime keeps: under a pinned-CA policy the
/// requested one, else the stored one; none under any other policy.
pub open spec fn kept_ca(stored: Option<String>, pinned_ca: bool, requested: Option<Id>) -> Result<
    Option<Id>,
    StoreError,
> {
    if !pinned_ca {
        Ok(None)
    } else {
        match requested {
            Some(id) => Ok(Some(id)),
            None => match stored {
                Some(text) => match parsed_uuid(text@) {
                    Some(u) => Ok(Some(Id(u))),
                    None => Err(StoreError::Integrity),
                },
                None => Err(field_error("ca_certificate_ref", "CA_POLICY_MISMATCH")),
            },
        }
    }
}

pub open spec fn runtime_update_refs(
    stored: StoredRuntime,
    expected: Revision,
    credential: Option<Id>,
    pinned_ca: bool,
    ca: Option<Id>,
) -> Result<Seq<NativeSecretBinding>, StoreError> {
    if stored.revision != expected {
        Err(StoreError::RevisionConflict { current: stored.revision })
    } else {
        let cred = match credential {
            Some(id) => Ok(NativeSecretBinding { id, purpose: IntegrationSecretPurpose::Runtime }),
            None => stored_binding(stored.credential_ref@, IntegrationSecretPurpose::Runtime),
        };
        match cred {
            Err(e) => Err(e),
            Ok(c) => match kept_ca(stored.ca_certificate_ref, pinned_ca, ca) {
                Err(e) => Err(e),
                Ok(kept) => Ok(runtime_refs(c.id, kept)),
            },
        }
    }
}

/// An update of a runtime configuration at the expected revision: the
/// references it binds, each requested one or else the stored one.
pub fn runtime_update_bindings(
    stored: &StoredRuntime,
    expected: Revision,
    credential: Option<Id>,
    pinned_ca: bool,
    ca: Option<Id>,
) -> (r: Result<Vec<NativeSecretBinding>, StoreError>)
    ensures
        match runtime_update_refs(*stored, expected, credential, pinned_ca, ca) {
            Ok(refs) => r matches Ok(v) && v@ == refs,
            Err(e) => r == Err::<Vec<NativeSecretBinding>, StoreError>(e),
        },
{
    if stored.revision != expected {
        return Err(StoreError::RevisionConflict { current: stored.revision });
    }
    let cred = match credential {
        Some(id) => NativeSecretBinding { id, purpose: IntegrationSecretPurpose::Runtime },
        None => match binding(stored.credential_ref.as_str(), IntegrationSecretPurpose::Runtime) {
            Ok(b) => b,
            Err(e) => return Err(e),
        },
    };
    let kept = if !pinned_ca {
        None
    } else {
        match ca {
            Some(id) => Some(id),
            None => match &stored.ca_certificate_ref {
                Some(text) => match parse_uuid(text.as_str()) {
                    Some(u) => Some(Id(u)),
                    None => return Err(StoreError::Integrity),
                },
                None => {
                    return Err(
                        StoreError::Domain(
                            DomainError::Fields {
                                field: "ca_certificate_ref",
                                item: None,
                                code: "CA_POLICY_MISMATCH",
                            },
                        ),
                    )
                },
            },
        }
    };
    Ok(runtime_bindings(cred.id, kept))
}

/// An update of a downstream configuration at the expected revision binds the
/// requested credential, or else the stored one.
pub fn downstream_update_bindings(
    stored_revision: Revision,
    stored_credential: &str,
    expected: Revision,
    credential: Option<Id>,
) -> (r: Result<Vec<NativeSecretBinding>, StoreError>)
    ensures
        stored_revision != expected ==> r == Err::<Vec<NativeSecretBinding>, StoreError>(
            StoreError::RevisionConflict { current: stored_revision },
        ),
        stored_revision == expected ==> match credential {
            Some(id) => r matches Ok(v) && v@ == seq![
                NativeSecretBinding { id, purpose: IntegrationSecretPurpose::Downstream },
            ],
            None => match stored_binding(
                stored_credential@,
                IntegrationSecretPurpose::Downstream,
            ) {
                Ok(b) => r matches Ok(v) && v@ == seq![b],
                Err(e) => r == Err::<Vec<NativeSecretBinding>, StoreError>(e),
            },
        },
{
    if stored_revision != expected {
        return Err(StoreError::RevisionConflict { current: stored_revision });
    }
    let cred = match credential {
        Some(id) => NativeSecretBinding { id, purpose: IntegrationSecretPurpose::Downstream },
        None => match binding(stored_credential, IntegrationSecretPurpose::Downstream) {
            Ok(b) => b,
            Err(e) => return Err(e),
        },
    };
    let refs = vec![cred];
    proof {
        assert(refs@ =~= seq![cred]);
    }
    Ok(refs)
}

/// A replayed secret registration must be the one this key registered, for the
/// same purpose.
pub fn check_secret_replay(
    replayed: NativeSecretBinding,
    target: Id,
    purpose: IntegrationSecretPurpose,
) -> (r: Result<(), StoreError>)
    ensures
        (replayed.id == target && replayed.purpose == purpose) ==> r == Ok::<(), StoreError>(()),
        !(replayed.id == target && replayed.purpose == purpose) ==> r == Err::<(), StoreError>(
            StoreError::Integrity,
        ),
{
    if replayed.id != target || replayed.purpose != purpose {
        return Err(StoreError::Integrity);
    }
    Ok(())
}

} // verus!
