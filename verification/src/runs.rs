//! Run kinds and states, and the runtime capabilities a native job is admitted against.
use vstd::prelude::*;
use crate::error::{DomainError, StoreError};
use crate::ids::{DbCounter, UtcTime};
use crate::text::same_text;

verus! {

#[derive(Clone, Copy, Debug, PartialEq, Eq, Structural)]
pub enum RunKind {
    DataValidate,
    AlphaEvaluate,
    PortfolioBuild,
    PortfolioSimulate,
    ForwardEvaluate,
    AgentResearch,
}

/// The stored code of a run kind, as runtimes list the job kinds they accept.
pub open spec fn run_kind_code(kind: RunKind) -> Seq<char> {
    match kind {
        RunKind::DataValidate => "DATA_VALIDATE"@,
        RunKind::AlphaEvaluate => "ALPHA_EVALUATE"@,
        RunKind::PortfolioBuild => "PORTFOLIO_BUILD"@,
        RunKind::PortfolioSimulate => "PORTFOLIO_SIMULATE"@,
        RunKind::ForwardEvaluate => "FORWARD_EVALUATE"@,
        RunKind::AgentResearch => "AGENT_RESEARCH"@,
    }
}

impl RunKind {
    pub fn code(self) -> (r: &'static str)
        ensures
            r@ == run_kind_code(self),
    {
        match self {
            RunKind::DataValidate => "DATA_VALIDATE",
            RunKind::AlphaEvaluate => "ALPHA_EVALUATE",
            RunKind::PortfolioBuild => "PORTFOLIO_BUILD",
            RunKind::PortfolioSimulate => "PORTFOLIO_SIMULATE",
            RunKind::ForwardEvaluate => "FORWARD_EVALUATE",
            RunKind::AgentResearch => "AGENT_RESEARCH",
        }
    }
}

/// No two run kinds share a code, so a listed code names exactly one kind.
pub proof fn run_kind_codes_are_distinct(a: RunKind, b: RunKind)
    ensures
        run_kind_code(a) == run_kind_code(b) ==> a == b,
{
    reveal_strlit("DATA_VALIDATE");
    reveal_strlit("ALPHA_EVALUATE");
    reveal_strlit("PORTFOLIO_BUILD");
    reveal_strlit("PORTFOLIO_SIMULATE");
    reveal_strlit("FORWARD_EVALUATE");
    reveal_strlit("AGENT_RESEARCH");
    if run_kind_code(a) == run_kind_code(b) && a != b {
        assert(run_kind_code(a).len() == run_kind_code(b).len());
        assert(run_kind_code(a)[0] == run_kind_code(b)[0]);
        assert(run_kind_code(a)[10] == run_kind_code(b)[10]);
    }
}

/// Some entry of `codes` reads `code`.
pub open spec fn lists(codes: Seq<String>, code: Seq<char>) -> bool {
    exists|j: int| 0 <= j < codes.len() && (#[trigger] codes[j])@ == code
}

/// A code is listed exactly when some entry, at whatever position, reads it.
pub proof fn listed_anywhere(codes: Seq<String>, code: Seq<char>)
    ensures
        forall|j: int| 0 <= j < codes.len() && (#[trigger] codes[j])@ == code ==> lists(codes, code),
        lists(codes, code) ==> exists|j: int| 0 <= j < codes.len() && (#[trigger] codes[j])@ == code,
{
}

/// Whether some entry of `codes` reads `code`.
pub fn listed(codes: &Vec<String>, code: &str) -> (r: bool)
    ensures
        r == lists(codes@, code@),
{
    let mut j: usize = 0;
    while j < codes.len()
        invariant
            j <= codes@.len(),
            forall|k: int| 0 <= k < j ==> (#[trigger] codes@[k])@ != code@,
        decreases codes@.len() - j,
    {
        if same_text(codes[j].as_str(), code) {
            return true;
        }
        j = j + 1;
    }
    false
}

#[derive(Clone, Copy, Debug, PartialEq, Eq, Structural)]
pub enum RunState {
    Queued,
    Dispatching,
    Running,
    Reconciling,
    CancelRequested,
    Succeeded,
    Failed,
    Cancelled,
}

pub open spec fn terminal(state: RunState) -> bool {
    state == RunState::Succeeded || state == RunState::Failed || state == RunState::Cancelled
}

pub open spec fn in_progress(state: RunState) -> bool {
    state == RunState::Dispatching || state == RunState::Running || state == RunState::Reconciling
}

impl RunState {
    pub fn is_terminal(self) -> (r: bool)
        ensures
            r == terminal(self),
    {
        matches!(self, RunState::Succeeded | RunState::Failed | RunState::Cancelled)
    }

    /// Dispatching, running or reconciling: a state in which work may be started.
    pub fn is_in_progress(self) -> (r: bool)
        ensures
            r == in_progress(self),
    {
        matches!(self, RunState::Dispatching | RunState::Running | RunState::Reconciling)
    }
}

/// The proposed resources of one native job.
#[derive(Clone, Copy, Debug, PartialEq, Eq, Structural)]
pub struct JobLimits {
    pub experiments: u32,
    pub cpu_seconds: DbCounter,
    pub wall_seconds: u32,
    pub memory_mib: u32,
    pub output_bytes: DbCounter,
}

/// A versioned artifact schema a runtime can produce.
#[derive(Clone, Debug)]
pub struct SchemaRef {
    pub name: String,
    pub version: String,
}

/// The image a runtime runs for one kind of job.
#[derive(Clone, Debug)]
pub struct ImageRef {
    pub job_kind: RunKind,
    pub image_ref: String,
}

/// What a runtime's latest capability snapshot offers.
#[derive(Clone, Debug)]
pub struct RuntimeCapabilities {
    pub checked_at: UtcTime,
    pub job_kinds: Vec<RunKind>,
    pub max_cpu: u16,
    pub artifact_schemas: Vec<SchemaRef>,
    pub image_refs: Vec<ImageRef>,
}

pub open spec fn same_schema(a: SchemaRef, b: SchemaRef) -> bool {
    a.name@ == b.name@ && a.version@ == b.version@
}

pub open spec fn offers(supported: Seq<SchemaRef>, schema: SchemaRef) -> bool {
    exists|j: int| 0 <= j < supported.len() && same_schema(#[trigger] supported[j], schema)
}

/// Every requested output schema is one the runtime produces.
pub open spec fn all_offered(requested: Seq<SchemaRef>, supported: Seq<SchemaRef>) -> bool {
    forall|i: int| 0 <= i < requested.len() ==> offers(supported, #[trigger] requested[i])
}

/// Whether the runtime produces a schema of this name and version.
pub open spec fn produces(supported: Seq<SchemaRef>, name: Seq<char>, version: Seq<char>) -> bool {
    exists|j: int|
        0 <= j < supported.len() && (#[trigger] supported[j]).name@ == name && supported[j].version@
            == version
}

/// A requested output schema, at any position, that the runtime produces under
/// no entry of the same name and version makes the request unsatisfied; a
/// satisfied request has every schema produced under its own name and version.
pub proof fn unproduced_schema_refuses(requested: Seq<SchemaRef>, supported: Seq<SchemaRef>)
    ensures
        forall|i: int|
            0 <= i < requested.len() && !produces(
                supported,
                (#[trigger] requested[i]).name@,
                requested[i].version@,
            ) ==> !all_offered(requested, supported),
        all_offered(requested, supported) ==> forall|i: int|
            0 <= i < requested.len() ==> produces(
                supported,
                (#[trigger] requested[i]).name@,
                requested[i].version@,
            ),
{
    assert forall|i: int| 0 <= i < requested.len() && offers(supported, #[trigger] requested[i]) implies produces(
        supported,
        requested[i].name@,
        requested[i].version@,
    ) by {
        let j = choose|j: int| 0 <= j < supported.len() && same_schema(#[trigger] supported[j], requested[i]);
        assert(supported[j].name@ == requested[i].name@ && supported[j].version@ == requested[i].version@);
    }
}

fn offered(supported: &Vec<SchemaRef>, schema: &SchemaRef) -> (r: bool)
    ensures
        r == offers(supported@, *schema),
{
    let mut j: usize = 0;
    while j < supported.len()
        invariant
            j <= supported@.len(),
            forall|k: int| 0 <= k < j ==> !same_schema(#[trigger] supported@[k], *schema),
        decreases supported@.len() - j,
    {
        if same_text(supported[j].name.as_str(), schema.name.as_str()) && same_text(
            supported[j].version.as_str(),
            schema.version.as_str(),
        ) {
            return true;
        }
        j = j + 1;
    }
    false
}

/// The runtime produces every requested output schema, or the named capability is unavailable.
pub fn require_outputs(
    requested: &Vec<SchemaRef>,
    capabilities: &RuntimeCapabilities,
    reason: &'static str,
) -> (r: Result<(), StoreError>)
    ensures
        all_offered(requested@, capabilities.artifact_schemas@) ==> r == Ok::<(), StoreError>(()),
        !all_offered(requested@, capabilities.artifact_schemas@) ==> r == Err::<(), StoreError>(
            StoreError::Domain(DomainError::CapabilityUnavailable(reason)),
        ),
        forall|i: int|
            0 <= i < requested@.len() && !produces(
                capabilities.artifact_schemas@,
                (#[trigger] requested@[i]).name@,
                requested@[i].version@,
            ) ==> r == Err::<(), StoreError>(
                StoreError::Domain(DomainError::CapabilityUnavailable(reason)),
            ),
        r is Ok ==> forall|i: int|
            0 <= i < requested@.len() ==> produces(
                capabilities.artifact_schemas@,
                (#[trigger] requested@[i]).name@,
                requested@[i].version@,
            ),
{
    proof {
        unproduced_schema_refuses(requested@, capabilities.artifact_schemas@);
    }
    let mut i: usize = 0;
    while i < requested.len()
        invariant
            i <= requested@.len(),
            forall|k: int| 0 <= k < i ==> offers(capabilities.artifact_schemas@, #[trigger] requested@[k]),
        decreases requested@.len() - i,
    {
        if !offered(&capabilities.artifact_schemas, &requested[i]) {
            return Err(StoreError::Domain(DomainError::CapabilityUnavailable(reason)));
        }
        i = i + 1;
    }
    Ok(())
}

/// The index of the first image the runtime offers for `kind`.
pub open spec fn first_image(images: Seq<ImageRef>, kind: RunKind, i: int) -> bool {
    &&& 0 <= i < images.len()
    &&& images[i].job_kind == kind
    &&& forall|k: int| 0 <= k < i ==> (#[trigger] images[k]).job_kind != kind
}

/// The runtime's image for `kind`: the first one it lists.
pub fn image_for(capabilities: &RuntimeCapabilities, kind: RunKind, reason: &'static str) -> (r:
    Result<String, StoreError>)
    ensures
        r matches Ok(image) ==> exists|i: int|
            first_image(capabilities.image_refs@, kind, i) && image@
                == capabilities.image_refs@[i].image_ref@,
        r is Err ==> r == Err::<String, StoreError>(
            StoreError::Domain(DomainError::CapabilityUnavailable(reason)),
        ) && forall|k: int|
            0 <= k < capabilities.image_refs@.len() ==> (#[trigger] capabilities.image_refs@[k]).job_kind
                != kind,
        r matches Ok(image) ==> exists|i: int|
            0 <= i < capabilities.image_refs@.len() && (#[trigger] capabilities.image_refs@[i]).job_kind
                == kind && image@ == capabilities.image_refs@[i].image_ref@ && forall|k: int|
                0 <= k < i ==> (#[trigger] capabilities.image_refs@[k]).job_kind != kind,
        (exists|k: int|
            0 <= k < capabilities.image_refs@.len() && (#[trigger] capabilities.image_refs@[k]).job_kind
                == kind) ==> r is Ok,
{
    let mut i: usize = 0;
    while i < capabilities.image_refs.len()
        invariant
            i <= capabilities.image_refs@.len(),
            forall|k: int| 0 <= k < i ==> (#[trigger] capabilities.image_refs@[k]).job_kind != kind,
        decreases capabilities.image_refs@.len() - i,
    {
        if capabilities.image_refs[i].job_kind == kind {
            let image = capabilities.image_refs[i].image_ref.clone();
            proof {
                assert(first_image(capabilities.image_refs@, kind, i as int));
            }
            return Ok(image);
        }
        i = i + 1;
    }
    Err(StoreError::Domain(DomainError::CapabilityUnavailable(reason)))
}

} // verus!
