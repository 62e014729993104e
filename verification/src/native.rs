//! Native task definitions and the producer-bound adoption of a native result:
//! which reported outputs bind to the manifest, what is published, and the
//! terminal observation the Run's state machine receives.
use vstd::prelude::*;
use crate::error::{DomainError, StoreError};
use crate::ids::{DbCounter, Id, UtcTime};
use crate::runs::{terminal, RunState, SchemaRef};
use crate::text::same_text;

verus! {

/// Store-selected immutable local objects. No path or executable is accepted from a caller.
pub struct NativeObjectPublication {
    pub id: Id,
    pub bytes: Vec<u8>,
}

/// One output a native job reports, identified by its remote storage reference.
#[derive(Clone, Debug)]
pub struct RuntimeOutput {
    pub storage_ref: Id,
    pub kind: String,
    pub media_type: String,
    pub schema: SchemaRef,
    pub byte_count: DbCounter,
}

/// Field-wise equality of two output descriptions.
pub open spec fn same_output(a: RuntimeOutput, b: RuntimeOutput) -> bool {
    &&& a.storage_ref == b.storage_ref
    &&& a.kind@ == b.kind@
    &&& a.media_type@ == b.media_type@
    &&& a.schema.name@ == b.schema.name@
    &&& a.schema.version@ == b.schema.version@
    &&& a.byte_count == b.byte_count
}

pub fn output_eq(a: &RuntimeOutput, b: &RuntimeOutput) -> (r: bool)
    ensures
        r == same_output(*a, *b),
{
    a.storage_ref == b.storage_ref && same_text(a.kind.as_str(), b.kind.as_str()) && same_text(
        a.media_type.as_str(),
        b.media_type.as_str(),
    ) && same_text(a.schema.name.as_str(), b.schema.name.as_str()) && same_text(
        a.schema.version.as_str(),
        b.schema.version.as_str(),
    ) && a.byte_count == b.byte_count
}

/// A verified native terminal report can expose malformed output without changing
/// the fact that the remote process stopped. Rejected output is never published.
pub enum NativePayloads {
    Verified(Vec<(RuntimeOutput, Vec<u8>)>),
    InvalidOutput,
}

/// The manifest entry an output reference binds to: the last one listing it.
pub open spec fn manifest_entry(manifest: Seq<RuntimeOutput>, storage_ref: Id) -> Option<
    RuntimeOutput,
>
    decreases manifest.len(),
{
    if manifest.len() == 0 {
        None
    } else if manifest.last().storage_ref == storage_ref {
        Some(manifest.last())
    } else {
        manifest_entry(manifest.drop_last(), storage_ref)
    }
}

/// The manifest entry of a reference is the last entry listing it, at whatever
/// position, as a map built from the manifest in order keeps; there is one
/// exactly when some entry lists the reference.
pub proof fn manifest_entry_is_the_last_listing(manifest: Seq<RuntimeOutput>, storage_ref: Id)
    ensures
        (exists|i: int| 0 <= i < manifest.len() && (#[trigger] manifest[i]).storage_ref == storage_ref)
            <==> manifest_entry(manifest, storage_ref) is Some,
        manifest_entry(manifest, storage_ref) matches Some(e) ==> exists|i: int|
            0 <= i < manifest.len() && #[trigger] manifest[i] == e && e.storage_ref == storage_ref
                && forall|k: int| i < k < manifest.len() ==> (#[trigger] manifest[k]).storage_ref != storage_ref,
    decreases manifest.len(),
{
    if manifest.len() > 0 {
        let rest = manifest.drop_last();
        manifest_entry_is_the_last_listing(rest, storage_ref);
        assert forall|i: int| 0 <= i < rest.len() implies #[trigger] rest[i] == manifest[i] by {}
        let n = manifest.len() - 1;
        assert(manifest[n] == manifest.last());
        if manifest.last().storage_ref != storage_ref {
            if exists|i: int| 0 <= i < manifest.len() && (#[trigger] manifest[i]).storage_ref == storage_ref {
                let i = choose|i: int| 0 <= i < manifest.len() && (#[trigger] manifest[i]).storage_ref == storage_ref;
                assert(i < n);
                assert(rest[i].storage_ref == storage_ref);
            }
            if let Some(e) = manifest_entry(rest, storage_ref) {
                let i = choose|i: int|
                    0 <= i < rest.len() && #[trigger] rest[i] == e && e.storage_ref == storage_ref
                        && forall|k: int| i < k < rest.len() ==> (#[trigger] rest[k]).storage_ref != storage_ref;
                assert(manifest[i] == e);
                assert forall|k: int| i < k < manifest.len() implies (#[trigger] manifest[k]).storage_ref != storage_ref by {
                    if k < n {
                        assert(rest[k] == manifest[k]);
                    }
                }
            }
        }
    }
}

/// Whether an earlier reported output already used the same reference.
pub open spec fn repeated(outputs: Seq<(RuntimeOutput, Vec<u8>)>, i: int) -> bool {
    exists|k: int| 0 <= k < i && (#[trigger] outputs[k]).0.storage_ref == outputs[i].0.storage_ref
}

/// An output repeats a reference exactly when some earlier output, at whatever
/// position before it, used the same reference.
pub proof fn repeated_anywhere_before(outputs: Seq<(RuntimeOutput, Vec<u8>)>, i: int)
    ensures
        forall|k: int|
            0 <= k < i && (#[trigger] outputs[k]).0.storage_ref == outputs[i].0.storage_ref
                ==> repeated(outputs, i),
        repeated(outputs, i) ==> exists|k: int|
            0 <= k < i && (#[trigger] outputs[k]).0.storage_ref == outputs[i].0.storage_ref,
{
}

/// Binding reported output `i` after `total` bytes: the running total after it, or the refusal.
/// `shapes[i]` is the verdict of the execution rules on output `i`'s description and bytes.
pub open spec fn bind_step(
    manifest: Seq<RuntimeOutput>,
    outputs: Seq<(RuntimeOutput, Vec<u8>)>,
    shapes: Seq<Result<(), StoreError>>,
    i: int,
    total: nat,
    limit: nat,
) -> Result<nat, StoreError> {
    let (output, bytes) = outputs[i];
    match manifest_entry(manifest, output.storage_ref) {
        None => Err(StoreError::Invalid("native_output_identity")),
        Some(expected) => if repeated(outputs, i) || !same_output(output, expected)
            || bytes@.len() != output.byte_count.amount() {
            Err(StoreError::Invalid("native_output_binding"))
        } else if total + bytes@.len() > u64::MAX {
            Err(StoreError::Integrity)
        } else if total + bytes@.len() > limit {
            Err(StoreError::Invalid("native_output_bytes"))
        } else if shapes[i] is Err {
            Err(shapes[i]->Err_0)
        } else {
            Ok(total + bytes@.len())
        },
    }
}

/// The running byte total after binding the first `n` reported outputs.
pub open spec fn bind_prefix(
    manifest: Seq<RuntimeOutput>,
    outputs: Seq<(RuntimeOutput, Vec<u8>)>,
    shapes: Seq<Result<(), StoreError>>,
    n: nat,
    limit: nat,
) -> Result<nat, StoreError>
    decreases n,
{
    if n == 0 {
        Ok(0)
    } else {
        match bind_prefix(manifest, outputs, shapes, (n - 1) as nat, limit) {
            Err(e) => Err(e),
            Ok(total) => bind_step(manifest, outputs, shapes, n - 1, total, limit),
        }
    }
}

/// What a native result manifest declares.
#[derive(Clone, Copy, Debug, PartialEq, Eq, Structural)]
pub enum RuntimeResultState {
    Succeeded,
    Failed,
    Cancelled,
}

pub open spec fn adoption(
    manifest: Seq<RuntimeOutput>,
    state: RuntimeResultState,
    declared_total: nat,
    payloads: Option<Seq<(RuntimeOutput, Vec<u8>)>>,
    shapes: Seq<Result<(), StoreError>>,
    limit: nat,
) -> Result<(), StoreError> {
    match payloads {
        None => if state != RuntimeResultState::Succeeded {
            Err(StoreError::Invalid("invalid_output_outcome"))
        } else {
            Ok(())
        },
        Some(outputs) => if outputs.len() != manifest.len() {
            Err(StoreError::Invalid("native_output_count"))
        } else {
            match bind_prefix(manifest, outputs, shapes, outputs.len(), limit) {
                Err(e) => Err(e),
                Ok(total) => if total != declared_total {
                    Err(StoreError::Invalid("native_output_sum"))
                } else {
                    Ok(())
                },
            }
        },
    }
}

pub open spec fn payload_outputs(payloads: NativePayloads) -> Option<Seq<(RuntimeOutput, Vec<u8>)>> {
    match payloads {
        NativePayloads::Verified(v) => Some(v@),
        NativePayloads::InvalidOutput => None,
    }
}

proof fn lemma_refusal_persists(
    manifest: Seq<RuntimeOutput>,
    outputs: Seq<(RuntimeOutput, Vec<u8>)>,
    shapes: Seq<Result<(), StoreError>>,
    i: nat,
    n: nat,
    limit: nat,
)
    requires
        i <= n,
        bind_prefix(manifest, outputs, shapes, i, limit) is Err,
    ensures
        bind_prefix(manifest, outputs, shapes, n, limit) == bind_prefix(manifest, outputs, shapes, i, limit),
    decreases n - i,
{
    if i < n {
        lemma_refusal_persists(manifest, outputs, shapes, i, (n - 1) as nat, limit);
    }
}

/// The bytes of the first `n` reported outputs.
pub open spec fn byte_sum(outputs: Seq<(RuntimeOutput, Vec<u8>)>, n: nat) -> nat
    decreases n,
{
    if n == 0 {
        0
    } else {
        byte_sum(outputs, (n - 1) as nat) + outputs[n - 1].1@.len()
    }
}

/// The bytes of outputs add up one output at a time: none count nothing, and
/// each further output adds exactly its own bytes, so every output at whatever
/// position is counted once.
pub proof fn output_bytes_add_up(outputs: Seq<(RuntimeOutput, Vec<u8>)>, n: nat)
    ensures
        byte_sum(outputs, 0) == 0,
        byte_sum(outputs, n + 1) == byte_sum(outputs, n) + outputs[n as int].1@.len(),
        forall|i: int| 0 <= i < n ==> (#[trigger] outputs[i]).1@.len() <= byte_sum(outputs, n),
    decreases n,
{
    if n > 0 {
        output_bytes_add_up(outputs, (n - 1) as nat);
    }
}

/// Output `i` is bound exactly: a fresh reference, the manifest's own
/// description, and its declared byte count.
pub open spec fn bound_exactly(
    manifest: Seq<RuntimeOutput>,
    outputs: Seq<(RuntimeOutput, Vec<u8>)>,
    i: int,
) -> bool {
    &&& !repeated(outputs, i)
    &&& manifest_entry(manifest, outputs[i].0.storage_ref) matches Some(e) && same_output(
        outputs[i].0,
        e,
    )
    &&& outputs[i].1@.len() == outputs[i].0.byte_count.amount()
}

proof fn lemma_prefix_binds(
    manifest: Seq<RuntimeOutput>,
    outputs: Seq<(RuntimeOutput, Vec<u8>)>,
    shapes: Seq<Result<(), StoreError>>,
    n: nat,
    limit: nat,
)
    requires
        n <= outputs.len(),
        bind_prefix(manifest, outputs, shapes, n, limit) is Ok,
    ensures
        bind_prefix(manifest, outputs, shapes, n, limit) == Ok::<nat, StoreError>(byte_sum(outputs, n)),
        byte_sum(outputs, n) <= limit,
        forall|i: int| 0 <= i < n ==> #[trigger] bound_exactly(manifest, outputs, i),
        forall|i: int| 0 <= i < n ==> #[trigger] shapes[i] is Ok,
    decreases n,
{
    if n > 0 {
        lemma_prefix_binds(manifest, outputs, shapes, (n - 1) as nat, limit);
    }
}

/// An adopted result binds every reported output exactly once to its manifest
/// entry, every output passed the execution rules on its shape, and the adopted
/// bytes are exactly the usage the manifest declares, within the job's output limit.
pub proof fn adopted_outputs_match_manifest(
    manifest: Seq<RuntimeOutput>,
    state: RuntimeResultState,
    declared_total: nat,
    outputs: Seq<(RuntimeOutput, Vec<u8>)>,
    shapes: Seq<Result<(), StoreError>>,
    limit: nat,
)
    requires
        adoption(manifest, state, declared_total, Some(outputs), shapes, limit) is Ok,
    ensures
        outputs.len() == manifest.len(),
        forall|i: int| 0 <= i < outputs.len() ==> #[trigger] bound_exactly(manifest, outputs, i),
        forall|i: int| 0 <= i < outputs.len() ==> #[trigger] shapes[i] is Ok,
        byte_sum(outputs, outputs.len()) == declared_total,
        declared_total <= limit,
{
    lemma_prefix_binds(manifest, outputs, shapes, outputs.len(), limit);
}

fn entry_for(manifest: &Vec<RuntimeOutput>, storage_ref: Id) -> (r: Option<&RuntimeOutput>)
    ensures
        match manifest_entry(manifest@, storage_ref) {
            None => r is None,
            Some(e) => r matches Some(x) && *x == e,
        },
{
    let mut i = manifest.len();
    assert(manifest@.take(manifest@.len() as int) =~= manifest@);
    while i > 0
        invariant
            i <= manifest@.len(),
            manifest_entry(manifest@, storage_ref) == manifest_entry(manifest@.take(i as int), storage_ref),
        decreases i,
    {
        let ghost prefix = manifest@.take(i as int);
        assert(prefix.drop_last() =~= manifest@.take(i - 1));
        if manifest[i - 1].storage_ref == storage_ref {
            return Some(&manifest[i - 1]);
        }
        i = i - 1;
    }
    assert(manifest@.take(0) =~= Seq::<RuntimeOutput>::empty());
    None
}

/// A success reported while cancellation was requested publishes no output.
pub open spec fn discards(run_state: RunState, state: RuntimeResultState) -> bool {
    run_state == RunState::CancelRequested && state == RuntimeResultState::Succeeded
}

/// A stored artifact as the check for references to a local object reads it.
#[derive(Clone, Debug)]
pub struct StoredArtifact {
    pub id: Id,
    /// Stored in the local object store.
    pub local: bool,
    pub object_ref: String,
}

/// Whether a stored artifact is, or points at, the local object `object`.
pub open spec fn references(a: StoredArtifact, object: Id) -> bool {
    a.id == object || (a.local && a.object_ref@ == crate::turns::uuid_text(object.0))
}

/// An object written ahead of a result publication that never committed may
/// be discarded only if no stored artifact is it or names it as its local
/// object; any such reference keeps the bytes.
pub fn may_discard_object(object: Id, stored: &Vec<StoredArtifact>) -> (r: bool)
    ensures
        r == !exists|i: int| 0 <= i < stored@.len() && references(#[trigger] stored@[i], object),
        forall|i: int| 0 <= i < stored@.len() && (#[trigger] stored@[i]).id == object ==> !r,
        forall|i: int|
            0 <= i < stored@.len() && (#[trigger] stored@[i]).local && stored@[i].object_ref@
                == crate::turns::uuid_text(object.0) ==> !r,
        r ==> forall|i: int|
            0 <= i < stored@.len() ==> (#[trigger] stored@[i]).id != object && !(stored@[i].local
                && stored@[i].object_ref@ == crate::turns::uuid_text(object.0)),
{
    let text = crate::turns::format_uuid(object);
    let mut i: usize = 0;
    while i < stored.len()
        invariant
            i <= stored@.len(),
            text@ == crate::turns::uuid_text(object.0),
            forall|k: int| 0 <= k < i ==> !references(#[trigger] stored@[k], object),
        decreases stored@.len() - i,
    {
        let a = &stored[i];
        if a.id == object || (a.local && same_text(a.object_ref.as_str(), text.as_str())) {
            assert(references(stored@[i as int], object));
            return false;
        }
        i = i + 1;
    }
    true
}

/// A raw result manifest is read only if it is non-empty and at most `maximum` bytes.
pub fn check_manifest_size(len: usize, maximum: usize) -> (r: Result<(), StoreError>)
    ensures
        (1 <= len <= maximum) ==> r == Ok::<(), StoreError>(()),
        !(1 <= len <= maximum) ==> r == Err::<(), StoreError>(StoreError::Invalid("native_manifest_size")),
{
    if len == 0 || len > maximum {
        return Err(StoreError::Invalid("native_manifest_size"));
    }
    Ok(())
}

/// The attempt that committed a Run's terminal receipt.
#[derive(Clone, Debug)]
pub struct TerminalOwner {
    pub attempt_id: Option<Id>,
    pub worker_owner_id: String,
    pub owner_epoch: u64,
}

/// A result reported again for a terminal Run is the committed one: only its
/// own attempt, owner and epoch may report it, with the very manifest bytes.
pub fn check_result_replay(
    committed: &TerminalOwner,
    attempt_id: Id,
    worker_owner_id: &str,
    owner_epoch: u64,
    same_manifest: bool,
) -> (r: Result<(), StoreError>)
    ensures
        !(committed.attempt_id == Some(attempt_id) && committed.worker_owner_id@
            == worker_owner_id@ && committed.owner_epoch == owner_epoch) ==> r == Err::<
            (),
            StoreError,
        >(StoreError::Domain(DomainError::StaleAttempt)),
        (committed.attempt_id == Some(attempt_id) && committed.worker_owner_id@ == worker_owner_id@
            && committed.owner_epoch == owner_epoch) ==> r == (if same_manifest {
            Ok::<(), StoreError>(())
        } else {
            Err::<(), StoreError>(StoreError::Conflict)
        }),
{
    if committed.attempt_id != Some(attempt_id) || !same_text(
        committed.worker_owner_id.as_str(),
        worker_owner_id,
    ) || committed.owner_epoch != owner_epoch {
        return Err(StoreError::Domain(DomainError::StaleAttempt));
    }
    if !same_manifest {
        return Err(StoreError::Conflict);
    }
    Ok(())
}

/// Raw outputs bind to the manifest only exactly: each reported output names a
/// manifest entry once, carries exactly its description and byte count, and the
/// running total stays within the job's output limit and equals the manifest's
/// declared usage. A success reported after cancellation was requested is
/// adopted without its bytes. `shapes` holds, for each reported output in
/// order, the execution rules' verdict on its description and bytes; a refusal
/// there refuses the result once that output is reached.
/// On success the outputs to publish are returned in report order.
pub fn adopt_outputs(
    manifest: &Vec<RuntimeOutput>,
    state: RuntimeResultState,
    declared_total: DbCounter,
    payloads: NativePayloads,
    shapes: &Vec<Result<(), StoreError>>,
    limit: DbCounter,
    run_state: RunState,
) -> (r: Result<Vec<(RuntimeOutput, Vec<u8>)>, StoreError>)
    requires
        payload_outputs(payloads) matches Some(o) ==> shapes@.len() == o.len(),
    ensures
        match adoption(
            manifest@,
            state,
            declared_total.amount(),
            payload_outputs(payloads),
            shapes@,
            limit.amount(),
        ) {
            Err(e) => r == Err::<Vec<(RuntimeOutput, Vec<u8>)>, StoreError>(e),
            Ok(_) => r matches Ok(published) && (if discards(run_state, state) || payloads is InvalidOutput {
                published@.len() == 0
            } else {
                published@ == payload_outputs(payloads)->0
            }),
        },
{
    let outputs = match payloads {
        NativePayloads::InvalidOutput => {
            if state != RuntimeResultState::Succeeded {
                return Err(StoreError::Invalid("invalid_output_outcome"));
            }
            return Ok(Vec::new());
        },
        NativePayloads::Verified(v) => v,
    };
    if outputs.len() != manifest.len() {
        return Err(StoreError::Invalid("native_output_count"));
    }
    let cap = limit.get();
    let mut seen: Vec<Id> = Vec::new();
    let mut total: u64 = 0;
    let mut i: usize = 0;
    while i < outputs.len()
        invariant
            i <= outputs@.len(),
            seen@.len() == i,
            forall|k: int| 0 <= k < i ==> seen@[k] == (#[trigger] outputs@[k]).0.storage_ref,
            shapes@.len() == outputs@.len(),
            bind_prefix(manifest@, outputs@, shapes@, i as nat, limit.amount()) == Ok::<nat, StoreError>(
                total as nat,
            ),
            cap == limit.amount(),
            payload_outputs(payloads) == Some(outputs@),
            outputs@.len() == manifest@.len(),
        decreases outputs@.len() - i,
    {
        let output = &outputs[i].0;
        let bytes = &outputs[i].1;
        proof {
            assert(bind_prefix(manifest@, outputs@, shapes@, (i + 1) as nat, limit.amount()) == bind_step(
                manifest@,
                outputs@,
                shapes@,
                i as int,
                total as nat,
                limit.amount(),
            ));
        }
        let expected = match entry_for(manifest, output.storage_ref) {
            Some(e) => e,
            None => {
                proof {
                    lemma_refusal_persists(manifest@, outputs@, shapes@, (i + 1) as nat, outputs@.len(), limit.amount());
                }
                return Err(StoreError::Invalid("native_output_identity"));
            },
        };
        let mut again = false;
        let mut k: usize = 0;
        while k < seen.len()
            invariant
                k <= seen@.len(),
                seen@.len() == i,
                i < outputs@.len(),
                output.storage_ref == outputs@[i as int].0.storage_ref,
                forall|j: int| 0 <= j < i ==> seen@[j] == (#[trigger] outputs@[j]).0.storage_ref,
                again == (exists|j: int| 0 <= j < k && #[trigger] seen@[j] == outputs@[i as int].0.storage_ref),
            decreases seen@.len() - k,
        {
            if seen[k] == output.storage_ref {
                again = true;
            }
            k = k + 1;
        }
        proof {
            if again {
                let j = choose|j: int| 0 <= j < i && seen@[j] == outputs@[i as int].0.storage_ref;
                assert(outputs@[j].0.storage_ref == outputs@[i as int].0.storage_ref);
                assert(repeated(outputs@, i as int));
            }
            if repeated(outputs@, i as int) {
                let j = choose|j: int| 0 <= j < i && (#[trigger] outputs@[j]).0.storage_ref
                    == outputs@[i as int].0.storage_ref;
                assert(seen@[j] == outputs@[i as int].0.storage_ref);
            }
        }
        if again || !output_eq(output, expected) || bytes.len() as u64 != output.byte_count.get() {
            proof {
                lemma_refusal_persists(manifest@, outputs@, shapes@, (i + 1) as nat, outputs@.len(), limit.amount());
            }
            return Err(StoreError::Invalid("native_output_binding"));
        }
        total = match total.checked_add(bytes.len() as u64) {
            Some(t) => t,
            None => {
                proof {
                    lemma_refusal_persists(manifest@, outputs@, shapes@, (i + 1) as nat, outputs@.len(), limit.amount());
                }
                return Err(StoreError::Integrity);
            },
        };
        if total > cap {
            proof {
                lemma_refusal_persists(manifest@, outputs@, shapes@, (i + 1) as nat, outputs@.len(), limit.amount());
            }
            return Err(StoreError::Invalid("native_output_bytes"));
        }
        if let Err(e) = shapes[i] {
            proof {
                lemma_refusal_persists(manifest@, outputs@, shapes@, (i + 1) as nat, outputs@.len(), limit.amount());
            }
            return Err(e);
        }
        seen.push(output.storage_ref);
        i = i + 1;
    }
    if total != declared_total.get() {
        return Err(StoreError::Invalid("native_output_sum"));
    }
    if run_state == RunState::CancelRequested && state == RuntimeResultState::Succeeded {
        return Ok(Vec::new());
    }
    Ok(outputs)
}

} // verus!

verus! {

#[derive(Clone, Copy, Debug, PartialEq, Eq, Structural)]
pub enum NativeOutcome {
    Succeeded,
    Failed,
    Cancelled,
}

#[derive(Clone, Copy, Debug, PartialEq, Eq, Structural)]
pub enum FailureClass {
    RetryableInfra,
    PermanentConfig,
    InvalidInput,
    ResourceLimit,
}

/// The failure a native manifest reports.
#[derive(Clone, Debug)]
pub struct RuntimeFailure {
    pub class: FailureClass,
    pub code: String,
}

/// The terminal observation a native result becomes: rejected output is a
/// failure of invalid input; otherwise the manifest's state, with its failure.
pub fn terminal_outcome(invalid: bool, state: RuntimeResultState, error: &Option<RuntimeFailure>) -> (r:
    Result<(NativeOutcome, Option<FailureClass>, Option<String>), StoreError>)
    ensures
        invalid ==> (r matches Ok((o, c, code)) && o == NativeOutcome::Failed && c == Some(
            FailureClass::InvalidInput,
        ) && crate::turns::opt_text(code) == Some("NATIVE_OUTPUT_INVALID"@)),
        (!invalid && state == RuntimeResultState::Succeeded) ==> (r matches Ok((o, c, code)) && o
            == NativeOutcome::Succeeded && c is None && code is None),
        (!invalid && state == RuntimeResultState::Cancelled) ==> (r matches Ok((o, c, code)) && o
            == NativeOutcome::Cancelled && c is None && code is None),
        (!invalid && state == RuntimeResultState::Failed && error is None) ==> r == Err::<
            (NativeOutcome, Option<FailureClass>, Option<String>),
            StoreError,
        >(StoreError::Integrity),
        (!invalid && state == RuntimeResultState::Failed && error is Some) ==> (r matches Ok(
            (o, c, code),
        ) && o == NativeOutcome::Failed && c == Some(error->0.class) && crate::turns::opt_text(
            code,
        ) == Some(error->0.code@)),
{
    if invalid {
        return Ok(
            (
                NativeOutcome::Failed,
                Some(FailureClass::InvalidInput),
                Some("NATIVE_OUTPUT_INVALID".to_string()),
            ),
        );
    }
    match state {
        RuntimeResultState::Succeeded => Ok((NativeOutcome::Succeeded, None, None)),
        RuntimeResultState::Cancelled => Ok((NativeOutcome::Cancelled, None, None)),
        RuntimeResultState::Failed => match error {
            Some(f) => Ok((NativeOutcome::Failed, Some(f.class), Some(f.code.clone()))),
            None => Err(StoreError::Integrity),
        },
    }
}

/// Why a Run reached a state.
#[derive(Clone, Copy, Debug, PartialEq, Eq, Structural)]
pub enum RunReason {
    CancelRequested,
    CancelledBeforeDispatch,
    DeadlineExceeded,
    ResultDiscardedAfterCancel,
    RuntimeSucceeded,
}

/// A local unsent identity has never obtained a network submission permit, so
/// cancellation or an expired deadline settles it without a native observation.
pub open spec fn unsubmitted_settlement(
    state: RunState,
    not_sent: bool,
    deadline: UtcTime,
    now: UtcTime,
) -> Result<Option<(RunState, RunReason)>, StoreError> {
    if terminal(state) {
        Err(StoreError::Domain(DomainError::TerminalRun))
    } else if !not_sent {
        Ok(None)
    } else if state == RunState::CancelRequested {
        Ok(Some((RunState::Cancelled, RunReason::CancelledBeforeDispatch)))
    } else if deadline.nanos <= now.nanos {
        Ok(Some((RunState::Failed, RunReason::DeadlineExceeded)))
    } else {
        Ok(None)
    }
}

pub fn settle_unsubmitted_native_run(
    state: RunState,
    not_sent: bool,
    deadline: UtcTime,
    now: UtcTime,
) -> (r: Result<Option<(RunState, RunReason)>, StoreError>)
    ensures
        r == unsubmitted_settlement(state, not_sent, deadline, now),
{
    if state.is_terminal() {
        return Err(StoreError::Domain(DomainError::TerminalRun));
    }
    if !not_sent {
        return Ok(None);
    }
    if state == RunState::CancelRequested {
        Ok(Some((RunState::Cancelled, RunReason::CancelledBeforeDispatch)))
    } else if !now.is_before(&deadline) {
        Ok(Some((RunState::Failed, RunReason::DeadlineExceeded)))
    } else {
        Ok(None)
    }
}

#[derive(Clone, Copy, Debug, PartialEq, Eq, Structural)]
pub enum NextRuntimeAction {
    Cancel,
    PrepareDispatch,
    Reconcile,
}

/// What the native driver does for an owned Run: whether an expired sent job is
/// first turned into a cancellation request, and the next action.
#[derive(Clone, Copy, Debug, PartialEq, Eq, Structural)]
pub struct JobPlan {
    pub request_cancel: bool,
    pub action: NextRuntimeAction,
}

pub open spec fn job_plan(
    state: RunState,
    unsent: bool,
    spec_frozen: bool,
    deadline: UtcTime,
    now: UtcTime,
) -> Result<JobPlan, StoreError> {
    if terminal(state) {
        Err(StoreError::Domain(DomainError::TerminalRun))
    } else {
        let expire = !unsent && state != RunState::CancelRequested && deadline.nanos <= now.nanos;
        let cancelling = expire || state == RunState::CancelRequested;
        if !spec_frozen && (!unsent || cancelling) {
            Err(StoreError::Invalid("native_spec_not_frozen"))
        } else {
            Ok(
                JobPlan {
                    request_cancel: expire,
                    action: if cancelling {
                        NextRuntimeAction::Cancel
                    } else if unsent {
                        NextRuntimeAction::PrepareDispatch
                    } else {
                        NextRuntimeAction::Reconcile
                    },
                },
            )
        }
    }
}

/// Expiry requests remote termination; it does not prove termination.
/// Reconciliation never rebinds inputs or refreshes an old dispatch body.
pub fn native_job(
    state: RunState,
    unsent: bool,
    spec_frozen: bool,
    deadline: UtcTime,
    now: UtcTime,
) -> (r: Result<JobPlan, StoreError>)
    ensures
        r == job_plan(state, unsent, spec_frozen, deadline, now),
{
    if state.is_terminal() {
        return Err(StoreError::Domain(DomainError::TerminalRun));
    }
    let expire = !unsent && state != RunState::CancelRequested && !now.is_before(&deadline);
    let cancelling = expire || state == RunState::CancelRequested;
    if !spec_frozen && (!unsent || cancelling) {
        return Err(StoreError::Invalid("native_spec_not_frozen"));
    }
    Ok(
        JobPlan {
            request_cancel: expire,
            action: if cancelling {
                NextRuntimeAction::Cancel
            } else if unsent {
                NextRuntimeAction::PrepareDispatch
            } else {
                NextRuntimeAction::Reconcile
            },
        },
    )
}

/// Accepted is an acknowledgement of a sent job, not proof that it is running.
pub fn observe_native_accepted(
    accepted: bool,
    state: RunState,
    not_sent: bool,
    attempt_job: &Option<String>,
    reported_job: &str,
) -> (r: Result<(), StoreError>)
    ensures
        (accepted && !terminal(state) && !not_sent && crate::turns::opt_text(*attempt_job) == Some(
            reported_job@,
        )) ==> r == Ok::<(), StoreError>(()),
        !(accepted && !terminal(state) && !not_sent && crate::turns::opt_text(*attempt_job)
            == Some(reported_job@)) ==> r == Err::<(), StoreError>(StoreError::Conflict),
{
    let same_job = match attempt_job {
        Some(j) => same_text(j.as_str(), reported_job),
        None => false,
    };
    if !accepted || state.is_terminal() || not_sent || !same_job {
        return Err(StoreError::Conflict);
    }
    Ok(())
}

#[derive(Clone, Copy, Debug, PartialEq, Eq, Structural)]
pub enum ArtifactAccess {
    Operator,
    Research,
    EvaluatorOnly,
}

#[derive(Clone, Copy, Debug, PartialEq, Eq, Structural)]
pub enum DataPartition {
    Discovery,
    Validation,
    Sealed,
    Forward,
}

/// One frozen input of a native job.
#[derive(Clone, Debug)]
pub enum RuntimeInput {
    Dataset { revision_id: Id, registered_ref: String, storage_version: String, role: DataPartition },
    Artifact { artifact_id: Id, storage_version: String, byte_count: DbCounter, role: String },
}

pub open spec fn sealed_input(input: RuntimeInput) -> bool {
    input matches RuntimeInput::Dataset { role: DataPartition::Sealed, .. }
}

/// A native task runs under research or evaluator-only access, on 1..=1024 CPUs.
pub fn check_task_definition(access: ArtifactAccess, cpu: u16) -> (r: Result<(), StoreError>)
    ensures
        ((access == ArtifactAccess::Research || access == ArtifactAccess::EvaluatorOnly) && 1
            <= cpu <= 1024) ==> r == Ok::<(), StoreError>(()),
        !((access == ArtifactAccess::Research || access == ArtifactAccess::EvaluatorOnly) && 1
            <= cpu <= 1024) ==> r == Err::<(), StoreError>(
            StoreError::Invalid("native_task_definition"),
        ),
{
    if !(access == ArtifactAccess::Research || access == ArtifactAccess::EvaluatorOnly) || cpu < 1
        || cpu > 1024 {
        return Err(StoreError::Invalid("native_task_definition"));
    }
    Ok(())
}

/// Only an evaluator-only task may read a sealed partition.
pub fn check_sealed_authority(inputs: &Vec<RuntimeInput>, access: ArtifactAccess) -> (r: Result<
    (),
    StoreError,
>)
    ensures
        (access == ArtifactAccess::EvaluatorOnly || forall|i: int|
            0 <= i < inputs@.len() ==> !sealed_input(#[trigger] inputs@[i])) ==> r == Ok::<
            (),
            StoreError,
        >(()),
        !(access == ArtifactAccess::EvaluatorOnly || forall|i: int|
            0 <= i < inputs@.len() ==> !sealed_input(#[trigger] inputs@[i])) ==> r == Err::<
            (),
            StoreError,
        >(StoreError::Invalid("sealed_native_task_authority")),
{
    if access == ArtifactAccess::EvaluatorOnly {
        return Ok(());
    }
    let mut i: usize = 0;
    while i < inputs.len()
        invariant
            i <= inputs@.len(),
            access != ArtifactAccess::EvaluatorOnly,
            forall|k: int| 0 <= k < i ==> !sealed_input(#[trigger] inputs@[k]),
        decreases inputs@.len() - i,
    {
        if let RuntimeInput::Dataset { role: DataPartition::Sealed, .. } = &inputs[i] {
            return Err(StoreError::Invalid("sealed_native_task_authority"));
        }
        i = i + 1;
    }
    Ok(())
}

/// Whether a job touches held-out data: a sealed input or a sealed-evaluation output.
pub open spec fn holds_out(inputs: Seq<RuntimeInput>, outputs: Seq<SchemaRef>) -> bool {
    (exists|i: int| 0 <= i < inputs.len() && sealed_input(#[trigger] inputs[i])) || (exists|j: int|
        0 <= j < outputs.len() && (#[trigger] outputs[j]).name@ == "qz.alpha_sealed"@)
}

/// A job is held out exactly when some input, at any position, reads a Sealed
/// dataset partition or some output, at any position, is a sealed Alpha report:
/// one such input or output anywhere is enough, and without any the job is not held out.
pub proof fn sealed_reads_are_held_out(inputs: Seq<RuntimeInput>, outputs: Seq<SchemaRef>)
    ensures
        forall|i: int|
            0 <= i < inputs.len() && (#[trigger] inputs[i] matches RuntimeInput::Dataset {
                role: DataPartition::Sealed,
                ..
            }) ==> holds_out(inputs, outputs),
        forall|j: int|
            0 <= j < outputs.len() && (#[trigger] outputs[j]).name@ == "qz.alpha_sealed"@ ==> holds_out(
                inputs,
                outputs,
            ),
        holds_out(inputs, outputs) ==> (exists|i: int|
            0 <= i < inputs.len() && (#[trigger] inputs[i] matches RuntimeInput::Dataset {
                role: DataPartition::Sealed,
                ..
            })) || (exists|j: int|
            0 <= j < outputs.len() && (#[trigger] outputs[j]).name@ == "qz.alpha_sealed"@),
{
    assert forall|i: int|
        0 <= i < inputs.len() && (#[trigger] inputs[i] matches RuntimeInput::Dataset {
            role: DataPartition::Sealed,
            ..
        }) implies holds_out(inputs, outputs) by {
        assert(sealed_input(inputs[i]));
    }
}

pub fn held_out(inputs: &Vec<RuntimeInput>, outputs: &Vec<SchemaRef>) -> (r: bool)
    ensures
        r == holds_out(inputs@, outputs@),
        forall|i: int|
            0 <= i < inputs@.len() && (#[trigger] inputs@[i] matches RuntimeInput::Dataset {
                role: DataPartition::Sealed,
                ..
            }) ==> r,
        forall|j: int| 0 <= j < outputs@.len() && (#[trigger] outputs@[j]).name@ == "qz.alpha_sealed"@ ==> r,
        r ==> (exists|i: int|
            0 <= i < inputs@.len() && (#[trigger] inputs@[i] matches RuntimeInput::Dataset {
                role: DataPartition::Sealed,
                ..
            })) || (exists|j: int|
            0 <= j < outputs@.len() && (#[trigger] outputs@[j]).name@ == "qz.alpha_sealed"@),
{
    proof {
        sealed_reads_are_held_out(inputs@, outputs@);
    }
    let mut i: usize = 0;
    while i < inputs.len()
        invariant
            i <= inputs@.len(),
            forall|k: int| 0 <= k < i ==> !sealed_input(#[trigger] inputs@[k]),
        decreases inputs@.len() - i,
    {
        if let RuntimeInput::Dataset { role: DataPartition::Sealed, .. } = &inputs[i] {
            return true;
        }
        i = i + 1;
    }
    let mut j: usize = 0;
    while j < outputs.len()
        invariant
            j <= outputs@.len(),
            forall|k: int| 0 <= k < inputs@.len() ==> !sealed_input(#[trigger] inputs@[k]),
            forall|k: int| 0 <= k < j ==> (#[trigger] outputs@[k]).name@ != "qz.alpha_sealed"@,
        decreases outputs@.len() - j,
    {
        if same_text(outputs[j].name.as_str(), "qz.alpha_sealed") {
            return true;
        }
        j = j + 1;
    }
    false
}

/// A lineage's sealed partition admits at most `maximum` raw evaluator exposures.
pub fn check_sealed_uses(used: i64, maximum: i32) -> (r: Result<(), StoreError>)
    ensures
        used < maximum ==> r == Ok::<(), StoreError>(()),
        used >= maximum ==> r == Err::<(), StoreError>(
            StoreError::Domain(DomainError::BudgetExhausted("sealed_uses")),
        ),
{
    if used >= maximum as i64 {
        return Err(StoreError::Domain(DomainError::BudgetExhausted("sealed_uses")));
    }
    Ok(())
}

/// An input transfer is guarded by an unsent, uncancelled, live Run.
pub fn check_input_transfer(state: RunState, not_sent: bool) -> (r: Result<(), StoreError>)
    ensures
        (!terminal(state) && state != RunState::CancelRequested && not_sent) ==> r == Ok::<
            (),
            StoreError,
        >(()),
        !(!terminal(state) && state != RunState::CancelRequested && not_sent) ==> r == Err::<
            (),
            StoreError,
        >(StoreError::Domain(DomainError::AdmissionClosed)),
{
    if state.is_terminal() || state == RunState::CancelRequested || !not_sent {
        return Err(StoreError::Domain(DomainError::AdmissionClosed));
    }
    Ok(())
}

/// The frozen input artifact `artifact` of a job: its byte count and storage version.
pub fn artifact_input(inputs: &Vec<RuntimeInput>, artifact: Id) -> (r: Result<
    (DbCounter, String),
    StoreError,
>)
    ensures
        r matches Ok((count, version)) ==> exists|i: int|
            0 <= i < inputs@.len() && (#[trigger] inputs@[i] matches RuntimeInput::Artifact {
                artifact_id,
                storage_version,
                byte_count,
                ..
            } && artifact_id == artifact && byte_count == count && storage_version@ == version@)
                && forall|k: int|
                0 <= k < i ==> !(#[trigger] inputs@[k] matches RuntimeInput::Artifact {
                    artifact_id,
                    ..
                } && artifact_id == artifact),
        r is Err ==> r == Err::<(DbCounter, String), StoreError>(StoreError::Forbidden) && forall|
            i: int,
        |
            0 <= i < inputs@.len() ==> !(#[trigger] inputs@[i] matches RuntimeInput::Artifact {
                artifact_id,
                ..
            } && artifact_id == artifact),
{
    let mut i: usize = 0;
    while i < inputs.len()
        invariant
            i <= inputs@.len(),
            forall|k: int|
                0 <= k < i ==> !(#[trigger] inputs@[k] matches RuntimeInput::Artifact {
                    artifact_id,
                    ..
                } && artifact_id == artifact),
        decreases inputs@.len() - i,
    {
        if let RuntimeInput::Artifact { artifact_id, storage_version, byte_count, .. } = &inputs[i] {
            if *artifact_id == artifact {
                return Ok((*byte_count, storage_version.clone()));
            }
        }
        i = i + 1;
    }
    Err(StoreError::Forbidden)
}

/// A queue read takes 1..=300 seconds of visibility and 1..=100 messages.
pub fn check_queue_read(visibility_seconds: i32, limit: i32) -> (r: Result<(), StoreError>)
    ensures
        (1 <= visibility_seconds <= 300 && 1 <= limit <= 100) ==> r == Ok::<(), StoreError>(()),
        !(1 <= visibility_seconds <= 300 && 1 <= limit <= 100) ==> r == Err::<(), StoreError>(
            StoreError::Invalid("queue_read_limit"),
        ),
{
    if !(1 <= visibility_seconds && visibility_seconds <= 300) || !(1 <= limit && limit <= 100) {
        return Err(StoreError::Invalid("queue_read_limit"));
    }
    Ok(())
}

} // verus!
