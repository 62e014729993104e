//! Admission of one held-out (sealed) execution of an Alpha: the frozen Cycle
//! context, the one source validation it rests on, the paid model, and the
//! policy's sealed revision. Nothing is refit or borrowed from the validation.
use vstd::prelude::*;
use crate::error::{DomainError, StoreError};
use crate::ids::{DbCounter, Id, Revision, UtcTime};
use crate::text::same_text;

verus! {

/// Largest paid model a sealed execution may load, in bytes.
pub const MAX_MODEL_BYTES: u64 = 2097152u64;

/// The frozen context of the running Cycle, against what the request names.
#[derive(Clone, Copy, Debug)]
pub struct SealedContext {
    pub sealed_input_set: Id,
    pub runtime: Id,
    pub runtime_revision: Revision,
    pub policy: Id,
}

/// A sealed evaluation runs on the Cycle's own sealed input set, runtime,
/// runtime revision and evaluation policy, each exactly as frozen.
pub fn check_frozen_context(frozen: &SealedContext, requested: &SealedContext) -> (r: Result<
    (),
    StoreError,
>)
    ensures
        (frozen.sealed_input_set == requested.sealed_input_set && frozen.runtime == requested.runtime
            && frozen.runtime_revision == requested.runtime_revision && frozen.policy
            == requested.policy) ==> r == Ok::<(), StoreError>(()),
        !(frozen.sealed_input_set == requested.sealed_input_set && frozen.runtime
            == requested.runtime && frozen.runtime_revision == requested.runtime_revision
            && frozen.policy == requested.policy) ==> r == Err::<(), StoreError>(
            StoreError::Invalid("alpha_evaluation_frozen_context"),
        ),
{
    if frozen.sealed_input_set != requested.sealed_input_set || frozen.runtime != requested.runtime
        || frozen.runtime_revision != requested.runtime_revision || frozen.policy
        != requested.policy {
        return Err(StoreError::Invalid("alpha_evaluation_frozen_context"));
    }
    Ok(())
}

/// The policy must define sealed metric requirements.
pub fn check_sealed_policy(has_sealed_requirements: bool) -> (r: Result<(), StoreError>)
    ensures
        has_sealed_requirements ==> r == Ok::<(), StoreError>(()),
        !has_sealed_requirements ==> r == Err::<(), StoreError>(
            StoreError::Invalid("sealed_policy_not_defined"),
        ),
{
    if !has_sealed_requirements {
        return Err(StoreError::Invalid("sealed_policy_not_defined"));
    }
    Ok(())
}

/// Exactly one current, passing source validation stands behind the Alpha.
pub fn check_source_validation(count: usize) -> (r: Result<(), StoreError>)
    ensures
        count == 1 ==> r == Ok::<(), StoreError>(()),
        count != 1 ==> r == Err::<(), StoreError>(StoreError::Invalid("original_validation_required")),
{
    if count != 1 {
        return Err(StoreError::Invalid("original_validation_required"));
    }
    Ok(())
}

/// The paid model is loaded only if it is non-empty, at most two mebibytes,
/// and the very model the validation ran.
pub fn check_model(size: DbCounter, model: Id, validated_model: Id) -> (r: Result<(), StoreError>)
    ensures
        (1 <= size.amount() <= MAX_MODEL_BYTES && model == validated_model) ==> r == Ok::<
            (),
            StoreError,
        >(()),
        !(1 <= size.amount() <= MAX_MODEL_BYTES && model == validated_model) ==> r == Err::<
            (),
            StoreError,
        >(StoreError::Integrity),
{
    let n = size.get();
    if n == 0 || n > MAX_MODEL_BYTES || model != validated_model {
        return Err(StoreError::Integrity);
    }
    Ok(())
}

pub open spec fn sealed_dataset_check(revisions: Seq<Id>, sealed_revision: Id) -> Result<
    (),
    StoreError,
> {
    if revisions.len() != 1 {
        Err(StoreError::Invalid("native_alpha_single_sealed_revision"))
    } else if revisions[0] != sealed_revision {
        Err(StoreError::Invalid("sealed_policy_dataset"))
    } else {
        Ok(())
    }
}

/// The sealed input set binds exactly one revision: the policy's sealed one.
pub fn check_sealed_dataset(revisions: &Vec<Id>, sealed_revision: Id) -> (r: Result<
    (),
    StoreError,
>)
    ensures
        r == sealed_dataset_check(revisions@, sealed_revision),
{
    if revisions.len() != 1 {
        return Err(StoreError::Invalid("native_alpha_single_sealed_revision"));
    }
    if revisions[0] != sealed_revision {
        return Err(StoreError::Invalid("sealed_policy_dataset"));
    }
    Ok(())
}

/// The runtime still runs the image the Alpha was frozen with.
pub fn check_alpha_image(image: &str, frozen: &str) -> (r: Result<(), StoreError>)
    ensures
        image@ == frozen@ ==> r == Ok::<(), StoreError>(()),
        image@ != frozen@ ==> r == Err::<(), StoreError>(
            StoreError::Domain(DomainError::CapabilityUnavailable("frozen_alpha_image_changed")),
        ),
{
    if !same_text(image, frozen) {
        return Err(
            StoreError::Domain(DomainError::CapabilityUnavailable("frozen_alpha_image_changed")),
        );
    }
    Ok(())
}

/// The research the held-out run may not precede: the latest availability of
/// the training dataset and of every discovery dataset.
pub fn sealed_available_through(training: DbCounter, discovery: &Vec<DbCounter>) -> (r: DbCounter)
    ensures
        r.amount() >= training.amount(),
        forall|i: int| 0 <= i < discovery@.len() ==> (#[trigger] discovery@[i]).amount() <= r.amount(),
        r == training || exists|i: int| 0 <= i < discovery@.len() && r == discovery@[i],
{
    let mut best = training;
    let mut i: usize = 0;
    while i < discovery.len()
        invariant
            i <= discovery@.len(),
            best.amount() >= training.amount(),
            forall|k: int| 0 <= k < i ==> (#[trigger] discovery@[k]).amount() <= best.amount(),
            best == training || exists|k: int| 0 <= k < i && best == discovery@[k],
        decreases discovery@.len() - i,
    {
        if discovery[i].get() > best.get() {
            best = discovery[i];
        }
        i = i + 1;
    }
    best
}

/// What reserving a held-out opportunity does for an attempt.
#[derive(Clone, Copy, Debug, PartialEq, Eq, Structural)]
pub enum OpportunityStep {
    /// The job touches no held-out data.
    NotHeldOut,
    /// The attempt already holds its opportunity.
    Reserved,
    /// Record a new raw evaluator exposure and its opportunity.
    Reserve,
}

/// The facts a held-out reservation is decided on.
#[derive(Clone, Copy, Debug)]
pub struct OpportunityFacts {
    pub held_out: bool,
    /// The job specification is being frozen now, not reread.
    pub new_spec: bool,
    pub opportunity_exists: bool,
    pub binding_root: Id,
    pub lineage_root: Id,
    /// Someone other than an evaluator already saw this sealed data, or its source.
    pub exposed: bool,
    pub used: i64,
    pub maximum: i32,
}

pub open spec fn independence_check(exposed: bool, used: i64, maximum: i32) -> Result<(), StoreError> {
    if exposed {
        Err(StoreError::Invalid("sealed_independence_unavailable"))
    } else if used >= maximum {
        Err(StoreError::Domain(DomainError::BudgetExhausted("sealed_uses")))
    } else {
        Ok(())
    }
}

/// Held-out data stays independent: never after a non-evaluator saw it, and
/// at most `maximum` raw evaluator exposures per lineage.
pub fn check_opportunity(exposed: bool, used: i64, maximum: i32) -> (r: Result<(), StoreError>)
    ensures
        r == independence_check(exposed, used, maximum),
{
    if exposed {
        return Err(StoreError::Invalid("sealed_independence_unavailable"));
    }
    crate::native::check_sealed_uses(used, maximum)
}

pub open spec fn reservation_spec(f: OpportunityFacts) -> Result<OpportunityStep, StoreError> {
    if !f.held_out {
        Ok(OpportunityStep::NotHeldOut)
    } else if !f.new_spec {
        if f.opportunity_exists {
            Ok(OpportunityStep::Reserved)
        } else {
            Err(StoreError::Invalid("sealed_opportunity_missing"))
        }
    } else if f.binding_root != f.lineage_root {
        Err(StoreError::Integrity)
    } else {
        match independence_check(f.exposed, f.used, f.maximum) {
            Err(e) => Err(e),
            Ok(()) => Ok(OpportunityStep::Reserve),
        }
    }
}

/// One attempt's held-out access is reserved before any native capability
/// leaves the transaction; a reread specification must already hold it.
pub fn reserve_opportunity(f: &OpportunityFacts) -> (r: Result<OpportunityStep, StoreError>)
    ensures
        r == reservation_spec(*f),
{
    if !f.held_out {
        return Ok(OpportunityStep::NotHeldOut);
    }
    if !f.new_spec {
        if f.opportunity_exists {
            return Ok(OpportunityStep::Reserved);
        }
        return Err(StoreError::Invalid("sealed_opportunity_missing"));
    }
    if f.binding_root != f.lineage_root {
        return Err(StoreError::Integrity);
    }
    check_opportunity(f.exposed, f.used, f.maximum)?;
    Ok(OpportunityStep::Reserve)
}

/// Whether an ungranted sealed task is unavailable: only independence and the
/// use budget make it so; any other failure is the caller's.
pub fn opportunity_unavailable(check: Result<(), StoreError>) -> (r: Result<bool, StoreError>)
    ensures
        match check {
            Ok(()) => r == Ok::<bool, StoreError>(false),
            Err(StoreError::Domain(DomainError::BudgetExhausted(reason))) => if reason@
                == "sealed_uses"@ {
                r == Ok::<bool, StoreError>(true)
            } else {
                r == Err::<bool, StoreError>(check->Err_0)
            },
            Err(StoreError::Invalid(reason)) => if reason@ == "sealed_independence_unavailable"@ {
                r == Ok::<bool, StoreError>(true)
            } else {
                r == Err::<bool, StoreError>(check->Err_0)
            },
            Err(e) => r == Err::<bool, StoreError>(e),
        },
{
    match check {
        Ok(()) => Ok(false),
        Err(StoreError::Domain(DomainError::BudgetExhausted(reason))) => {
            if same_text(reason, "sealed_uses") {
                Ok(true)
            } else {
                Err(StoreError::Domain(DomainError::BudgetExhausted(reason)))
            }
        },
        Err(StoreError::Invalid(reason)) => {
            if same_text(reason, "sealed_independence_unavailable") {
                Ok(true)
            } else {
                Err(StoreError::Invalid(reason))
            }
        },
        Err(e) => Err(e),
    }
}

/// What a Cycle records after trying to admit the sealed execution of a
/// reviewed Alpha.
#[derive(Clone, Copy, Debug, PartialEq, Eq, Structural)]
pub enum SealedCycleStep {
    /// The sealed execution was admitted; the Cycle waits for it.
    SealedEvaluation,
    /// The Cycle's budget is spent: it completes for review.
    BudgetExhausted,
    /// Sealed inputs need attention before the Cycle can go on.
    InputsRequireAttention,
}

pub open spec fn sealed_record_spec(result: Result<(), StoreError>) -> Result<SealedCycleStep, StoreError> {
    match result {
        Ok(()) => Ok(SealedCycleStep::SealedEvaluation),
        Err(StoreError::Domain(DomainError::BudgetExhausted(_))) => Ok(SealedCycleStep::BudgetExhausted),
        Err(StoreError::Domain(DomainError::Fields { .. }))
        | Err(StoreError::Domain(DomainError::CapabilityUnavailable(_))) => Ok(
            SealedCycleStep::InputsRequireAttention,
        ),
        Err(StoreError::Invalid(reason)) => if reason@ == "original_validation_required"@ || reason@
            == "sealed_policy_not_defined"@ {
            Ok(SealedCycleStep::InputsRequireAttention)
        } else {
            Err(StoreError::Invalid(reason))
        },
        Err(e) => Err(e),
    }
}

/// A refusal of the sealed admission that the Cycle can honestly record leaves
/// it completed or waiting for inputs; any other failure is the caller's.
pub fn sealed_admission_record(result: Result<(), StoreError>) -> (r: Result<SealedCycleStep, StoreError>)
    ensures
        r == sealed_record_spec(result),
{
    match result {
        Ok(()) => Ok(SealedCycleStep::SealedEvaluation),
        Err(StoreError::Domain(DomainError::BudgetExhausted(_))) => Ok(SealedCycleStep::BudgetExhausted),
        Err(StoreError::Domain(DomainError::Fields { .. }))
        | Err(StoreError::Domain(DomainError::CapabilityUnavailable(_))) => Ok(
            SealedCycleStep::InputsRequireAttention,
        ),
        Err(StoreError::Invalid(reason)) => {
            if same_text(reason, "original_validation_required") || same_text(
                reason,
                "sealed_policy_not_defined",
            ) {
                Ok(SealedCycleStep::InputsRequireAttention)
            } else {
                Err(StoreError::Invalid(reason))
            }
        },
        Err(e) => Err(e),
    }
}

pub open spec fn earliest_of(a: UtcTime, b: UtcTime) -> UtcTime {
    if b.nanos < a.nanos {
        b
    } else {
        a
    }
}

/// The earliest end among the grants, if there are any.
pub open spec fn grants_end(grants: Seq<UtcTime>) -> Option<UtcTime>
    decreases grants.len(),
{
    if grants.len() == 0 {
        None
    } else {
        match grants_end(grants.drop_last()) {
            None => Some(grants.last()),
            Some(u) => Some(earliest_of(u, grants.last())),
        }
    }
}

proof fn lemma_grants_end(grants: Seq<UtcTime>)
    ensures
        grants.len() > 0 <==> grants_end(grants) is Some,
        grants_end(grants) matches Some(e) ==> forall|i: int|
            0 <= i < grants.len() ==> e.nanos <= (#[trigger] grants[i]).nanos,
        grants_end(grants) matches Some(e) ==> exists|i: int| 0 <= i < grants.len() && #[trigger] grants[i] == e,
    decreases grants.len(),
{
    if grants.len() > 0 {
        let rest = grants.drop_last();
        lemma_grants_end(rest);
        assert forall|i: int| 0 <= i < rest.len() implies #[trigger] rest[i] == grants[i] by {}
        assert(grants[grants.len() - 1] == grants.last());
        if rest.len() > 0 && grants_end(grants)->0 == grants_end(rest)->0 {
            let k = choose|i: int| 0 <= i < rest.len() && #[trigger] rest[i] == grants_end(rest)->0;
            assert(grants[k] == rest[k]);
        }
        let e = grants_end(grants)->0;
        assert forall|i: int| 0 <= i < grants.len() implies e.nanos <= (#[trigger] grants[i]).nanos by {
            if i < rest.len() {
                assert(rest[i] == grants[i]);
            }
        }
    }
}

/// A qualification lasts until the earliest end it rests on: no later than its
/// sealed evaluation's end, its validation's end and every data grant's end, at
/// whatever position, and it is one of them; it is granted exactly when that
/// end lies after now.
pub proof fn qualification_ends_at_the_first_end(
    sealed_until: UtcTime,
    validation_until: UtcTime,
    grants: Seq<UtcTime>,
    now: UtcTime,
)
    ensures
        qualification_spec(sealed_until, validation_until, grants, now) matches Some(u) ==> {
            &&& now.nanos < u.nanos
            &&& u.nanos <= sealed_until.nanos
            &&& u.nanos <= validation_until.nanos
            &&& forall|i: int| 0 <= i < grants.len() ==> u.nanos <= (#[trigger] grants[i]).nanos
            &&& (u == sealed_until || u == validation_until || exists|i: int|
                0 <= i < grants.len() && #[trigger] grants[i] == u)
        },
        (sealed_until.nanos <= now.nanos || validation_until.nanos <= now.nanos || exists|i: int|
            0 <= i < grants.len() && (#[trigger] grants[i]).nanos <= now.nanos) ==> qualification_spec(
            sealed_until,
            validation_until,
            grants,
            now,
        ) is None,
        (now.nanos < sealed_until.nanos && now.nanos < validation_until.nanos && forall|i: int|
            0 <= i < grants.len() ==> now.nanos < (#[trigger] grants[i]).nanos) ==> qualification_spec(
            sealed_until,
            validation_until,
            grants,
            now,
        ) is Some,
{
    lemma_grants_end(grants);
    if grants.len() > 0 {
        let g = grants_end(grants)->0;
        let k = choose|i: int| 0 <= i < grants.len() && #[trigger] grants[i] == g;
        assert(grants[k] == g);
    }
}

/// A qualification lasts until the earliest of its sealed evaluation's, its
/// validation's and its data grants' ends, and is granted only if that lies ahead.
pub open spec fn qualification_spec(
    sealed_until: UtcTime,
    validation_until: UtcTime,
    grants: Seq<UtcTime>,
    now: UtcTime,
) -> Option<UtcTime> {
    let base = earliest_of(sealed_until, validation_until);
    let until = match grants_end(grants) {
        None => base,
        Some(g) => earliest_of(base, g),
    };
    if until.nanos > now.nanos {
        Some(until)
    } else {
        None
    }
}

pub fn qualification_until(
    sealed_until: UtcTime,
    validation_until: UtcTime,
    grants: &Vec<UtcTime>,
    now: UtcTime,
) -> (r: Option<UtcTime>)
    ensures
        r == qualification_spec(sealed_until, validation_until, grants@, now),
        r matches Some(u) ==> {
            &&& now.nanos < u.nanos
            &&& u.nanos <= sealed_until.nanos
            &&& u.nanos <= validation_until.nanos
            &&& forall|i: int| 0 <= i < grants@.len() ==> u.nanos <= (#[trigger] grants@[i]).nanos
            &&& (u == sealed_until || u == validation_until || exists|i: int|
                0 <= i < grants@.len() && #[trigger] grants@[i] == u)
        },
        (now.nanos < sealed_until.nanos && now.nanos < validation_until.nanos && forall|i: int|
            0 <= i < grants@.len() ==> now.nanos < (#[trigger] grants@[i]).nanos) ==> r is Some,
{
    proof {
        qualification_ends_at_the_first_end(sealed_until, validation_until, grants@, now);
    }
    let mut end: Option<UtcTime> = None;
    let mut i: usize = 0;
    while i < grants.len()
        invariant
            i <= grants@.len(),
            end == grants_end(grants@.subrange(0, i as int)),
        decreases grants@.len() - i,
    {
        proof {
            assert(grants@.subrange(0, i + 1).drop_last() =~= grants@.subrange(0, i as int));
        }
        let g = grants[i];
        end = match end {
            None => Some(g),
            Some(u) => Some(
                if g.is_before(&u) {
                    g
                } else {
                    u
                },
            ),
        };
        i = i + 1;
    }
    proof {
        assert(grants@.subrange(0, grants@.len() as int) =~= grants@);
    }
    let base = if validation_until.is_before(&sealed_until) {
        validation_until
    } else {
        sealed_until
    };
    let until = match end {
        None => base,
        Some(g) => if g.is_before(&base) {
            g
        } else {
            base
        },
    };
    if now.is_before(&until) {
        Some(until)
    } else {
        None
    }
}

/// A late grant never extends the scientific or license window: a granted
/// qualification ends no later than any of them.
pub proof fn qualification_never_extends_its_sources(
    sealed_until: UtcTime,
    validation_until: UtcTime,
    grants: Seq<UtcTime>,
    now: UtcTime,
)
    requires
        qualification_spec(sealed_until, validation_until, grants, now) is Some,
    ensures
        ({
            let u = qualification_spec(sealed_until, validation_until, grants, now)->0;
            &&& u.nanos <= sealed_until.nanos
            &&& u.nanos <= validation_until.nanos
            &&& forall|i: int| 0 <= i < grants.len() ==> u.nanos <= (#[trigger] grants[i]).nanos
            &&& now.nanos < u.nanos
        }),
{
    lemma_grants_end_bounds(grants);
}

proof fn lemma_grants_end_bounds(grants: Seq<UtcTime>)
    ensures
        grants.len() > 0 <==> grants_end(grants) is Some,
        grants_end(grants) matches Some(g) ==> forall|i: int|
            0 <= i < grants.len() ==> g.nanos <= (#[trigger] grants[i]).nanos,
    decreases grants.len(),
{
    if grants.len() > 0 {
        let init = grants.drop_last();
        lemma_grants_end_bounds(init);
        assert forall|i: int| 0 <= i < grants.len() implies grants_end(grants)->0.nanos <= (
        #[trigger] grants[i]).nanos by {
            if i < grants.len() - 1 {
                assert(grants[i] == init[i]);
            }
        }
    }
}

} // verus!
