//! Releases freeze target-only package bytes. A package is valid from the later
//! of now and its targets' as-of, until the earliest deadline of everything it
//! rests on; it is never valid past any of them.
use vstd::prelude::*;
use crate::error::StoreError;
use crate::ids::{DbCounter, UtcTime};
use crate::portfolio_build::{real_pit, ForwardDataset};
use vstd::string::StringExecFns;

verus! {

/// Where data came from, from most to least trustworthy.
#[derive(Clone, Copy, Debug, PartialEq, Eq, Structural)]
pub enum DataOrigin {
    Real,
    Synthetic,
    Fixture,
    LegacyUnknown,
}

/// How far an origin is from real data.
pub open spec fn origin_rank(o: DataOrigin) -> int {
    match o {
        DataOrigin::Real => 0,
        DataOrigin::Synthetic => 1,
        DataOrigin::Fixture => 2,
        DataOrigin::LegacyUnknown => 3,
    }
}

/// The less trustworthy of two origins.
pub open spec fn weaker(a: DataOrigin, b: DataOrigin) -> DataOrigin {
    if origin_rank(a) >= origin_rank(b) {
        a
    } else {
        b
    }
}

/// The origin of work on two sources: the less trustworthy of the two.
pub fn combine_origin(a: DataOrigin, b: DataOrigin) -> (r: DataOrigin)
    ensures
        r == weaker(a, b),
{
    if a == DataOrigin::LegacyUnknown || b == DataOrigin::LegacyUnknown {
        DataOrigin::LegacyUnknown
    } else if a == DataOrigin::Fixture || b == DataOrigin::Fixture {
        DataOrigin::Fixture
    } else if a == DataOrigin::Synthetic || b == DataOrigin::Synthetic {
        DataOrigin::Synthetic
    } else {
        DataOrigin::Real
    }
}

/// Combining origins is order-free, and only real data combines to real data.
pub proof fn origins_combine_to_the_weakest(a: DataOrigin, b: DataOrigin, c: DataOrigin)
    ensures
        weaker(a, b) == weaker(b, a),
        weaker(weaker(a, b), c) == weaker(a, weaker(b, c)),
        (weaker(a, b) == DataOrigin::Real) == (a == DataOrigin::Real && b == DataOrigin::Real),
{
}

/// A release is made only of a Candidate built, and targeted, on real data.
pub fn check_real_candidate(target: DataOrigin, candidate: DataOrigin) -> (r: Result<
    (),
    StoreError,
>)
    ensures
        (target == DataOrigin::Real && candidate == DataOrigin::Real) ==> r == Ok::<(), StoreError>(
            (),
        ),
        !(target == DataOrigin::Real && candidate == DataOrigin::Real) ==> r == Err::<
            (),
            StoreError,
        >(StoreError::Invalid("release_real_candidate")),
{
    if target != DataOrigin::Real || candidate != DataOrigin::Real {
        return Err(StoreError::Invalid("release_real_candidate"));
    }
    Ok(())
}

pub open spec fn all_real(datasets: Seq<ForwardDataset>) -> bool {
    datasets.len() > 0 && forall|i: int| 0 <= i < datasets.len() ==> real_pit(#[trigger] datasets[i])
}

/// One dataset anywhere in a set that is not real (origin REAL), verified
/// (point-in-time status VERIFIED) data revised only as known then (AS_KNOWN_THEN)
/// makes the whole set not real; an empty set is not real either; and a set
/// that is real has every one of its datasets real.
pub proof fn one_unreal_dataset_refuses_all(datasets: Seq<ForwardDataset>)
    ensures
        datasets.len() == 0 ==> !all_real(datasets),
        forall|i: int|
            0 <= i < datasets.len() && !((#[trigger] datasets[i]).origin@ == "REAL"@
                && datasets[i].pit_status@ == "VERIFIED"@ && datasets[i].revision_policy@
                == "AS_KNOWN_THEN"@) ==> !all_real(datasets),
        all_real(datasets) ==> forall|i: int|
            0 <= i < datasets.len() ==> (#[trigger] datasets[i]).origin@ == "REAL"@
                && datasets[i].pit_status@ == "VERIFIED"@ && datasets[i].revision_policy@
                == "AS_KNOWN_THEN"@,
{
}

/// Whether a set of datasets is non-empty and all real, verified point-in-time data.
pub fn all_real_sources(datasets: &Vec<ForwardDataset>) -> (r: bool)
    ensures
        r == all_real(datasets@),
        r ==> datasets@.len() > 0,
        forall|i: int|
            0 <= i < datasets@.len() && !((#[trigger] datasets@[i]).origin@ == "REAL"@ && datasets@[i].pit_status@ == "VERIFIED"@
                && datasets@[i].revision_policy@ == "AS_KNOWN_THEN"@) ==> !r,
{
    proof {
        one_unreal_dataset_refuses_all(datasets@);
    }
    if datasets.len() == 0 {
        return false;
    }
    let mut i: usize = 0;
    while i < datasets.len()
        invariant
            i <= datasets@.len(),
            datasets@.len() > 0,
            forall|k: int| 0 <= k < i ==> real_pit(#[trigger] datasets@[k]),
        decreases datasets@.len() - i,
    {
        let d = &datasets[i];
        if !(crate::text::same_text(d.origin.as_str(), "REAL") && crate::text::same_text(
            d.pit_status.as_str(),
            "VERIFIED",
        ) && crate::text::same_text(d.revision_policy.as_str(), "AS_KNOWN_THEN")) {
            assert(!real_pit(datasets@[i as int]));
            return false;
        }
        i = i + 1;
    }
    true
}

/// Every dataset behind a release (its build, study, cost source and members'
/// research) is real, verified point-in-time data; there is at least one.
pub fn check_real_sources(datasets: &Vec<ForwardDataset>) -> (r: Result<(), StoreError>)
    ensures
        all_real(datasets@) ==> r == Ok::<(), StoreError>(()),
        !all_real(datasets@) ==> r == Err::<(), StoreError>(StoreError::Invalid("release_real_sources")),
        datasets@.len() == 0 ==> r == Err::<(), StoreError>(StoreError::Invalid("release_real_sources")),
        forall|i: int|
            0 <= i < datasets@.len() && !((#[trigger] datasets@[i]).origin@ == "REAL"@ && datasets@[i].pit_status@ == "VERIFIED"@
                && datasets@[i].revision_policy@ == "AS_KNOWN_THEN"@) ==> r == Err::<(), StoreError>(
                StoreError::Invalid("release_real_sources"),
            ),
{
    proof {
        one_unreal_dataset_refuses_all(datasets@);
    }
    if !all_real_sources(datasets) {
        return Err(StoreError::Invalid("release_real_sources"));
    }
    Ok(())
}

/// The deadlines a package rests on.
#[derive(Clone, Copy, Debug)]
pub struct ReleaseDeadlines {
    /// The earliest end of the members' qualifications and the data-use grants.
    pub sources_until: UtcTime,
    /// When the portfolio evaluation expires.
    pub evaluation_until: UtcTime,
    /// When the Candidate's targets expire.
    pub targets_until: UtcTime,
    /// When the current weights the Candidate was built on expire, in nanoseconds.
    pub weights_until_ns: DbCounter,
    /// When the rolling liquidity observations grow too old, for a rolling build.
    pub rolling_until: Option<UtcTime>,
    /// When the frozen bar liquidity expires, where it does.
    pub liquidity_until: Option<UtcTime>,
}

pub open spec fn earlier(a: UtcTime, b: UtcTime) -> UtcTime {
    if b.nanos < a.nanos {
        b
    } else {
        a
    }
}

pub open spec fn earlier_opt(a: UtcTime, b: Option<UtcTime>) -> UtcTime {
    match b {
        Some(t) => earlier(a, t),
        None => a,
    }
}

/// The current weights' expiry as PostgreSQL keeps it: truncated to the microsecond.
pub open spec fn weights_until(d: ReleaseDeadlines) -> UtcTime {
    UtcTime { nanos: ((d.weights_until_ns.amount() / 1000) * 1000) as i128 }
}

/// The earliest deadline of all.
pub open spec fn package_until(d: ReleaseDeadlines) -> UtcTime {
    earlier_opt(
        earlier_opt(
            earlier(
                earlier(earlier(d.sources_until, d.evaluation_until), d.targets_until),
                weights_until(d),
            ),
            d.rolling_until,
        ),
        d.liquidity_until,
    )
}

pub open spec fn package_window(d: ReleaseDeadlines, asof: UtcTime, now: UtcTime) -> Result<
    (UtcTime, UtcTime),
    StoreError,
> {
    let until = package_until(d);
    if until.nanos <= now.nanos {
        Err(StoreError::Invalid("release_expired"))
    } else {
        Ok((if asof.nanos > now.nanos { asof } else { now }, until))
    }
}

fn earliest(a: UtcTime, b: UtcTime) -> (r: UtcTime)
    ensures
        r == earlier(a, b),
{
    if b.is_before(&a) {
        b
    } else {
        a
    }
}

/// The validity window of a package: from the later of now and the targets'
/// as-of, until the earliest deadline; refused once that deadline has passed.
pub fn release_window(d: &ReleaseDeadlines, asof: UtcTime, now: UtcTime) -> (r: Result<
    (UtcTime, UtcTime),
    StoreError,
>)
    ensures
        r == package_window(*d, asof, now),
{
    let weights = UtcTime::from_timestamp_micros((d.weights_until_ns.get() / 1000) as i64);
    let mut until = earliest(earliest(d.sources_until, d.evaluation_until), d.targets_until);
    until = earliest(until, weights);
    if let Some(t) = d.rolling_until {
        until = earliest(until, t);
    }
    if let Some(t) = d.liquidity_until {
        until = earliest(until, t);
    }
    if !now.is_before(&until) {
        return Err(StoreError::Invalid("release_expired"));
    }
    let from = if now.is_before(&asof) {
        asof
    } else {
        now
    };
    Ok((from, until))
}

/// A package never outlives anything it rests on, starts no earlier than now
/// or its targets' as-of, and is refused rather than issued already expired.
pub proof fn package_stays_within_deadlines(d: ReleaseDeadlines, asof: UtcTime, now: UtcTime)
    requires
        package_window(d, asof, now) is Ok,
    ensures
        ({
            let (from, until) = package_window(d, asof, now)->Ok_0;
            &&& until.nanos <= d.sources_until.nanos
            &&& until.nanos <= d.evaluation_until.nanos
            &&& until.nanos <= d.targets_until.nanos
            &&& until.nanos <= d.weights_until_ns.amount()
            &&& (d.rolling_until matches Some(t) ==> until.nanos <= t.nanos)
            &&& (d.liquidity_until matches Some(t) ==> until.nanos <= t.nanos)
            &&& now.nanos < until.nanos
            &&& from.nanos >= now.nanos
            &&& from.nanos >= asof.nanos
        }),
{
}

/// A package made again after its bytes were published must be the same
/// package, from its first start, and still valid when recorded.
pub fn check_release_recheck(same_package: bool, valid_until: UtcTime, now: UtcTime) -> (r: Result<
    (),
    StoreError,
>)
    ensures
        (same_package && now.nanos < valid_until.nanos) ==> r == Ok::<(), StoreError>(()),
        !(same_package && now.nanos < valid_until.nanos) ==> r == Err::<(), StoreError>(
            StoreError::Conflict,
        ),
{
    if !same_package || !now.is_before(&valid_until) {
        return Err(StoreError::Conflict);
    }
    Ok(())
}

/// The limitation every package states: the status of its cost assumptions,
/// and that its targets are neither orders nor account positions.
pub open spec fn limitation_text(cost_assumption_status: Seq<char>) -> Seq<char> {
    "Cost assumptions: "@ + cost_assumption_status + ". Targets are not orders or account positions."@
}

/// The limitation line of a package for its cost assumptions' status.
pub fn package_limitation(cost_assumption_status: &str) -> (r: String)
    ensures
        r@ == limitation_text(cost_assumption_status@),
{
    let mut text = "Cost assumptions: ".to_string();
    text.append(cost_assumption_status);
    text.append(". Targets are not orders or account positions.");
    text
}

} // verus!
