//! Release approvals: exact human admission of one release to one downstream
//! and environment, bounded by every source it rests on, and revocations that
//! never take effect in the past.
use vstd::prelude::*;
use crate::error::{DomainError, StoreError};
use crate::ids::{Id, Revision, UtcTime};
use crate::portfolio::{grant_covers, ForwardEnvironment};
use crate::text::same_text;

verus! {

/// A downstream integration's readiness, as its latest probe reports it.
#[derive(Clone, Debug)]
pub struct DownstreamReadiness {
    pub revision: Revision,
    pub available: bool,
    pub environments: Vec<ForwardEnvironment>,
    pub package_versions: Vec<String>,
    /// The market capability versions of the latest probe, where it found the
    /// downstream available.
    pub market_versions: Option<Vec<String>>,
}

pub open spec fn lists_text(v: Seq<String>, t: Seq<char>) -> bool {
    exists|i: int| 0 <= i < v.len() && (#[trigger] v[i])@ == t
}

/// A text is listed exactly when it stands at some position of the list.
pub proof fn listed_at_any_position(v: Seq<String>, t: Seq<char>)
    ensures
        forall|i: int| 0 <= i < v.len() && (#[trigger] v[i])@ == t ==> lists_text(v, t),
        lists_text(v, t) ==> exists|i: int| 0 <= i < v.len() && (#[trigger] v[i])@ == t,
        !lists_text(v, t) ==> forall|i: int| 0 <= i < v.len() ==> (#[trigger] v[i])@ != t,
{
}

fn has_text(v: &Vec<String>, t: &str) -> (r: bool)
    ensures
        r == lists_text(v@, t@),
{
    let mut i: usize = 0;
    while i < v.len()
        invariant
            i <= v@.len(),
            forall|k: int| 0 <= k < i ==> (#[trigger] v@[k])@ != t@,
        decreases v@.len() - i,
    {
        if same_text(v[i].as_str(), t) {
            return true;
        }
        i = i + 1;
    }
    false
}

fn has_environment(v: &Vec<ForwardEnvironment>, e: ForwardEnvironment) -> (r: bool)
    ensures
        r == v@.contains(e),
{
    let mut i: usize = 0;
    while i < v.len()
        invariant
            i <= v@.len(),
            forall|k: int| 0 <= k < i ==> v@[k] != e,
        decreases v@.len() - i,
    {
        if v[i] == e {
            proof {
                assert(v@[i as int] == e);
            }
            return true;
        }
        i = i + 1;
    }
    false
}

/// Every market capability the package is compatible with is one the downstream supports.
pub open spec fn all_listed(wanted: Seq<String>, offered: Seq<String>) -> bool {
    forall|i: int| 0 <= i < wanted.len() ==> lists_text(offered, (#[trigger] wanted[i])@)
}

pub open spec fn delivery_check(
    r: DownstreamReadiness,
    expected: Revision,
    environment: ForwardEnvironment,
    package_version: Seq<char>,
    market: Seq<String>,
) -> Result<(), StoreError> {
    if r.revision != expected {
        Err(StoreError::RevisionConflict { current: r.revision })
    } else if !r.available || !r.environments@.contains(environment) || !lists_text(
        r.package_versions@,
        package_version,
    ) {
        Err(StoreError::Domain(DomainError::CapabilityUnavailable("downstream_delivery_unavailable")))
    } else {
        match r.market_versions {
            None => Err(StoreError::Integrity),
            Some(offered) => if all_listed(market, offered@) {
                Ok(())
            } else {
                Err(StoreError::Domain(DomainError::CapabilityUnavailable("downstream_market_contract")))
            },
        }
    }
}

/// A delivery goes only to a downstream that lists every market capability the
/// package is compatible with, at whatever position: one capability missing
/// from its market versions refuses a delivery that is otherwise ready.
pub proof fn unsupported_market_refuses(
    r: DownstreamReadiness,
    expected: Revision,
    environment: ForwardEnvironment,
    package_version: Seq<char>,
    market: Seq<String>,
)
    ensures
        delivery_check(r, expected, environment, package_version, market) is Ok ==> (
        r.market_versions matches Some(offered) && forall|i: int|
            0 <= i < market.len() ==> lists_text(offered@, (#[trigger] market[i])@)),
        delivery_check(r, expected, environment, package_version, market) is Ok ==> {
            &&& r.revision == expected
            &&& r.available
            &&& r.environments@.contains(environment)
            &&& exists|j: int|
                0 <= j < r.package_versions@.len() && (#[trigger] r.package_versions@[j])@
                    == package_version
        },
        (r.revision == expected && r.available && r.environments@.contains(environment) && lists_text(
            r.package_versions@,
            package_version,
        ) && r.market_versions is Some && exists|i: int|
            0 <= i < market.len() && !lists_text(r.market_versions->0@, (#[trigger] market[i])@)) ==> delivery_check(
            r,
            expected,
            environment,
            package_version,
            market,
        ) == Err::<(), StoreError>(
            StoreError::Domain(DomainError::CapabilityUnavailable("downstream_market_contract")),
        ),
{
}

/// A release is delivered only to a downstream at the revision the operator
/// saw, available for the environment and the package version, and supporting
/// every market capability the package is compatible with.
pub fn check_downstream_delivery(
    r: &DownstreamReadiness,
    expected: Revision,
    environment: ForwardEnvironment,
    package_version: &str,
    market: &Vec<String>,
) -> (res: Result<(), StoreError>)
    ensures
        res == delivery_check(*r, expected, environment, package_version@, market@),
        res is Ok ==> (r.market_versions matches Some(offered) && forall|i: int|
            0 <= i < market@.len() ==> lists_text(offered@, (#[trigger] market@[i])@)),
        res is Ok ==> {
            &&& r.revision == expected
            &&& r.available
            &&& r.environments@.contains(environment)
            &&& exists|j: int|
                0 <= j < r.package_versions@.len() && (#[trigger] r.package_versions@[j])@
                    == package_version@
        },
        (r.revision == expected && r.available && r.environments@.contains(environment) && lists_text(
            r.package_versions@,
            package_version@,
        ) && r.market_versions is Some && exists|i: int|
            0 <= i < market@.len() && !lists_text(r.market_versions->0@, (#[trigger] market@[i])@)) ==> res
            == Err::<(), StoreError>(
            StoreError::Domain(DomainError::CapabilityUnavailable("downstream_market_contract")),
        ),
{
    proof {
        unsupported_market_refuses(*r, expected, environment, package_version@, market@);
    }
    if r.revision != expected {
        return Err(StoreError::RevisionConflict { current: r.revision });
    }
    if !r.available || !has_environment(&r.environments, environment) || !has_text(
        &r.package_versions,
        package_version,
    ) {
        return Err(
            StoreError::Domain(DomainError::CapabilityUnavailable("downstream_delivery_unavailable")),
        );
    }
    match &r.market_versions {
        None => Err(StoreError::Integrity),
        Some(offered) => {
            let mut i: usize = 0;
            while i < market.len()
                invariant
                    i <= market@.len(),
                    r.revision == expected,
                    r.available,
                    r.environments@.contains(environment),
                    lists_text(r.package_versions@, package_version@),
                    r.market_versions == Some(*offered),
                    forall|k: int| 0 <= k < i ==> lists_text(offered@, (#[trigger] market@[k])@),
                decreases market@.len() - i,
            {
                if !has_text(offered, market[i].as_str()) {
                    proof {
                        assert(!lists_text(offered@, market@[i as int]@));
                        assert(!all_listed(market@, offered@));
                    }
                    return Err(
                        StoreError::Domain(
                            DomainError::CapabilityUnavailable("downstream_market_contract"),
                        ),
                    );
                }
                i = i + 1;
            }
            Ok(())
        },
    }
}

/// One data-use grant behind a release's datasets.
#[derive(Clone, Debug)]
pub struct GrantUse {
    pub allowed_uses: String,
    pub valid_until: UtcTime,
}

pub open spec fn earlier(a: UtcTime, b: UtcTime) -> UtcTime {
    if b.nanos < a.nanos {
        b
    } else {
        a
    }
}

/// The end of a release's authority after its grants: the earliest of `until`
/// and every grant's end; refused where a grant does not cover the environment.
pub open spec fn grants_until_spec(
    grants: Seq<GrantUse>,
    environment: ForwardEnvironment,
    until: UtcTime,
) -> Result<UtcTime, StoreError>
    decreases grants.len(),
{
    if grants.len() == 0 {
        Ok(until)
    } else {
        match grants_until_spec(grants.drop_last(), environment, until) {
            Err(e) => Err(e),
            Ok(u) => if !grant_covers(grants.last().allowed_uses@, environment) {
                Err(StoreError::Invalid("approval_data_use"))
            } else {
                Ok(earlier(u, grants.last().valid_until))
            },
        }
    }
}

proof fn lemma_grants_prefix(
    grants: Seq<GrantUse>,
    environment: ForwardEnvironment,
    until: UtcTime,
    n: int,
)
    requires
        0 <= n <= grants.len(),
        grants_until_spec(grants.subrange(0, n), environment, until) is Err,
    ensures
        grants_until_spec(grants, environment, until) == grants_until_spec(
            grants.subrange(0, n),
            environment,
            until,
        ),
    decreases grants.len() - n,
{
    if n == grants.len() {
        assert(grants.subrange(0, n) =~= grants);
    } else {
        assert(grants.subrange(0, n + 1).drop_last() =~= grants.subrange(0, n));
        assert(grants_until_spec(grants.subrange(0, n + 1), environment, until)
            == grants_until_spec(grants.subrange(0, n), environment, until));
        lemma_grants_prefix(grants, environment, until, n + 1);
    }
}

/// An approval lasts until the earliest end it rests on: no later than `until`
/// and every grant's end, at whatever position, and it is one of them. A grant
/// anywhere that does not cover the environment refuses it, and grants that
/// all cover it never do.
pub proof fn approval_ends_at_the_first_grant(
    grants: Seq<GrantUse>,
    environment: ForwardEnvironment,
    until: UtcTime,
)
    ensures
        (exists|i: int|
            0 <= i < grants.len() && !grant_covers((#[trigger] grants[i]).allowed_uses@, environment))
            ==> grants_until_spec(grants, environment, until) == Err::<UtcTime, StoreError>(
            StoreError::Invalid("approval_data_use"),
        ),
        (forall|i: int|
            0 <= i < grants.len() ==> grant_covers((#[trigger] grants[i]).allowed_uses@, environment))
            ==> grants_until_spec(grants, environment, until) is Ok,
        grants_until_spec(grants, environment, until) matches Ok(u) ==> {
            &&& u.nanos <= until.nanos
            &&& forall|i: int|
                0 <= i < grants.len() ==> u.nanos <= (#[trigger] grants[i]).valid_until.nanos
            &&& (u == until || exists|i: int|
                0 <= i < grants.len() && (#[trigger] grants[i]).valid_until == u)
        },
    decreases grants.len(),
{
    if grants.len() > 0 {
        let rest = grants.drop_last();
        approval_ends_at_the_first_grant(rest, environment, until);
        assert forall|i: int| 0 <= i < rest.len() implies #[trigger] rest[i] == grants[i] by {}
        let last = grants.last();
        assert(grants[grants.len() - 1] == last);
        if exists|i: int|
            0 <= i < grants.len() && !grant_covers((#[trigger] grants[i]).allowed_uses@, environment) {
            let i = choose|i: int|
                0 <= i < grants.len() && !grant_covers((#[trigger] grants[i]).allowed_uses@, environment);
            if i < rest.len() {
                assert(!grant_covers(rest[i].allowed_uses@, environment));
            }
        }
        if forall|i: int|
            0 <= i < grants.len() ==> grant_covers((#[trigger] grants[i]).allowed_uses@, environment) {
            assert forall|i: int| 0 <= i < rest.len() implies grant_covers(
                (#[trigger] rest[i]).allowed_uses@,
                environment,
            ) by {
                assert(grant_covers(grants[i].allowed_uses@, environment));
            }
        }
        if let Ok(u) = grants_until_spec(grants, environment, until) {
            let u0 = grants_until_spec(rest, environment, until)->Ok_0;
            assert(u.nanos <= u0.nanos);
            assert forall|i: int| 0 <= i < grants.len() implies u.nanos <= (
            #[trigger] grants[i]).valid_until.nanos by {
                if i < rest.len() {
                    assert(rest[i] == grants[i]);
                }
            }
            if u == until {
            } else if u == u0 {
                let k = choose|i: int| 0 <= i < rest.len() && (#[trigger] rest[i]).valid_until == u0;
                assert(grants[k] == rest[k]);
            } else {
                assert(last.valid_until == u);
            }
        }
    }
}

/// A release's grants must exist and each cover the environment; the approval
/// can last no longer than any of them.
pub fn grants_until(grants: &Vec<GrantUse>, environment: ForwardEnvironment, until: UtcTime) -> (r:
    Result<UtcTime, StoreError>)
    ensures
        grants@.len() == 0 ==> r == Err::<UtcTime, StoreError>(StoreError::Integrity),
        grants@.len() > 0 ==> r == grants_until_spec(grants@, environment, until),
        r matches Ok(u) ==> {
            &&& u.nanos <= until.nanos
            &&& forall|i: int|
                0 <= i < grants@.len() ==> u.nanos <= (#[trigger] grants@[i]).valid_until.nanos
            &&& (u == until || exists|i: int|
                0 <= i < grants@.len() && (#[trigger] grants@[i]).valid_until == u)
        },
        (exists|i: int|
            0 <= i < grants@.len() && !grant_covers((#[trigger] grants@[i]).allowed_uses@, environment))
            ==> r == Err::<UtcTime, StoreError>(StoreError::Invalid("approval_data_use")),
{
    proof {
        approval_ends_at_the_first_grant(grants@, environment, until);
    }
    if grants.len() == 0 {
        return Err(StoreError::Integrity);
    }
    let mut u = until;
    let mut i: usize = 0;
    while i < grants.len()
        invariant
            i <= grants@.len(),
            grants_until_spec(grants@.subrange(0, i as int), environment, until) == Ok::<
                UtcTime,
                StoreError,
            >(u),
        decreases grants@.len() - i,
    {
        proof {
            assert(grants@.subrange(0, i + 1).drop_last() =~= grants@.subrange(0, i as int));
        }
        if let Err(e) = crate::portfolio::check_data_use(grants[i].allowed_uses.as_str(), environment) {
            proof {
                lemma_grants_prefix(grants@, environment, until, i + 1);
            }
            return Err(e);
        }
        if grants[i].valid_until.is_before(&u) {
            u = grants[i].valid_until;
        }
        i = i + 1;
    }
    proof {
        assert(grants@.subrange(0, grants@.len() as int) =~= grants@);
    }
    Ok(u)
}

/// An operator grants an approval no earlier than the package's start, for a
/// period that ends after now and no later than its sources allow.
pub open spec fn approval_in_window(
    granted_at: UtcTime,
    valid_from: UtcTime,
    requested_until: UtcTime,
    until: UtcTime,
) -> bool {
    &&& valid_from.nanos <= granted_at.nanos
    &&& granted_at.nanos < requested_until.nanos
    &&& requested_until.nanos <= until.nanos
}

pub fn check_approval_window(
    granted_at: UtcTime,
    valid_from: UtcTime,
    requested_until: UtcTime,
    until: UtcTime,
) -> (r: Result<(), StoreError>)
    ensures
        approval_in_window(granted_at, valid_from, requested_until, until) ==> r == Ok::<
            (),
            StoreError,
        >(()),
        !approval_in_window(granted_at, valid_from, requested_until, until) ==> r == Err::<
            (),
            StoreError,
        >(StoreError::Invalid("approval_expiry")),
{
    if granted_at.is_before(&valid_from) || !granted_at.is_before(&requested_until)
        || until.is_before(&requested_until) {
        return Err(StoreError::Invalid("approval_expiry"));
    }
    Ok(())
}

/// When the approval is recorded, both its period and its sources are still current.
pub fn check_approval_recorded(granted_at: UtcTime, requested_until: UtcTime, until: UtcTime) -> (r:
    Result<(), StoreError>)
    ensures
        (granted_at.nanos < requested_until.nanos && granted_at.nanos < until.nanos) ==> r == Ok::<
            (),
            StoreError,
        >(()),
        !(granted_at.nanos < requested_until.nanos && granted_at.nanos < until.nanos) ==> r
            == Err::<(), StoreError>(StoreError::Invalid("approval_expiry")),
{
    if !granted_at.is_before(&requested_until) || !granted_at.is_before(&until) {
        return Err(StoreError::Invalid("approval_expiry"));
    }
    Ok(())
}

/// An approval's frozen evidence holds its evaluation's one or two reports.
pub fn check_evidence_reports(count: usize) -> (r: Result<(), StoreError>)
    ensures
        (1 <= count <= 2) ==> r == Ok::<(), StoreError>(()),
        !(1 <= count <= 2) ==> r == Err::<(), StoreError>(StoreError::Integrity),
{
    if count < 1 || count > 2 {
        return Err(StoreError::Integrity);
    }
    Ok(())
}

pub open spec fn revocation_spec(
    latest: Option<Id>,
    expected: Option<Id>,
    requested: Option<UtcTime>,
    now: UtcTime,
) -> Result<UtcTime, StoreError> {
    if latest != expected {
        Err(StoreError::Conflict)
    } else {
        let effective = match requested {
            Some(t) => t,
            None => now,
        };
        if effective.nanos < now.nanos {
            Err(StoreError::Invalid("revocation_time"))
        } else {
            Ok(effective)
        }
    }
}

/// A revocation follows the latest one the operator saw, and takes effect now
/// or later, never in the past.
pub fn revocation_effective(
    latest: Option<Id>,
    expected: Option<Id>,
    requested: Option<UtcTime>,
    now: UtcTime,
) -> (r: Result<UtcTime, StoreError>)
    ensures
        r == revocation_spec(latest, expected, requested, now),
{
    if latest != expected {
        return Err(StoreError::Conflict);
    }
    let effective = match requested {
        Some(t) => t,
        None => now,
    };
    if effective.is_before(&now) {
        return Err(StoreError::Invalid("revocation_time"));
    }
    Ok(effective)
}

/// An accepted revocation never takes effect before it was made.
pub proof fn revocations_never_backdate(
    latest: Option<Id>,
    expected: Option<Id>,
    requested: Option<UtcTime>,
    now: UtcTime,
)
    requires
        revocation_spec(latest, expected, requested, now) is Ok,
    ensures
        revocation_spec(latest, expected, requested, now)->Ok_0.nanos >= now.nanos,
        requested is None ==> revocation_spec(latest, expected, requested, now)->Ok_0 == now,
{
}

} // verus!
