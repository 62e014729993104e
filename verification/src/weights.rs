//! A Candidate's last targets as the current weights of a new build: the
//! immutable target document must agree exactly with the stored target rows,
//! which PostgreSQL returns in instrument order.
use vstd::prelude::*;
use crate::error::StoreError;
use crate::ids::{DecimalValue, Id, UtcTime};
use crate::text::same_text;
use vstd::string::StringSliceAdditionalSpecFns;

verus! {

/// One target weight of a Candidate.
#[derive(Clone, Debug)]
pub struct AllocationTarget {
    pub instrument_id: String,
    pub currency: String,
    pub weight: DecimalValue,
}

/// A stored target row.
#[derive(Clone, Debug)]
pub struct TargetRow {
    pub instrument_id: String,
    pub currency: String,
    pub target_weight: DecimalValue,
    pub asof: UtcTime,
    pub valid_until: UtcTime,
}

/// The immutable target document a Candidate published.
#[derive(Clone, Debug)]
pub struct TargetDocument {
    pub candidate_id: Id,
    pub base_currency: String,
    pub asof: UtcTime,
    pub valid_until: UtcTime,
    pub cash_weight: DecimalValue,
    pub targets: Vec<AllocationTarget>,
}

/// The Candidate row the document belongs to.
#[derive(Clone, Debug)]
pub struct CandidateRecord {
    pub base_currency: String,
    pub decision_asof: UtcTime,
    pub cash_weight: DecimalValue,
}

/// A target's instrument as UTF-8 bytes, the order `String` compares in.
pub open spec fn key(t: AllocationTarget) -> Seq<u8> {
    vstd::utf8::encode_utf8(t.instrument_id@)
}

/// Lexicographic order on byte strings.
pub open spec fn bytes_le(a: Seq<u8>, b: Seq<u8>) -> bool
    decreases a.len(),
{
    if a.len() == 0 {
        true
    } else if b.len() == 0 {
        false
    } else if a[0] != b[0] {
        a[0] < b[0]
    } else {
        bytes_le(a.drop_first(), b.drop_first())
    }
}

fn le_bytes(a: &[u8], b: &[u8]) -> (r: bool)
    ensures
        r == bytes_le(a@, b@),
{
    let mut i: usize = 0;
    proof {
        assert(a@.skip(0) =~= a@);
        assert(b@.skip(0) =~= b@);
    }
    while i < a.len()
        invariant
            i <= a@.len(),
            i <= b@.len(),
            forall|k: int| 0 <= k < i ==> a@[k] == b@[k],
            bytes_le(a@, b@) == bytes_le(a@.skip(i as int), b@.skip(i as int)),
        decreases a@.len() - i,
    {
        if i >= b.len() {
            return false;
        }
        if a[i] != b[i] {
            return a[i] < b[i];
        }
        proof {
            assert(a@.skip(i as int).drop_first() =~= a@.skip(i + 1));
            assert(b@.skip(i as int).drop_first() =~= b@.skip(i + 1));
        }
        i = i + 1;
    }
    true
}

/// Inserts `x` after every element whose instrument is not greater: a stable
/// insertion into an instrument-ordered sequence.
pub open spec fn insert_sorted(s: Seq<AllocationTarget>, x: AllocationTarget) -> Seq<
    AllocationTarget,
>
    decreases s.len(),
{
    if s.len() == 0 {
        seq![x]
    } else if bytes_le(key(s.last()), key(x)) {
        s.push(x)
    } else {
        insert_sorted(s.drop_last(), x).push(s.last())
    }
}

/// The targets in instrument order, equal instruments in their given order:
/// what Rust's stable `sort_by` on the instrument returns.
pub open spec fn stable_sort(s: Seq<AllocationTarget>) -> Seq<AllocationTarget>
    decreases s.len(),
{
    if s.len() == 0 {
        Seq::<AllocationTarget>::empty()
    } else {
        insert_sorted(stable_sort(s.drop_last()), s.last())
    }
}

proof fn lemma_insert_at(s: Seq<AllocationTarget>, x: AllocationTarget, p: int)
    requires
        0 <= p <= s.len(),
        forall|k: int| p <= k < s.len() ==> !bytes_le(key(#[trigger] s[k]), key(x)),
        p == 0 || bytes_le(key(s[p - 1]), key(x)),
    ensures
        insert_sorted(s, x) == s.insert(p, x),
    decreases s.len(),
{
    if s.len() == 0 {
        assert(s.insert(p, x) =~= seq![x]);
    } else if p == s.len() {
        assert(s.insert(p, x) =~= s.push(x));
    } else {
        let last = s.last();
        assert(!bytes_le(key(s[s.len() - 1]), key(x)));
        let t = s.drop_last();
        assert forall|k: int| p <= k < t.len() implies !bytes_le(key(#[trigger] t[k]), key(x)) by {
            assert(t[k] == s[k]);
        }
        if p > 0 {
            assert(t[p - 1] == s[p - 1]);
        }
        lemma_insert_at(t, x, p);
        assert(t.insert(p, x).push(last) =~= s.insert(p, x));
    }
}

proof fn lemma_bytes_le_total(a: Seq<u8>, b: Seq<u8>)
    ensures
        bytes_le(a, b) || bytes_le(b, a),
    decreases a.len(),
{
    if a.len() > 0 && b.len() > 0 && a[0] == b[0] {
        lemma_bytes_le_total(a.drop_first(), b.drop_first());
    }
}

proof fn lemma_bytes_le_trans(a: Seq<u8>, b: Seq<u8>, c: Seq<u8>)
    requires
        bytes_le(a, b),
        bytes_le(b, c),
    ensures
        bytes_le(a, c),
    decreases a.len(),
{
    if a.len() > 0 && a[0] == b[0] && b[0] == c[0] {
        lemma_bytes_le_trans(a.drop_first(), b.drop_first(), c.drop_first());
    }
}

proof fn lemma_bytes_le_antisym(a: Seq<u8>, b: Seq<u8>)
    requires
        bytes_le(a, b),
        bytes_le(b, a),
    ensures
        a =~= b,
    decreases a.len(),
{
    if a.len() > 0 {
        lemma_bytes_le_antisym(a.drop_first(), b.drop_first());
        assert(a =~= seq![a[0]] + a.drop_first());
        assert(b =~= seq![b[0]] + b.drop_first());
    }
}

/// The order on instrument bytes is a total order: any two byte strings are
/// ordered one way or the other, only equal strings both ways, and the order
/// chains; a byte string orders before another where, at the first position
/// they differ, its byte is smaller.
pub proof fn byte_order_is_total(a: Seq<u8>, b: Seq<u8>, c: Seq<u8>, i: int)
    ensures
        bytes_le(a, b) || bytes_le(b, a),
        bytes_le(a, b) && bytes_le(b, a) ==> a == b,
        bytes_le(a, b) && bytes_le(b, c) ==> bytes_le(a, c),
        (0 <= i < a.len() && i < b.len() && a[i] < b[i] && forall|k: int|
            0 <= k < i ==> a[k] == b[k]) ==> bytes_le(a, b) && !bytes_le(b, a),
    decreases i,
{
    lemma_bytes_le_total(a, b);
    if bytes_le(a, b) && bytes_le(b, a) {
        lemma_bytes_le_antisym(a, b);
    }
    if bytes_le(a, b) && bytes_le(b, c) {
        lemma_bytes_le_trans(a, b, c);
    }
    if 0 < i < a.len() && i < b.len() && a[i] < b[i] && forall|k: int| 0 <= k < i ==> a[k] == b[k] {
        assert(a[0] == b[0]);
        assert forall|k: int| 0 <= k < i - 1 implies a.drop_first()[k] == b.drop_first()[k] by {
            assert(a[k + 1] == b[k + 1]);
        }
        byte_order_is_total(a.drop_first(), b.drop_first(), c, i - 1);
    }
}

/// Targets in instrument order: every earlier target's instrument bytes come
/// no later than every later one's.
pub open spec fn in_instrument_order(s: Seq<AllocationTarget>) -> bool {
    forall|a: int, b: int| 0 <= a < b < s.len() ==> bytes_le(key(#[trigger] s[a]), key(#[trigger] s[b]))
}

proof fn lemma_insert_bounded(s: Seq<AllocationTarget>, x: AllocationTarget, y: AllocationTarget)
    requires
        forall|i: int| 0 <= i < s.len() ==> bytes_le(key(#[trigger] s[i]), key(y)),
        bytes_le(key(x), key(y)),
    ensures
        insert_sorted(s, x).len() == s.len() + 1,
        forall|i: int|
            0 <= i < insert_sorted(s, x).len() ==> bytes_le(key(#[trigger] insert_sorted(s, x)[i]), key(y)),
        insert_sorted(s, x).to_multiset() =~= s.to_multiset().insert(x),
    decreases s.len(),
{
    if s.len() == 0 {
        assert(seq![x] =~= Seq::<AllocationTarget>::empty().push(x));
        vstd::seq_lib::to_multiset_build(Seq::<AllocationTarget>::empty(), x);
        assert(s =~= Seq::<AllocationTarget>::empty());
    } else if bytes_le(key(s.last()), key(x)) {
        vstd::seq_lib::to_multiset_build(s, x);
    } else {
        let t = s.drop_last();
        assert forall|i: int| 0 <= i < t.len() implies bytes_le(key(#[trigger] t[i]), key(y)) by {
            assert(t[i] == s[i]);
        }
        lemma_insert_bounded(t, x, y);
        let r = insert_sorted(t, x);
        assert(s[s.len() - 1] == s.last());
        assert forall|i: int| 0 <= i < r.push(s.last()).len() implies bytes_le(
            key(#[trigger] r.push(s.last())[i]),
            key(y),
        ) by {
            if i < r.len() {
                assert(r.push(s.last())[i] == r[i]);
            }
        }
        vstd::seq_lib::to_multiset_build(r, s.last());
        assert(s =~= t.push(s.last()));
        vstd::seq_lib::to_multiset_build(t, s.last());
    }
}

proof fn lemma_insert_keeps_order(s: Seq<AllocationTarget>, x: AllocationTarget)
    requires
        in_instrument_order(s),
    ensures
        in_instrument_order(insert_sorted(s, x)),
    decreases s.len(),
{
    if s.len() == 0 {
    } else if bytes_le(key(s.last()), key(x)) {
        let r = s.push(x);
        assert forall|a: int, b: int| 0 <= a < b < r.len() implies bytes_le(
            key(#[trigger] r[a]),
            key(#[trigger] r[b]),
        ) by {
            if b < s.len() {
                assert(r[a] == s[a] && r[b] == s[b]);
            } else {
                assert(r[b] == x);
                assert(r[a] == s[a]);
                if a < s.len() - 1 {
                    assert(bytes_le(key(s[a]), key(s[s.len() - 1])));
                    lemma_bytes_le_trans(key(s[a]), key(s.last()), key(x));
                }
            }
        }
    } else {
        let t = s.drop_last();
        let last = s.last();
        assert(s[s.len() - 1] == last);
        assert forall|a: int, b: int| 0 <= a < b < t.len() implies bytes_le(
            key(#[trigger] t[a]),
            key(#[trigger] t[b]),
        ) by {
            assert(t[a] == s[a] && t[b] == s[b]);
        }
        lemma_insert_keeps_order(t, x);
        lemma_bytes_le_total(key(last), key(x));
        assert forall|i: int| 0 <= i < t.len() implies bytes_le(key(#[trigger] t[i]), key(last)) by {
            assert(t[i] == s[i]);
        }
        lemma_insert_bounded(t, x, last);
        let r = insert_sorted(t, x);
        let q = r.push(last);
        assert forall|a: int, b: int| 0 <= a < b < q.len() implies bytes_le(
            key(#[trigger] q[a]),
            key(#[trigger] q[b]),
        ) by {
            assert(q[a] == r[a]);
            if b < r.len() {
                assert(q[b] == r[b]);
            } else {
                assert(q[b] == last);
            }
        }
    }
}

/// Sorting targets reorders them only: the same targets, as often as given,
/// now in instrument order.
pub proof fn sorting_only_reorders(s: Seq<AllocationTarget>)
    ensures
        stable_sort(s).len() == s.len(),
        stable_sort(s).to_multiset() =~= s.to_multiset(),
        forall|a: int, b: int|
            0 <= a < b < stable_sort(s).len() ==> bytes_le(
                key(#[trigger] stable_sort(s)[a]),
                key(#[trigger] stable_sort(s)[b]),
            ),
    decreases s.len(),
{
    if s.len() > 0 {
        let t = s.drop_last();
        sorting_only_reorders(t);
        let u = stable_sort(t);
        assert(in_instrument_order(u));
        lemma_insert_keeps_order(u, s.last());
        lemma_bytes_le_total(key(s.last()), key(s.last()));
        let top = s.last();
        // the multiset and length follow from inserting into the sorted rest
        lemma_insert_multiset(u, top);
        assert(s =~= t.push(top));
        vstd::seq_lib::to_multiset_build(t, top);
        vstd::seq_lib::to_multiset_len(u);
        vstd::seq_lib::to_multiset_len(t);
        vstd::seq_lib::to_multiset_len(insert_sorted(u, top));
        vstd::seq_lib::to_multiset_len(s);
    } else {
        assert(s =~= Seq::<AllocationTarget>::empty());
    }
}

proof fn lemma_insert_multiset(s: Seq<AllocationTarget>, x: AllocationTarget)
    ensures
        insert_sorted(s, x).to_multiset() =~= s.to_multiset().insert(x),
    decreases s.len(),
{
    if s.len() == 0 {
        assert(seq![x] =~= Seq::<AllocationTarget>::empty().push(x));
        vstd::seq_lib::to_multiset_build(Seq::<AllocationTarget>::empty(), x);
        assert(s =~= Seq::<AllocationTarget>::empty());
    } else if bytes_le(key(s.last()), key(x)) {
        vstd::seq_lib::to_multiset_build(s, x);
    } else {
        let t = s.drop_last();
        lemma_insert_multiset(t, x);
        vstd::seq_lib::to_multiset_build(insert_sorted(t, x), s.last());
        assert(s =~= t.push(s.last()));
        vstd::seq_lib::to_multiset_build(t, s.last());
    }
}

/// The targets of a document in instrument order.
pub fn sort_targets(targets: Vec<AllocationTarget>) -> (r: Vec<AllocationTarget>)
    ensures
        r@ == stable_sort(targets@),
        r@.len() == targets@.len(),
        r@.to_multiset() == targets@.to_multiset(),
        forall|a: int, b: int|
            0 <= a < b < r@.len() ==> bytes_le(key(#[trigger] r@[a]), key(#[trigger] r@[b])),
{
    proof {
        sorting_only_reorders(targets@);
    }
    let ghost all = targets@;
    let mut rest = targets;
    let mut out: Vec<AllocationTarget> = Vec::new();
    let n = rest.len();
    let mut i: usize = 0;
    proof {
        assert(all.subrange(0, 0) =~= Seq::<AllocationTarget>::empty());
    }
    while i < n
        invariant
            n == all.len(),
            i <= n,
            rest@ == all.subrange(i as int, n as int),
            out@ == stable_sort(all.subrange(0, i as int)),
        decreases n - i,
    {
        let x = rest.remove(0);
        proof {
            assert(x == all[i as int]);
            assert(rest@ =~= all.subrange(i + 1, n as int));
            assert(all.subrange(0, i + 1).drop_last() =~= all.subrange(0, i as int));
            assert(all.subrange(0, i + 1).last() == x);
        }
        let mut p = out.len();
        while p > 0 && !le_bytes(out[p - 1].instrument_id.as_str().as_bytes(), x.instrument_id.as_str().as_bytes())
            invariant
                p <= out@.len(),
                forall|k: int| p <= k < out@.len() ==> !bytes_le(key(#[trigger] out@[k]), key(x)),
            decreases p,
        {
            p = p - 1;
        }
        let ghost before = out@;
        proof {
            lemma_insert_at(before, x, p as int);
        }
        out.insert(p, x);
        i = i + 1;
    }
    proof {
        assert(all.subrange(0, n as int) =~= all);
    }
    out
}

/// A stored row is exactly the document's target at its place, with the
/// document's window.
pub open spec fn row_matches(row: TargetRow, t: AllocationTarget, asof: UtcTime, until: UtcTime) -> bool {
    &&& row.instrument_id@ == t.instrument_id@
    &&& row.currency@ == t.currency@
    &&& row.target_weight == t.weight
    &&& row.asof == asof
    &&& row.valid_until == until
}

pub open spec fn rows_match(
    rows: Seq<TargetRow>,
    sorted: Seq<AllocationTarget>,
    asof: UtcTime,
    until: UtcTime,
    max_assets: nat,
) -> bool {
    &&& rows.len() > 0
    &&& rows.len() == sorted.len()
    &&& rows.len() <= max_assets
    &&& forall|i: int| 0 <= i < rows.len() ==> row_matches(#[trigger] rows[i], sorted[i], asof, until)
}

/// Stored rows stand for a document's targets only if there is one to
/// `max_assets` of them, one per target, and the row at every position carries
/// that target's instrument, currency and weight and the document's window:
/// one row off anywhere refuses them all.
pub proof fn one_row_off_refuses_the_targets(
    rows: Seq<TargetRow>,
    sorted: Seq<AllocationTarget>,
    asof: UtcTime,
    until: UtcTime,
    max_assets: nat,
)
    ensures
        forall|i: int|
            0 <= i < rows.len() && i < sorted.len() && !((#[trigger] rows[i]).instrument_id@
                == sorted[i].instrument_id@ && rows[i].currency@ == sorted[i].currency@
                && rows[i].target_weight == sorted[i].weight && rows[i].asof == asof
                && rows[i].valid_until == until) ==> !rows_match(rows, sorted, asof, until, max_assets),
        (rows.len() == 0 || rows.len() != sorted.len() || rows.len() > max_assets) ==> !rows_match(
            rows,
            sorted,
            asof,
            until,
            max_assets,
        ),
{
}

/// The document's own fields agree with the Candidate row.
pub open spec fn document_matches(d: TargetDocument, candidate: Id, c: CandidateRecord) -> bool {
    &&& d.candidate_id == candidate
    &&& d.base_currency@ == c.base_currency@
    &&& d.asof == c.decision_asof
    &&& d.cash_weight == c.cash_weight
}

/// A Candidate's last targets stand as current weights only if the document
/// is this Candidate's, in its currency, as-of and cash weight, and its
/// targets, in instrument order, are exactly the stored rows, which are one
/// to `max_assets` many.
pub fn check_last_target(
    document: TargetDocument,
    candidate: Id,
    record: &CandidateRecord,
    rows: &Vec<TargetRow>,
    max_assets: usize,
) -> (r: Result<(), StoreError>)
    ensures
        (document_matches(document, candidate, *record) && rows_match(
            rows@,
            stable_sort(document.targets@),
            document.asof,
            document.valid_until,
            max_assets as nat,
        )) ==> r == Ok::<(), StoreError>(()),
        !(document_matches(document, candidate, *record) && rows_match(
            rows@,
            stable_sort(document.targets@),
            document.asof,
            document.valid_until,
            max_assets as nat,
        )) ==> r == Err::<(), StoreError>(StoreError::Integrity),
{
    if document.candidate_id != candidate || !same_text(
        document.base_currency.as_str(),
        record.base_currency.as_str(),
    ) || document.asof != record.decision_asof || document.cash_weight != record.cash_weight {
        return Err(StoreError::Integrity);
    }
    let asof = document.asof;
    let until = document.valid_until;
    let ghost targets = document.targets@;
    let sorted = sort_targets(document.targets);
    proof {
        assert(targets == document.targets@);
    }
    if rows.len() == 0 || rows.len() != sorted.len() || rows.len() > max_assets {
        proof {
            assert(!rows_match(rows@, sorted@, asof, until, max_assets as nat));
        }
        return Err(StoreError::Integrity);
    }
    let mut i: usize = 0;
    while i < rows.len()
        invariant
            i <= rows@.len(),
            rows@.len() == sorted@.len(),
            0 < rows@.len() <= max_assets,
            sorted@ == stable_sort(targets),
            targets == document.targets@,
            asof == document.asof,
            until == document.valid_until,
            document_matches(document, candidate, *record),
            forall|k: int| 0 <= k < i ==> row_matches(#[trigger] rows@[k], sorted@[k], asof, until),
        decreases rows@.len() - i,
    {
        let row = &rows[i];
        let t = &sorted[i];
        if !same_text(row.instrument_id.as_str(), t.instrument_id.as_str()) || !same_text(
            row.currency.as_str(),
            t.currency.as_str(),
        ) || row.target_weight != t.weight || row.asof != asof || row.valid_until != until {
            proof {
                assert(!row_matches(rows@[i as int], sorted@[i as int], asof, until));
            }
            return Err(StoreError::Integrity);
        }
        i = i + 1;
    }
    Ok(())
}

/// The Candidate a build names for its last targets, as the store finds it.
#[derive(Clone, Debug)]
pub struct LastTargetSource {
    pub project_id: Id,
    /// The Candidate was published.
    pub published: bool,
    /// Its build Run succeeded.
    pub run_succeeded: bool,
    pub evidence_valid: bool,
    pub solver_status: String,
    pub has_cash_weight: bool,
    /// Its target artifact is its Run's own evaluator-only local targets report.
    pub targets_report: bool,
    /// The size of that report.
    pub target_bytes: u64,
}

/// A solver status whose targets may stand.
pub open spec fn solver_accepted(status: Seq<char>) -> bool {
    status == "OPTIMAL"@ || status == "ACCEPTABLE_INACCURATE"@
}

/// A Candidate of this project, published from a succeeded Run, with valid
/// evidence, an accepted solver status, a cash weight and its own targets report.
pub open spec fn last_target_usable(c: LastTargetSource, project: Id) -> bool {
    &&& c.project_id == project
    &&& c.published
    &&& c.run_succeeded
    &&& c.evidence_valid
    &&& solver_accepted(c.solver_status@)
    &&& c.has_cash_weight
    &&& c.targets_report
}

/// Only a usable Candidate of the build's project supplies last targets; its
/// targets report is read only at one byte to one MiB.
pub fn check_last_target_source(found: &Option<LastTargetSource>, project: Id) -> (r: Result<
    (),
    StoreError,
>)
    ensures
        !(*found matches Some(c) && last_target_usable(c, project)) ==> r == Err::<(), StoreError>(
            StoreError::Invalid("portfolio_last_target"),
        ),
        (*found matches Some(c) && last_target_usable(c, project)) ==> r == (if 1 <= found->0.target_bytes
            <= 1024 * 1024 {
            Ok::<(), StoreError>(())
        } else {
            Err::<(), StoreError>(StoreError::Integrity)
        }),
{
    let c = match found {
        None => {
            return Err(StoreError::Invalid("portfolio_last_target"));
        },
        Some(c) => c,
    };
    let status = c.solver_status.as_str();
    if c.project_id != project || !c.published || !c.run_succeeded || !c.evidence_valid || !(
    same_text(status, "OPTIMAL") || same_text(status, "ACCEPTABLE_INACCURATE")) || !c.has_cash_weight
        || !c.targets_report {
        return Err(StoreError::Invalid("portfolio_last_target"));
    }
    if c.target_bytes == 0 || c.target_bytes > 1024 * 1024 {
        return Err(StoreError::Integrity);
    }
    Ok(())
}

/// Last targets are available from the later of the Candidate's creation and
/// their as-of, and must still be valid then.
pub fn last_target_available(created: UtcTime, asof: UtcTime, valid_until: UtcTime) -> (r: Result<
    UtcTime,
    StoreError,
>)
    ensures
        ({
            let available = if created.nanos < asof.nanos {
                asof
            } else {
                created
            };
            &&& available.nanos < valid_until.nanos ==> r == Ok::<UtcTime, StoreError>(available)
            &&& available.nanos >= valid_until.nanos ==> r == Err::<UtcTime, StoreError>(
                StoreError::Invalid("portfolio_last_target_expired"),
            )
        }),
{
    let available = if created.is_before(&asof) {
        asof
    } else {
        created
    };
    if !available.is_before(&valid_until) {
        return Err(StoreError::Invalid("portfolio_last_target_expired"));
    }
    Ok(available)
}

/// The origin a build's current weights carry: Paper weights are never real;
/// Live weights are as real as their source (a forward snapshot is real).
pub fn weights_origin(
    environment: crate::portfolio::ForwardEnvironment,
    source: crate::release::DataOrigin,
) -> (r: crate::release::DataOrigin)
    ensures
        environment == crate::portfolio::ForwardEnvironment::Paper ==> r
            == crate::release::DataOrigin::Synthetic,
        environment == crate::portfolio::ForwardEnvironment::Live ==> r == source,
{
    match environment {
        crate::portfolio::ForwardEnvironment::Paper => crate::release::DataOrigin::Synthetic,
        crate::portfolio::ForwardEnvironment::Live => source,
    }
}

} // verus!
