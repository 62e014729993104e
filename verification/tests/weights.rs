use store::error::StoreError;
use store::ids::{DecimalValue, Id, UtcTime};
use store::portfolio::ForwardEnvironment;
use store::release::DataOrigin;
use store::weights::{
    weights_origin, check_last_target, sort_targets, AllocationTarget, CandidateRecord, TargetDocument, TargetRow,
};

fn target(instrument: &str, currency: &str, weight: i128) -> AllocationTarget {
    AllocationTarget {
        instrument_id: instrument.to_string(),
        currency: currency.to_string(),
        weight: DecimalValue::new(weight, 1),
    }
}

fn instruments(ts: &[AllocationTarget]) -> Vec<(String, String)> {
    ts.iter().map(|t| (t.instrument_id.clone(), t.currency.clone())).collect()
}

#[test]
fn targets_sort_stably_by_instrument_bytes() {
    let sorted = sort_targets(vec![
        target("Z.EXAMPLE", "USD", 6),
        target("A.EXAMPLE", "USD", 4),
        target("a", "EUR", 1),
        target("B", "USD", 1),
        target("A.EXAMPLE", "EUR", 2),
        target("é", "EUR", 1),
    ]);
    assert_eq!(
        instruments(&sorted),
        vec![
            ("A.EXAMPLE".to_string(), "USD".to_string()),
            ("A.EXAMPLE".to_string(), "EUR".to_string()),
            ("B".to_string(), "USD".to_string()),
            ("Z.EXAMPLE".to_string(), "USD".to_string()),
            ("a".to_string(), "EUR".to_string()),
            ("é".to_string(), "EUR".to_string()),
        ]
    );
    let mut expected = vec!["Z.EXAMPLE", "A.EXAMPLE", "a", "B", "é"];
    expected.sort();
    let mut got: Vec<String> = sort_targets(expected.iter().rev().map(|i| target(i, "X", 1)).collect())
        .into_iter()
        .map(|t| t.instrument_id)
        .collect();
    got.dedup();
    assert_eq!(got, expected);
    assert!(sort_targets(vec![]).is_empty());
}

fn at(n: i128) -> UtcTime {
    UtcTime { nanos: n }
}

fn document() -> TargetDocument {
    TargetDocument {
        candidate_id: Id(1),
        base_currency: "USD".to_string(),
        asof: at(10),
        valid_until: at(20),
        cash_weight: DecimalValue::new(0, 0),
        targets: vec![target("Z.EXAMPLE", "USD", 6), target("A.EXAMPLE", "USD", 4)],
    }
}

fn record() -> CandidateRecord {
    CandidateRecord { base_currency: "USD".to_string(), decision_asof: at(10), cash_weight: DecimalValue::new(0, 3) }
}

fn row(instrument: &str, weight: i128) -> TargetRow {
    TargetRow {
        instrument_id: instrument.to_string(),
        currency: "USD".to_string(),
        target_weight: DecimalValue::new(weight, 1),
        asof: at(10),
        valid_until: at(20),
    }
}

#[test]
fn last_targets_must_match_their_rows() {
    let rows = vec![row("A.EXAMPLE", 4), row("Z.EXAMPLE", 6)];
    assert_eq!(check_last_target(document(), Id(1), &record(), &rows, 16), Ok(()));
    assert_eq!(check_last_target(document(), Id(2), &record(), &rows, 16), Err(StoreError::Integrity));
    assert_eq!(check_last_target(document(), Id(1), &record(), &rows, 1), Err(StoreError::Integrity));
    assert_eq!(check_last_target(document(), Id(1), &record(), &vec![], 16), Err(StoreError::Integrity));
    let changed = vec![row("A.EXAMPLE", 4), row("Z.EXAMPLE", 7)];
    assert_eq!(check_last_target(document(), Id(1), &record(), &changed, 16), Err(StoreError::Integrity));
    let unordered = vec![row("Z.EXAMPLE", 6), row("A.EXAMPLE", 4)];
    assert_eq!(check_last_target(document(), Id(1), &record(), &unordered, 16), Err(StoreError::Integrity));
    let mut late = rows.clone();
    late[1].valid_until = at(21);
    assert_eq!(check_last_target(document(), Id(1), &record(), &late, 16), Err(StoreError::Integrity));
    let other = CandidateRecord { cash_weight: DecimalValue::new(1, 1), ..record() };
    assert_eq!(check_last_target(document(), Id(1), &other, &rows, 16), Err(StoreError::Integrity));
}

#[test]
fn paper_weights_are_never_real() {
    assert_eq!(weights_origin(ForwardEnvironment::Paper, DataOrigin::Real), DataOrigin::Synthetic);
    assert_eq!(weights_origin(ForwardEnvironment::Live, DataOrigin::Real), DataOrigin::Real);
    assert_eq!(weights_origin(ForwardEnvironment::Live, DataOrigin::Synthetic), DataOrigin::Synthetic);
}
