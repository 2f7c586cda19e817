use cogworks::values::{
    AlignmentScore, ApiVersion, CostBudget, DiagnosticCategory, DiagnosticSeverity,
    SatisfactionScore, Timestamp, TokenCost, TokenCount, SCORE_UNIT,
};

#[test]
fn token_count_basics() {
    let c = TokenCount::new(42);
    assert_eq!(c.as_u64(), 42);
    assert!(!c.is_zero());
    assert!(TokenCount::new(0).is_zero());
    assert_eq!(c.add(TokenCount::new(8)).as_u64(), 50);
}

#[test]
fn token_count_saturating_add() {
    let c = TokenCount::new(u64::MAX - 1).saturating_add(TokenCount::new(5));
    assert_eq!(c.as_u64(), u64::MAX);
    let d = TokenCount::new(1).saturating_add(TokenCount::new(2));
    assert_eq!(d.as_u64(), 3);
}

#[test]
fn token_cost_basics() {
    assert!(TokenCost::zero().is_zero());
    let a = TokenCost::new(1_500_000);
    assert_eq!(a.as_micros(), 1_500_000);
    assert_eq!(a.add(TokenCost::new(500_000)).as_micros(), 2_000_000);
    assert_eq!(a.checked_add(TokenCost::new(1)).unwrap().as_micros(), 1_500_001);
    assert!(TokenCost::new(u64::MAX).checked_add(TokenCost::new(1)).is_none());
}

#[test]
fn cost_budget_rejects_zero() {
    assert!(CostBudget::new(0).is_none());
    let b = CostBudget::new(10_000_000).unwrap();
    assert_eq!(b.as_micros(), 10_000_000);
}

#[test]
fn budget_exceeded_at_equality() {
    // "exceeded" means accumulated >= cap, not strictly greater.
    let b = CostBudget::new(10_000_000).unwrap();
    assert!(!b.is_exceeded_by(TokenCost::new(9_999_999)));
    assert!(b.is_exceeded_by(TokenCost::new(10_000_000)));
    assert!(b.is_exceeded_by(TokenCost::new(12_000_000)));
}

#[test]
fn scores_stay_in_unit_range() {
    assert!(SatisfactionScore::new(SCORE_UNIT + 1).is_none());
    assert_eq!(SatisfactionScore::new(SCORE_UNIT).unwrap().as_basis_points(), SCORE_UNIT);
    assert_eq!(SatisfactionScore::new(0).unwrap().as_basis_points(), 0);
    assert!(AlignmentScore::new(20_000).is_none());
    assert_eq!(AlignmentScore::new(7_500).unwrap().as_basis_points(), 7_500);
}

#[test]
fn diagnostic_severity_blocking() {
    assert!(DiagnosticSeverity::Blocking.blocks());
    assert!(!DiagnosticSeverity::Warning.blocks());
    assert!(!DiagnosticSeverity::Informational.blocks());
}

#[test]
fn diagnostic_category_rejects_empty() {
    assert!(DiagnosticCategory::new(String::new()).is_none());
    let c = DiagnosticCategory::new("type_error".to_string()).unwrap();
    assert_eq!(c.as_str(), "type_error");
}

#[test]
fn api_version_compatibility() {
    // Local 2.1 against remote 2.3: same major, remote minor >= local.
    let local = ApiVersion::new(2, 1);
    assert!(local.is_compatible_with(ApiVersion::new(2, 3)));
    assert!(local.is_compatible_with(ApiVersion::new(2, 1)));
    // Remote 3.0: different major.
    assert!(!local.is_compatible_with(ApiVersion::new(3, 0)));
    // Remote minor below local.
    assert!(!local.is_compatible_with(ApiVersion::new(2, 0)));
}

#[test]
fn timestamp_millis_round_trip() {
    let t = Timestamp::from_millis(1_700_000_000_123);
    assert_eq!(t.as_millis(), 1_700_000_000_123);
    let _now = Timestamp::now();
}
