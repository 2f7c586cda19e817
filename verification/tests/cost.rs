use cogworks::cost::{CostLedger, RetryDecision, RetrySchedule};
use cogworks::errors::{CogWorksError, RetryPolicy};
use cogworks::values::{CostBudget, TokenCost};

#[test]
fn accumulated_is_sum_of_charges() {
    let mut ledger = CostLedger::new(CostBudget::new(100_000_000).unwrap());
    assert!(ledger.charge(TokenCost::new(1_000_000)).is_ok());
    assert!(ledger.charge(TokenCost::new(2_500_000)).is_ok());
    assert!(ledger.charge(TokenCost::new(500_000)).is_ok());
    assert_eq!(ledger.accumulated().as_micros(), 4_000_000);
    assert_eq!(ledger.charge_count(), 3);
    let mut sum: u64 = 0;
    for i in 0..ledger.charge_count() {
        sum += ledger.charge_at(i).as_micros();
    }
    assert_eq!(sum, ledger.accumulated().as_micros());
}

#[test]
fn parallel_branches_share_one_budget() {
    // Budget $10.00; two branches charge $6.00 each.  Exactly one charge
    // succeeds fully, the other reports the budget exceeded at $12 >= $10.
    let budget = CostBudget::new(10_000_000).unwrap();
    let mut ledger = CostLedger::new(budget);
    let six = TokenCost::new(6_000_000);
    assert!(ledger.charge(six).is_ok());
    match ledger.charge(six) {
        Err(CogWorksError::BudgetExceeded { accumulated, limit }) => {
            assert_eq!(accumulated.as_micros(), 12_000_000);
            assert_eq!(limit.as_micros(), 10_000_000);
        }
        other => panic!("expected BudgetExceeded, got {:?}", other),
    }
    // The exceeding charge is still recorded.
    assert_eq!(ledger.charge_count(), 2);
    assert_eq!(ledger.accumulated().as_micros(), 12_000_000);
    assert!(ledger.is_exceeded());
    assert!(!ledger.can_dispatch());
}

#[test]
fn charge_reaching_cap_exactly_is_exceeded() {
    let mut ledger = CostLedger::new(CostBudget::new(5_000_000).unwrap());
    assert!(ledger.charge(TokenCost::new(4_999_999)).is_ok());
    assert!(ledger.charge(TokenCost::new(1)).is_err());
}

#[test]
fn unrepresentable_charge_is_rejected_unrecorded() {
    let mut ledger = CostLedger::new(CostBudget::new(5_000_000).unwrap());
    assert!(ledger.charge(TokenCost::new(1)).is_ok());
    match ledger.charge(TokenCost::new(u64::MAX)) {
        Err(CogWorksError::BudgetExceeded { accumulated, .. }) => {
            assert_eq!(accumulated.as_micros(), 1);
        }
        other => panic!("expected BudgetExceeded, got {:?}", other),
    }
    assert_eq!(ledger.charge_count(), 1);
    assert_eq!(ledger.accumulated().as_micros(), 1);
}

#[test]
fn ledger_restores_from_persisted_charges() {
    let limit = CostBudget::new(100_000_000).unwrap();
    let charges = vec![TokenCost::new(1), TokenCost::new(2), TokenCost::new(3)];
    let ledger = CostLedger::from_charges(limit, charges).unwrap();
    assert_eq!(ledger.accumulated().as_micros(), 6);
    assert_eq!(ledger.charge_count(), 3);
    assert_eq!(ledger.charge_at(1).as_micros(), 2);
    let bad = vec![TokenCost::new(u64::MAX), TokenCost::new(1)];
    assert!(CostLedger::from_charges(limit, bad).is_none());
}

#[test]
fn retry_respects_minimum_backoff() {
    // Retryable { after: 5s } observed at t=1000ms is re-attempted no
    // sooner than t=6000ms.
    let mut sched = RetrySchedule::new(3);
    let d = sched.on_failure(&RetryPolicy::Retryable { after_ms: Some(5_000) }, 1_000);
    assert_eq!(d, RetryDecision::Retry { not_before_ms: 6_000 });
}

#[test]
fn retry_without_delay_is_immediate() {
    let mut sched = RetrySchedule::new(3);
    let d = sched.on_failure(&RetryPolicy::Retryable { after_ms: None }, 1_000);
    assert_eq!(d, RetryDecision::Retry { not_before_ms: 1_000 });
}

#[test]
fn retry_ceiling_escalates() {
    let mut sched = RetrySchedule::new(2);
    let policy = RetryPolicy::Retryable { after_ms: Some(5_000) };
    assert!(matches!(sched.on_failure(&policy, 0), RetryDecision::Retry { .. }));
    assert!(matches!(sched.on_failure(&policy, 10_000), RetryDecision::Retry { .. }));
    // The attempt ceiling is exhausted: the failure escalates as terminal.
    assert_eq!(sched.on_failure(&policy, 20_000), RetryDecision::Escalate);
    assert_eq!(sched.on_failure(&policy, 30_000), RetryDecision::Escalate);
}

#[test]
fn non_retryable_always_escalates() {
    let mut sched = RetrySchedule::new(5);
    assert_eq!(sched.on_failure(&RetryPolicy::NonRetryable, 0), RetryDecision::Escalate);
}
