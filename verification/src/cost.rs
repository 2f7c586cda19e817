//! Cost accounting and retry interpretation.
//!
//! A [`CostLedger`] accumulates spend for one run and enforces the budget
//! ceiling shared across concurrently executing branches: parallel callers
//! serialize through the run's single controller, which owns the ledger, so
//! `charge` is the one linearization point.  A [`RetrySchedule`] interprets
//! the retry policy attached to a failure, bounded by a configurable maximum
//! attempt count.

use vstd::prelude::*;

use crate::errors::{CogWorksError, RetryPolicy};
use crate::values::{CostBudget, TokenCost};

verus! {

/// The sum, in micro-dollars, of a sequence of recorded charges.
pub open spec fn sum_charges(s: Seq<TokenCost>) -> int
    decreases s.len(),
{
    if s.len() == 0 {
        0
    } else {
        sum_charges(s.drop_last()) + s.last().spec_micros()
    }
}

/// The sum of a prefix of a charge log never exceeds the sum of the whole
/// log: charges are non-negative.
proof fn lemma_sum_charges_prefix_bound(s: Seq<TokenCost>, k: int)
    requires
        0 <= k <= s.len(),
    ensures
        sum_charges(s.subrange(0, k)) <= sum_charges(s),
    decreases s.len(),
{
    if k == s.len() {
        assert(s.subrange(0, k) =~= s);
    } else {
        assert(sum_charges(s) == sum_charges(s.drop_last()) + s.last().spec_micros());
        crate::values::lemma_token_cost_micros_bounds(s.last());
        lemma_sum_charges_prefix_bound(s.drop_last(), k);
        assert(s.drop_last().subrange(0, k) =~= s.subrange(0, k));
    }
}

/// The accumulated spend of one run, the recorded charges it is the sum of,
/// and the cap it is checked against.
///
/// Owned by the run's controller; node-executing units report their costs by
/// message passing, and the controller records them here one at a time.
#[derive(Debug, Clone, PartialEq)]
pub struct CostLedger {
    limit: CostBudget,
    accumulated: TokenCost,
    charges: Vec<TokenCost>,
}

impl CostLedger {
    /// The configured cap.
    pub closed spec fn spec_limit(self) -> CostBudget {
        self.limit
    }

    /// The accumulated spend.
    pub closed spec fn spec_accumulated(self) -> TokenCost {
        self.accumulated
    }

    /// The recorded charges, in the order the controller applied them.
    pub closed spec fn spec_charges(self) -> Seq<TokenCost> {
        self.charges@
    }

    /// A well-formed ledger has a positive cap and an accumulated spend that
    /// is exactly the sum of its recorded charges: no charge is lost or
    /// double-counted.
    pub open spec fn wf(self) -> bool {
        &&& self.spec_limit().wf()
        &&& self.spec_accumulated().spec_micros() == sum_charges(self.spec_charges())
    }

    /// Whether the accumulated spend has reached the cap.
    pub open spec fn spec_exceeded(self) -> bool {
        self.spec_limit().spec_exceeded_by(self.spec_accumulated())
    }

    /// Creates an empty ledger for the given cap.
    pub fn new(limit: CostBudget) -> (r: Self)
        requires
            limit.wf(),
        ensures
            r.wf(),
            r.spec_limit() == limit,
            r.spec_accumulated().spec_micros() == 0,
            r.spec_charges() =~= Seq::<TokenCost>::empty(),
            !r.spec_exceeded(),
    {
        CostLedger { limit, accumulated: TokenCost::zero(), charges: Vec::new() }
    }

    /// Rebuilds a ledger from a persisted charge log, recomputing the
    /// accumulated spend.
    ///
    /// Returns `None` when the recorded charges do not sum to a
    /// representable amount, which no honestly persisted ledger can
    /// produce.
    pub fn from_charges(limit: CostBudget, charges: Vec<TokenCost>) -> (r: Option<Self>)
        requires
            limit.wf(),
        ensures
            sum_charges(charges@) <= u64::MAX as int ==> (r matches Some(l) && l.wf()
                && l.spec_limit() == limit && l.spec_charges() == charges@
                && l.spec_accumulated().spec_micros() == sum_charges(charges@)),
            sum_charges(charges@) > u64::MAX as int ==> r is None,
    {
        let mut total = TokenCost::zero();
        let mut i: usize = 0;
        while i < charges.len()
            invariant
                i <= charges@.len(),
                total.spec_micros() == sum_charges(charges@.subrange(0, i as int)),
            decreases charges@.len() - i,
        {
            proof {
                assert(charges@.subrange(0, i as int + 1).drop_last() =~= charges@.subrange(
                    0,
                    i as int,
                ));
                assert(charges@.subrange(0, i as int + 1).last() == charges@[i as int]);
            }
            total = match total.checked_add(charges[i]) {
                Some(t) => t,
                None => {
                    proof {
                        lemma_sum_charges_prefix_bound(charges@, i as int + 1);
                    }
                    return None;
                },
            };
            i = i + 1;
        }
        proof {
            assert(charges@.subrange(0, charges@.len() as int) =~= charges@);
            assert(total.spec_micros() == sum_charges(charges@));
            crate::values::lemma_token_cost_micros_bounds(total);
            assert(sum_charges(charges@) <= u64::MAX as int);
        }
        Some(CostLedger { limit, accumulated: total, charges })
    }

    /// Returns the configured cap.
    pub fn limit(&self) -> (r: CostBudget)
        ensures
            r == self.spec_limit(),
    {
        self.limit
    }

    /// Returns the accumulated spend.
    pub fn accumulated(&self) -> (r: TokenCost)
        ensures
            r == self.spec_accumulated(),
    {
        self.accumulated
    }

    /// Returns how many charges have been recorded.
    pub fn charge_count(&self) -> (r: usize)
        ensures
            r == self.spec_charges().len(),
    {
        self.charges.len()
    }

    /// Returns the `i`-th recorded charge.
    pub fn charge_at(&self, i: usize) -> (r: TokenCost)
        requires
            i < self.spec_charges().len(),
        ensures
            r == self.spec_charges()[i as int],
    {
        self.charges[i]
    }

    /// Returns `true` if the accumulated spend has reached the cap.
    pub fn is_exceeded(&self) -> (r: bool)
        ensures
            r == self.spec_exceeded(),
    {
        self.limit.is_exceeded_by(self.accumulated)
    }

    /// Records one node charge and checks the cap.
    ///
    /// The charge that makes the accumulated spend reach the cap is still
    /// recorded, and the failure reports the accumulated and limit values at
    /// that point.  A charge whose sum would not even be representable is
    /// rejected unrecorded; it too reports the budget as exceeded, since the
    /// true sum would be beyond any representable cap.
    pub fn charge(&mut self, amount: TokenCost) -> (r: Result<(), CogWorksError>)
        requires
            old(self).wf(),
        ensures
            final(self).wf(),
            final(self).spec_limit() == old(self).spec_limit(),
            old(self).spec_accumulated().spec_micros() + amount.spec_micros() <= u64::MAX as int
                ==> {
                &&& final(self).spec_charges() =~= old(self).spec_charges().push(amount)
                &&& final(self).spec_accumulated().spec_micros() == old(
                    self,
                ).spec_accumulated().spec_micros() + amount.spec_micros()
                &&& (r is Err <==> final(self).spec_exceeded())
                &&& (r matches Err(e) ==> e == (CogWorksError::BudgetExceeded {
                    accumulated: final(self).spec_accumulated(),
                    limit: final(self).spec_limit(),
                }))
            },
            old(self).spec_accumulated().spec_micros() + amount.spec_micros() > u64::MAX as int
                ==> {
                &&& *final(self) == *old(self)
                &&& r == Err::<(), CogWorksError>(CogWorksError::BudgetExceeded {
                    accumulated: old(self).spec_accumulated(),
                    limit: old(self).spec_limit(),
                })
            },
    {
        match self.accumulated.checked_add(amount) {
            Some(total) => {
                self.accumulated = total;
                self.charges.push(amount);
                proof {
                    assert(self.charges@.drop_last() =~= old(self).charges@);
                }
                if self.limit.is_exceeded_by(self.accumulated) {
                    Err(
                        CogWorksError::BudgetExceeded {
                            accumulated: self.accumulated,
                            limit: self.limit,
                        },
                    )
                } else {
                    Ok(())
                }
            },
            None => Err(
                CogWorksError::BudgetExceeded { accumulated: self.accumulated, limit: self.limit },
            ),
        }
    }

    /// Whether dispatching further work is already known to be pointless:
    /// the controller consults this before starting a node.
    pub fn can_dispatch(&self) -> (r: bool)
        ensures
            r == !self.spec_exceeded(),
    {
        !self.is_exceeded()
    }
}

/// Accumulated cost equals the sum of every recorded node charge, including
/// charges reported by parallel branches: all of them serialize through the
/// run's one ledger, and no charge is lost or double-counted.
pub proof fn lemma_accumulated_is_sum_of_charges(l: CostLedger)
    requires
        l.wf(),
    ensures
        l.spec_accumulated().spec_micros() == sum_charges(l.spec_charges()),
{
}

/// Saturating addition on `u64`, as a mathematical function.
pub open spec fn spec_saturating_add(a: int, b: int) -> int {
    if a + b <= u64::MAX as int {
        a + b
    } else {
        u64::MAX as int
    }
}

/// What the orchestrator does with a failed node.
#[derive(Debug, Clone, Copy, PartialEq, Eq)]
pub enum RetryDecision {
    /// Re-invoke the failed node, but no earlier than the given instant.
    Retry {
        /// Earliest instant, in milliseconds on the caller's clock, at
        /// which the re-attempt may start.
        not_before_ms: u64,
    },
    /// The failure escalates as if non-retryable and terminates the run.
    Escalate,
}

/// Bounded retry bookkeeping for one node of one run.
///
/// The maximum attempt count is configuration, made explicit here; after it
/// is exhausted, every further failure escalates.
#[derive(Debug, Clone, Copy, PartialEq, Eq, Structural)]
pub struct RetrySchedule {
    /// Maximum number of re-attempts allowed after the first failure.
    pub max_retries: u32,
    /// Re-attempts scheduled so far.
    pub retries_made: u32,
}

impl RetrySchedule {
    /// Maximum number of re-attempts allowed.
    pub open spec fn spec_max_retries(self) -> int {
        self.max_retries as int
    }

    /// Re-attempts scheduled so far.
    pub open spec fn spec_retries_made(self) -> int {
        self.retries_made as int
    }

    /// No more re-attempts than allowed are ever scheduled.
    pub open spec fn wf(self) -> bool {
        self.spec_retries_made() <= self.spec_max_retries()
    }

    /// Creates a fresh schedule with the configured attempt ceiling.
    pub fn new(max_retries: u32) -> (r: Self)
        ensures
            r.wf(),
            r.spec_max_retries() == max_retries as int,
            r.spec_retries_made() == 0,
    {
        RetrySchedule { max_retries, retries_made: 0 }
    }

    /// The decision this schedule makes for one failure observed at
    /// `now_ms`: retryable failures are re-attempted no sooner than the
    /// back-off they carry, until the attempt ceiling is reached; from then
    /// on, and for every non-retryable failure, they escalate.
    pub open spec fn spec_decision(self, policy: RetryPolicy, now_ms: u64) -> RetryDecision {
        match policy {
            RetryPolicy::NonRetryable => RetryDecision::Escalate,
            RetryPolicy::Retryable { after_ms } => {
                if self.spec_retries_made() >= self.spec_max_retries() {
                    RetryDecision::Escalate
                } else {
                    RetryDecision::Retry {
                        not_before_ms: spec_saturating_add(
                            now_ms as int,
                            match after_ms {
                                Some(ms) => ms as int,
                                None => 0,
                            },
                        ) as u64,
                    }
                }
            },
        }
    }

    /// The schedule after one failure: a scheduled re-attempt is counted,
    /// everything else leaves the schedule unchanged.
    pub open spec fn spec_after_failure(self, policy: RetryPolicy, now_ms: u64) -> RetrySchedule {
        if self.spec_decision(policy, now_ms) is Retry {
            RetrySchedule { retries_made: (self.retries_made + 1) as u32, ..self }
        } else {
            self
        }
    }

    /// Interprets one failure against this schedule.
    pub fn on_failure(&mut self, policy: &RetryPolicy, now_ms: u64) -> (d: RetryDecision)
        requires
            old(self).wf(),
        ensures
            final(self).wf(),
            d == old(self).spec_decision(*policy, now_ms),
            *final(self) == old(self).spec_after_failure(*policy, now_ms),
    {
        match policy {
            RetryPolicy::NonRetryable => RetryDecision::Escalate,
            RetryPolicy::Retryable { after_ms } => {
                if self.retries_made >= self.max_retries {
                    RetryDecision::Escalate
                } else {
                    self.retries_made = self.retries_made + 1;
                    let delay: u64 = match after_ms {
                        Some(ms) => *ms,
                        None => 0,
                    };
                    let not_before_ms: u64 = match now_ms.checked_add(delay) {
                        Some(t) => t,
                        None => u64::MAX,
                    };
                    RetryDecision::Retry { not_before_ms }
                }
            },
        }
    }
}

/// A failure carrying `Retryable { after_ms }` is re-attempted no sooner
/// than `after_ms` after the instant the failure was observed, up to the
/// configured attempt ceiling, after which it escalates as a terminal
/// failure — whatever back-off the failure then carries.
pub proof fn lemma_retry_respects_backoff(s: RetrySchedule, after_ms: u64, now_ms: u64)
    requires
        s.wf(),
        now_ms as int + after_ms as int <= u64::MAX as int,
    ensures
        s.spec_decision(RetryPolicy::Retryable { after_ms: Some(after_ms) }, now_ms) matches
            RetryDecision::Retry { not_before_ms } ==> not_before_ms as int >= now_ms as int
            + after_ms as int,
        s.spec_retries_made() >= s.spec_max_retries() ==> forall|p: RetryPolicy, t: u64|
            s.spec_decision(p, t) == RetryDecision::Escalate,
{
}

} // verus!
