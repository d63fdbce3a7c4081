//! Bounded retries: how many times one step may be attempted.

use vstd::prelude::*;

verus! {

/// The attempts allowed to one step, and the failures so far. The step is
/// attempted again after a failure as long as attempts are left; the
/// failure that uses up the last one is final.
#[derive(Debug, Clone, Copy, PartialEq, Eq, Structural)]
pub struct RetryBudget {
    pub max_attempts: u32,
    pub failures: u32,
}

impl RetryBudget {
    /// A budget of `max_attempts` attempts, none of them used.
    pub open spec fn fresh(max_attempts: u32) -> RetryBudget {
        RetryBudget { max_attempts, failures: 0 }
    }

    /// The budget after one more failure, or `None` when that failure used
    /// up the last attempt.
    pub open spec fn after_failure(self) -> Option<RetryBudget> {
        if self.failures + 1 >= self.max_attempts {
            None
        } else {
            Some(RetryBudget { max_attempts: self.max_attempts, failures: (self.failures + 1) as u32 })
        }
    }

    /// The budget after `k` failures in a row, or `None` when one of them
    /// used up the last attempt.
    pub open spec fn after_failures(self, k: nat) -> Option<RetryBudget>
        decreases k,
    {
        if k == 0 {
            Some(self)
        } else {
            match self.after_failures((k - 1) as nat) {
                None => None,
                Some(budget) => budget.after_failure(),
            }
        }
    }

    /// A budget of `max_attempts` attempts, none of them used.
    pub fn new(max_attempts: u32) -> (budget: RetryBudget)
        ensures
            budget == Self::fresh(max_attempts),
    {
        RetryBudget { max_attempts, failures: 0 }
    }

    /// Counts one failure. `None` says that the step has failed for good.
    pub fn record_failure(self) -> (next: Option<RetryBudget>)
        ensures
            next == self.after_failure(),
    {
        if self.max_attempts == 0 || self.failures >= self.max_attempts - 1 {
            None
        } else {
            Some(RetryBudget { max_attempts: self.max_attempts, failures: self.failures + 1 })
        }
    }
}

/// A step with `max_attempts` attempts survives each of its first
/// `max_attempts - 1` failures in a row, every one of them counted, and
/// fails for good on exactly the `max_attempts`-th.
pub proof fn law_budget_is_exact(max_attempts: u32, k: nat)
    requires
        max_attempts >= 1,
    ensures
        RetryBudget::fresh(max_attempts).after_failures(k) is Some <==> k < max_attempts,
        k < max_attempts ==> RetryBudget::fresh(max_attempts).after_failures(k) == Some(
            RetryBudget { max_attempts, failures: k as u32 },
        ),
    decreases k,
{
    if k > 0 {
        law_budget_is_exact(max_attempts, (k - 1) as nat);
    }
}

} // verus!
