use restock::retry::RetryBudget;

#[test]
fn fresh_budget_has_no_failures() {
    let budget = RetryBudget::new(6);
    assert_eq!(budget, RetryBudget { max_attempts: 6, failures: 0 });
}

#[test]
fn six_attempts_fail_for_good_on_the_sixth_failure() {
    let mut budget = RetryBudget::new(6);
    for k in 1..=5u32 {
        let next = budget.record_failure();
        assert_eq!(next, Some(RetryBudget { max_attempts: 6, failures: k }));
        budget = next.unwrap();
    }
    assert_eq!(budget.record_failure(), None);
}

#[test]
fn eleven_attempts_fail_for_good_on_the_eleventh_failure() {
    let mut budget = RetryBudget::new(11);
    let mut survived = 0;
    while let Some(next) = budget.record_failure() {
        survived += 1;
        budget = next;
    }
    assert_eq!(survived, 10);
    assert_eq!(budget.failures, 10);
}

#[test]
fn single_attempt_fails_for_good_at_once() {
    assert_eq!(RetryBudget::new(1).record_failure(), None);
}

#[test]
fn budget_without_attempts_is_spent() {
    assert_eq!(RetryBudget::new(0).record_failure(), None);
}

#[test]
fn largest_budget_does_not_overflow() {
    let nearly = RetryBudget { max_attempts: u32::MAX, failures: u32::MAX - 2 };
    assert_eq!(
        nearly.record_failure(),
        Some(RetryBudget { max_attempts: u32::MAX, failures: u32::MAX - 1 })
    );
    let last = RetryBudget { max_attempts: u32::MAX, failures: u32::MAX - 1 };
    assert_eq!(last.record_failure(), None);
    let beyond = RetryBudget { max_attempts: 3, failures: u32::MAX };
    assert_eq!(beyond.record_failure(), None);
}
