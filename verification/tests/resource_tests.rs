use qubit_budget::BudgetError;
use qubit_budget::LimitExceededError;
use qubit_budget::ManagedResourcePool;
use qubit_budget::MeasuredBudgetError;
use qubit_budget::Observation;
use qubit_budget::QuantityMeasurement;
use qubit_budget::ResourceBudget;
use qubit_budget::ResourceLimit;
use qubit_budget::ResourcePool;
use qubit_budget::ResourceReleaseError;

#[test]
fn limit_accepts_up_to_its_maximum_and_reports_the_excess() {
    let limit = ResourceLimit::new("depth", 3_u32);
    assert!(limit.check(3).is_ok());
    let error = limit.check(4).expect_err("four exceeds three");
    assert_eq!(error.resource(), &"depth");
    assert_eq!(error.maximum(), 3);
    assert_eq!(error.exact_observed(), Some(4));
    assert_eq!(error.observed_lower_bound(), 4);
    assert_eq!(error.observation(), Observation::Exact(4));
}

#[test]
fn native_measurements_are_converted_without_truncation() {
    let limit = ResourceLimit::new("bytes", 200_u8);
    assert!(limit.check_usize(200).is_ok());
    match limit.check_usize(300) {
        Err(MeasuredBudgetError::Quantity { resource, source }) => {
            assert_eq!(resource, "bytes");
            assert_eq!(source.measurement(), QuantityMeasurement::Usize(300));
            assert_eq!(source.target(), "u8");
        }
        other => panic!("expected a conversion failure, got {:?}", other),
    }
    match limit.check_u64(201) {
        Err(MeasuredBudgetError::Budget(error)) => {
            assert_eq!(error.exact_observed(), Some(201));
            assert_eq!(error.maximum(), Some(200));
        }
        other => panic!("expected a limit failure, got {:?}", other),
    }
    match limit.check_u64(u64::MAX) {
        Err(MeasuredBudgetError::Quantity { source, .. }) => {
            assert_eq!(source.measurement(), QuantityMeasurement::U64(u64::MAX));
        }
        other => panic!("expected a conversion failure, got {:?}", other),
    }
}

#[test]
fn limit_errors_record_exact_or_lower_bound_observations() {
    let exact = LimitExceededError::exact("items", 9_u64, 8);
    assert_eq!(exact.exact_observed(), Some(9));
    let bound = LimitExceededError::at_least("items", 10_u64, 8);
    assert_eq!(bound.exact_observed(), None);
    assert_eq!(bound.observed_lower_bound(), 10);
    assert_eq!(Observation::AtLeast(10_u64).exact(), None);
    assert_eq!(Observation::AtLeast(10_u64).lower_bound(), 10);
    let converted = BudgetError::from(bound);
    assert_eq!(converted.maximum(), Some(8));
    assert_eq!(converted.observed_lower_bound(), Some(10));
    assert_eq!(converted.remaining(), None);
    assert_eq!(converted.configured_limit(), 8);
}

#[test]
fn budget_used_and_remaining_add_up_to_the_limit() {
    let mut budget = ResourceBudget::new("bytes", 8_u64);
    budget.try_consume(3).expect("three bytes fit");
    assert_eq!(budget.used(), 3);
    assert_eq!(budget.remaining(), 5);
    assert_eq!(budget.limit(), 8);
    assert_eq!(budget.used() + budget.remaining(), budget.limit());
}

#[test]
fn failed_charge_leaves_the_budget_unchanged() {
    let mut budget = ResourceBudget::new("bytes", 4_u16);
    budget.try_consume(3).expect("three fit");
    let error = budget.try_consume(2).expect_err("only one remains");
    assert_eq!(error.remaining(), 1);
    assert_eq!(error.requested(), 2);
    assert_eq!(error.used(), 3);
    assert_eq!(budget.remaining(), 1);
    assert!(budget.check_available(1).is_ok());
    assert!(budget.check_available(2).is_err());
    assert_eq!(budget.remaining(), 1);
}

#[test]
fn consume_available_takes_what_is_left() {
    let mut budget = ResourceBudget::new("bytes", 10_u64);
    assert_eq!(budget.consume_available(4), 4);
    assert_eq!(budget.consume_available(10), 6);
    assert_eq!(budget.consume_available(1), 0);
    assert_eq!(budget.remaining(), 0);
}

#[test]
fn group_charge_is_all_or_nothing() {
    let mut budgets = vec![
        ResourceBudget::new("a", 5_u64),
        ResourceBudget::new("b", 2_u64),
        ResourceBudget::new("c", 9_u64),
    ];
    let error = ResourceBudget::try_consume_all(&mut budgets, 3).expect_err("b cannot afford 3");
    assert_eq!(error.index(), 1);
    assert_eq!(error.source_error().resource(), &"b");
    assert_eq!(error.source_error().remaining(), 2);
    assert_eq!(budgets[0].remaining(), 5);
    assert_eq!(budgets[2].remaining(), 9);
    ResourceBudget::try_consume_all(&mut budgets, 2).expect("every budget affords 2");
    assert_eq!(budgets[0].remaining(), 3);
    assert_eq!(budgets[1].remaining(), 0);
    assert_eq!(budgets[2].remaining(), 7);
}

#[test]
fn pool_acquire_and_release_round_trip() {
    let mut pool = ResourcePool::new("readers", 2_u32);
    pool.try_acquire(2).expect("two readers fit");
    assert_eq!(pool.available(), 0);
    assert_eq!(pool.in_use(), 2);
    let error = pool.try_acquire(1).expect_err("the pool is full");
    assert_eq!(error.remaining(), 0);
    assert_eq!(pool.in_use(), 2);
    pool.release(2).expect("two readers return");
    assert_eq!(pool.available(), 2);
    assert_eq!(pool.capacity(), 2);
}

#[test]
fn releasing_more_than_is_in_use_is_refused() {
    let mut pool = ResourcePool::new("writers", 3_u64);
    pool.try_acquire(1).expect("one writer fits");
    match pool.release(2) {
        Err(ResourceReleaseError::InvalidRelease { resource, limit, in_use, requested }) => {
            assert_eq!(resource, "writers");
            assert_eq!(limit, 3);
            assert_eq!(in_use, 1);
            assert_eq!(requested, 2);
        }
        other => panic!("expected an invalid release, got {:?}", other),
    }
    assert_eq!(pool.in_use(), 1);
}

#[test]
fn managed_pool_permits_return_their_capacity() {
    let pool = ManagedResourcePool::new("connections", 3_u64);
    let shared = pool.clone();
    let permit = pool.try_acquire(2).expect("two connections fit");
    assert_eq!(permit.amount(), 2);
    assert_eq!(permit.resource(), &"connections");
    assert_eq!(shared.available(), 1);
    assert_eq!(shared.in_use(), 2);
    match shared.try_acquire(2) {
        Err(error) => {
            assert_eq!(error.remaining(), 1);
            assert_eq!(error.limit(), 3);
        }
        Ok(_) => panic!("only one connection remains"),
    }
    permit.release();
    assert_eq!(pool.available(), 3);
    assert_eq!(pool.capacity(), 3);
}
