use qubit_budget::time::check_deadline;
use qubit_budget::time::check_deadline_after;
use qubit_budget::time::has_expired;
use qubit_budget::time::remaining_before;
use qubit_budget::time::DeadlineCheck;
use qubit_budget::time::Duration;
use qubit_budget::time::DurationBudget;

#[test]
fn durations_convert_between_units() {
    let span = Duration::new(2, 1_500_000_000);
    assert_eq!(span.as_secs(), 3);
    assert_eq!(span.subsec_nanos(), 500_000_000);
    assert_eq!(Duration::from_millis(1_500).as_nanos(), 1_500_000_000);
    assert_eq!(Duration::from_micros(7).as_nanos(), 7_000);
    assert_eq!(Duration::from_secs(1).checked_sub(&Duration::from_secs(2)), None);
    assert_eq!(
        Duration::from_secs(1).saturating_sub(&Duration::from_secs(2)).as_nanos(),
        0
    );
    assert_eq!(Duration::new(u64::MAX, 999_999_999).checked_add(&Duration::from_nanos(1)), None);
}

#[test]
fn duration_budget_spends_time_once() {
    let mut budget = DurationBudget::new("retry", Duration::from_secs(5));
    budget.try_consume(Duration::from_secs(2)).expect("two seconds fit");
    let error = budget.try_consume(Duration::from_secs(4)).expect_err("three seconds remain");
    assert_eq!(error.remaining(), Duration::from_secs(3));
    assert_eq!(error.requested(), Duration::from_secs(4));
    assert_eq!(budget.used(), Duration::from_secs(2));
    assert_eq!(budget.consume_available(Duration::from_secs(10)), Duration::from_secs(3));
    assert_eq!(budget.remaining(), Duration::zero());
}

#[test]
fn deadline_checks_follow_the_sampled_instant() {
    let deadline = Duration::from_secs(10);
    assert!(!has_expired(Duration::from_secs(9), deadline, true));
    assert!(has_expired(Duration::from_secs(10), deadline, true));
    assert!(!has_expired(Duration::from_secs(11), deadline, false));
    assert_eq!(check_deadline(Duration::from_secs(10), deadline, true), DeadlineCheck::Expired);
    assert_eq!(check_deadline(Duration::from_secs(3), deadline, true), DeadlineCheck::Open);
    assert_eq!(
        check_deadline_after(Duration::from_secs(3), deadline, true, Duration::from_secs(6)),
        DeadlineCheck::Open
    );
    assert_eq!(
        check_deadline_after(Duration::from_secs(3), deadline, true, Duration::from_secs(7)),
        DeadlineCheck::WouldExpire
    );
    assert_eq!(
        check_deadline_after(Duration::from_secs(12), deadline, true, Duration::zero()),
        DeadlineCheck::Expired
    );
    assert_eq!(
        check_deadline_after(
            Duration::from_secs(3),
            deadline,
            true,
            Duration::new(u64::MAX, 999_999_999)
        ),
        DeadlineCheck::Overflow
    );
    assert_eq!(remaining_before(Duration::from_secs(4), deadline, true), Some(Duration::from_secs(6)));
    assert_eq!(remaining_before(Duration::from_secs(40), deadline, true), Some(Duration::zero()));
    assert_eq!(remaining_before(Duration::from_secs(4), deadline, false), None);
}
