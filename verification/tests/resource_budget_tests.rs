use qubit_budget::ResourceBudget;

#[test]
fn budget_charges_fit_and_failure_leaves_balance() {
    let mut response = ResourceBudget::new("response-bytes", 8_u64);
    response.try_consume(5).expect("the first chunk fits");
    let error = response.try_consume(4).expect_err("only three bytes remain");
    assert_eq!(error.resource(), &"response-bytes");
    assert_eq!(error.limit(), 8);
    assert_eq!(error.remaining(), 3);
    assert_eq!(error.requested(), 4);
    assert_eq!(response.used(), 5);
}
