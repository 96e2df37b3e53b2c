use std::fmt::Write as _;
use std::io::Write as _;

use qubit_budget::BudgetedStringError;
use qubit_budget::ResourceBudget;

#[test]
fn rendered_text_is_charged_only_when_complete() {
    let mut budget = ResourceBudget::new("label", 10_u64);
    let text = budget
        .try_write_string(|writer| writer.as_fmt().write_str(&format!("id={}", 42)))
        .expect("six bytes fit");
    assert_eq!(text, "id=42");
    assert_eq!(budget.remaining(), 5);
}

#[test]
fn oversized_rendering_leaves_the_budget_unchanged() {
    let mut budget = ResourceBudget::new("label", 4_u64);
    let result = budget.try_write_string(|writer| writer.as_fmt().write_str("too long"));
    match result {
        Err(BudgetedStringError::Budget(error)) => {
            assert_eq!(error.remaining(), 4);
            assert_eq!(error.requested(), 8);
        }
        _ => panic!("expected a budget rejection"),
    }
    assert_eq!(budget.remaining(), 4);
}

#[test]
fn renderer_errors_and_invalid_utf8_charge_nothing() {
    let mut budget = ResourceBudget::new("label", 16_u64);
    let result = budget.try_write_string(|writer| {
        writer.as_io().write_all(b"ok").map_err(|_| "io")?;
        Err::<(), &str>("renderer gave up")
    });
    assert!(matches!(result, Err(BudgetedStringError::Render("renderer gave up"))));
    let result = budget.try_write_string(|writer| writer.as_io().write_all(&[0xFF, 0xFE]));
    assert!(matches!(result, Err(BudgetedStringError::InvalidUtf8(_))));
    assert_eq!(budget.remaining(), 16);
    let text = budget
        .try_write_string(|writer| writer.as_io().write_all("caf\u{e9}".as_bytes()))
        .expect("five bytes fit");
    assert_eq!(text, "caf\u{e9}");
    assert_eq!(budget.remaining(), 11);
}

#[test]
fn a_refused_append_reports_the_whole_staged_length() {
    let mut budget = ResourceBudget::new("b", 4_u64);
    let result = budget.try_write_string(|writer| {
        let mut view = writer.as_fmt();
        view.write_str("abc")?;
        view.write_str("de")
    });
    match result {
        Err(BudgetedStringError::Budget(error)) => {
            assert_eq!(error.requested(), 5);
            assert_eq!(error.remaining(), 4);
            assert_eq!(error.limit(), 4);
        }
        _ => panic!("the writer's budget failure wins over the renderer's error"),
    }
    assert_eq!(budget.used(), 0);
}

#[test]
fn bytes_written_through_the_io_view_are_staged_whole() {
    let mut budget = ResourceBudget::new("b", 16_u64);
    let result = budget.try_write_string(|writer| {
        let mut io = writer.as_io();
        assert_eq!(io.write(&[0xFF]).expect("one byte fits"), 1);
        io.flush()
    });
    assert!(matches!(result, Err(BudgetedStringError::InvalidUtf8(_))));
    assert_eq!(budget.used(), 0);
}
