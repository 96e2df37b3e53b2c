//! Time budgets: durations spent explicitly, and deadlines checked against a
//! monotonic clock.

mod deadline;
mod duration;
mod duration_budget;
mod duration_budget_error;

pub use deadline::check_deadline;
pub use deadline::check_deadline_after;
pub use deadline::has_expired;
pub use deadline::law_deadline_reached_at_full_precision;
pub use deadline::reached;
pub use deadline::remaining_before;
pub use deadline::DeadlineCheck;
pub use duration::max_duration_nanos;
pub use duration::Duration;
pub use duration_budget::duration_availability_result;
pub use duration_budget::DurationBudget;
pub use duration_budget_error::DurationBudgetError;
