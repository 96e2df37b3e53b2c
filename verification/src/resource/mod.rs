//! Quantities, point limits, cumulative budgets, pools and their errors.

mod budget;
mod error;
mod limit;
mod observation;
mod quantity;

pub use budget::availability_result;
pub use budget::law_charges_add_up;
pub use budget::law_check_predicts_charge;
pub use budget::law_consume_available_is_greedy;
pub use budget::law_release_undoes_acquire;
pub use budget::ManagedResourcePermit;
pub use budget::ManagedResourcePool;
pub use budget::release_result;
pub use budget::ResourceBudget;
pub use budget::ResourcePool;
pub use error::BudgetError;
pub use error::BudgetGroupError;
pub use error::InsufficientBudgetError;
pub use error::LimitExceededError;
pub use error::MeasuredBudgetError;
pub use error::ResourceReleaseError;
pub(crate) use limit::check_limit;
pub use limit::limit_check_result;
pub use limit::optional_limit_result;
pub use limit::ResourceLimit;
pub use observation::Observation;
pub use quantity::QuantityConversionError;
pub use quantity::QuantityMeasurement;
pub use quantity::ResourceQuantity;
