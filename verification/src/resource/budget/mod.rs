//! Cumulative budgets, releasable pools and permits.

mod laws;
mod managed_resource_pool;
mod resource_budget;
mod resource_pool;

pub use managed_resource_pool::ManagedResourcePermit;
pub use managed_resource_pool::ManagedResourcePool;
pub use resource_budget::availability_result;
pub use resource_budget::ResourceBudget;
pub use resource_pool::release_result;
pub use resource_pool::ResourcePool;
pub use laws::law_charges_add_up;
pub use laws::law_check_predicts_charge;
pub use laws::law_consume_available_is_greedy;
pub use laws::law_release_undoes_acquire;
