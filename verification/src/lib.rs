//! Finite, explicit accounting for work: bytes read, nodes visited, output
//! produced, capacity borrowed from a pool, or time spent.
//!
//! Every operation that can fail leaves the accounting state unchanged and
//! reports a structured error carrying the resource, the configured limit and
//! the rejected request.

pub mod json;
pub mod resource;
pub mod string;
pub mod structure;
pub mod time;

pub use resource::ResourceQuantity;
pub use resource::QuantityConversionError;
pub use resource::QuantityMeasurement;
pub use resource::BudgetError;
pub use resource::BudgetGroupError;
pub use resource::InsufficientBudgetError;
pub use resource::LimitExceededError;
pub use resource::ManagedResourcePermit;
pub use resource::ManagedResourcePool;
pub use resource::MeasuredBudgetError;
pub use resource::Observation;
pub use resource::ResourceBudget;
pub use resource::ResourceLimit;
pub use resource::ResourcePool;
pub use resource::ResourceReleaseError;
pub use structure::StructureBudget;
pub use structure::StructureLimits;
pub use structure::StructureLimitsBuilder;
pub use structure::StructureResource;
pub use string::BudgetedStringError;
pub use string::BudgetedStringWriter;
pub use json::JsonBudget;
pub use json::JsonLimits;
pub use json::JsonSerdeError;
