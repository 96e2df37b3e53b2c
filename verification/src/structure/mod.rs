//! Reusable limits for nested values: depth, nodes, container sizes and key
//! bytes.

mod structure_budget;
mod structure_limits;
mod structure_limits_builder;
mod structure_resource;

pub use structure_budget::limit_accepts;
pub use structure_budget::node_charge_result;
pub use structure_budget::StructureBudget;
pub use structure_limits::limit_cloned;
pub use structure_limits::optional_maximum;
pub use structure_limits::StructureLimits;
pub use structure_limits_builder::StructureLimitsBuilder;
pub use structure_resource::StructureResource;
