//! Failure of a cumulative request against the remaining capacity.

use vstd::prelude::*;

use crate::resource::ResourceQuantity;

verus! {

/// A cumulative consumption or acquisition request exceeded the remaining
/// capacity.
#[derive(Debug, Clone, PartialEq, Eq)]
pub struct InsufficientBudgetError<R, Q: Copy = u64> {
    /// Resource associated with the failed request.
    pub resource: R,
    /// Configured finite limit.
    pub limit: Q,
    /// Capacity remaining before the failed request.
    pub remaining: Q,
    /// Quantity requested by the failed operation.
    pub requested: Q,
}

impl<R, Q: Copy> InsufficientBudgetError<R, Q> {
    /// Returns the resource associated with this failure.
    pub fn resource(&self) -> (resource: &R)
        ensures
            *resource == self.resource,
    {
        &self.resource
    }

    /// Consumes this error and returns its resource.
    pub fn into_resource(self) -> (resource: R)
        ensures
            resource == self.resource,
    {
        self.resource
    }

    /// Returns the configured finite limit.
    pub fn limit(&self) -> (limit: Q)
        ensures
            limit == self.limit,
    {
        self.limit
    }

    /// Returns the capacity remaining before the failed request.
    pub fn remaining(&self) -> (remaining: Q)
        ensures
            remaining == self.remaining,
    {
        self.remaining
    }

    /// Returns the quantity that did not fit.
    pub fn requested(&self) -> (requested: Q)
        ensures
            requested == self.requested,
    {
        self.requested
    }
}

impl<R, Q: ResourceQuantity> InsufficientBudgetError<R, Q> {
    /// Returns the capacity already used before the failed request.
    pub fn used(&self) -> (used: Q)
        requires
            self.remaining.as_nat() <= self.limit.as_nat(),
        ensures
            used.as_nat() == self.limit.as_nat() - self.remaining.as_nat(),
    {
        self.limit.subtract(self.remaining)
    }
}

} // verus!
