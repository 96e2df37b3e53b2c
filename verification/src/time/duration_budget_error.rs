//! A duration request that did not fit the remaining time.

use vstd::prelude::*;

use super::Duration;
use crate::resource::InsufficientBudgetError;

verus! {

/// A duration budget could not afford a request.
#[derive(Debug, Clone, PartialEq, Eq)]
pub struct DurationBudgetError<R> {
    /// Resource associated with the budget.
    resource: R,
    /// Total allowance of the budget.
    limit: Duration,
    /// Time remaining before the failed request.
    remaining: Duration,
    /// Time requested by the failed operation.
    requested: Duration,
}

impl<R> DurationBudgetError<R> {
    /// The resource associated with the budget.
    pub closed spec fn spec_resource(self) -> R {
        self.resource
    }

    /// The allowance of the budget.
    pub closed spec fn spec_limit(self) -> Duration {
        self.limit
    }

    /// The time remaining before the failed request.
    pub closed spec fn spec_remaining(self) -> Duration {
        self.remaining
    }

    /// The time requested by the failed operation.
    pub closed spec fn spec_requested(self) -> Duration {
        self.requested
    }

    /// Creates a failure report.
    pub(crate) fn new(resource: R, limit: Duration, remaining: Duration, requested: Duration) -> (error:
        Self)
        ensures
            error.spec_resource() == resource,
            error.spec_limit() == limit,
            error.spec_remaining() == remaining,
            error.spec_requested() == requested,
    {
        Self { resource, limit, remaining, requested }
    }

    /// Returns the resource by reference.
    pub fn resource(&self) -> (resource: &R)
        ensures
            *resource == self.spec_resource(),
    {
        &self.resource
    }

    /// Consumes the error and returns its resource.
    pub fn into_resource(self) -> (resource: R)
        ensures
            resource == self.spec_resource(),
    {
        self.resource
    }

    /// Returns the total allowance.
    pub fn limit(&self) -> (limit: Duration)
        ensures
            limit == self.spec_limit(),
    {
        self.limit
    }

    /// Returns the time remaining before the failed request.
    pub fn remaining(&self) -> (remaining: Duration)
        ensures
            remaining == self.spec_remaining(),
    {
        self.remaining
    }

    /// Returns the requested time that did not fit.
    pub fn requested(&self) -> (requested: Duration)
        ensures
            requested == self.spec_requested(),
    {
        self.requested
    }
}

impl<R> From<InsufficientBudgetError<R, Duration>> for DurationBudgetError<R> {
    /// Converts the failure of a duration budget into this report.
    fn from(error: InsufficientBudgetError<R, Duration>) -> (report: Self) {
        DurationBudgetError::new(error.resource, error.limit, error.remaining, error.requested)
    }
}

impl<R> vstd::std_specs::convert::FromSpecImpl<InsufficientBudgetError<R, Duration>> for DurationBudgetError<R> {
    open spec fn obeys_from_spec() -> bool {
        true
    }

    open spec fn from_spec(error: InsufficientBudgetError<R, Duration>) -> Self {
        DurationBudgetError::spec_from_insufficient(error)
    }
}

impl<R> DurationBudgetError<R> {
    /// The report of an insufficient duration budget.
    pub closed spec fn spec_from_insufficient(error: InsufficientBudgetError<R, Duration>) -> Self {
        DurationBudgetError {
            resource: error.resource,
            limit: error.limit,
            remaining: error.remaining,
            requested: error.requested,
        }
    }
}

} // verus!
