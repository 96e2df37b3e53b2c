//! Finite time allowances that are spent explicitly.

use vstd::prelude::*;

use super::Duration;
use crate::resource::InsufficientBudgetError;
use crate::resource::ResourceLimit;

verus! {

/// A finite, non-releasable allowance of time spent by explicit charges.
///
/// Like a resource budget, it stores the remaining time and only subtracts
/// after a request has been checked; a failed charge leaves it unchanged.
#[derive(Debug, PartialEq, Eq)]
pub struct DurationBudget<R> {
    /// Resource identity and total allowance.
    limit: ResourceLimit<R, Duration>,
    /// Time not yet spent.
    remaining: Duration,
}

/// The outcome of checking whether `requested` fits a duration budget:
/// success exactly when it is at most the remaining time, and otherwise a
/// failure reporting a clone of the resource, the limit, the unchanged
/// balance and the request.
pub open spec fn duration_availability_result<R: Clone>(
    resource: R,
    limit: Duration,
    remaining: Duration,
    requested: Duration,
    result: Result<(), InsufficientBudgetError<R, Duration>>,
) -> bool {
    match result {
        Ok(()) => requested.as_nat() <= remaining.as_nat(),
        Err(e) => {
            &&& requested.as_nat() > remaining.as_nat()
            &&& cloned(resource, e.resource)
            &&& e.limit == limit
            &&& e.remaining == remaining
            &&& e.requested == requested
        },
    }
}

impl<R> DurationBudget<R> {
    /// The remaining time never exceeds the allowance.
    #[verifier::type_invariant]
    spec fn remaining_within_limit(self) -> bool {
        self.remaining.as_nat() <= self.limit.spec_maximum().as_nat()
    }

    /// The immutable limit configuring this budget.
    pub closed spec fn spec_resource_limit(self) -> ResourceLimit<R, Duration> {
        self.limit
    }

    /// The resource reported in this budget's failures.
    pub open spec fn spec_resource(self) -> R {
        self.spec_resource_limit().spec_resource()
    }

    /// The total allowance.
    pub open spec fn spec_limit(self) -> Duration {
        self.spec_resource_limit().spec_maximum()
    }

    /// The time not yet spent.
    pub closed spec fn spec_remaining(self) -> Duration {
        self.remaining
    }

    /// Creates an unspent budget of `limit`.
    pub fn new(resource: R, limit: Duration) -> (budget: Self)
        ensures
            budget.spec_resource() == resource,
            budget.spec_limit() == limit,
            budget.spec_remaining() == limit,
    {
        Self { limit: ResourceLimit::new(resource, limit), remaining: limit }
    }

    /// Creates an unspent budget from an immutable resource limit.
    pub fn from_limit(limit: ResourceLimit<R, Duration>) -> (budget: Self)
        ensures
            budget.spec_resource_limit() == limit,
            budget.spec_remaining() == limit.spec_maximum(),
    {
        let remaining = limit.maximum();
        Self { limit, remaining }
    }

    /// Spends as much of `requested` as remains and returns the time spent,
    /// `min(requested, remaining)`. Never fails.
    pub fn consume_available(&mut self, requested: Duration) -> (consumed: Duration)
        ensures
            final(self).spec_resource_limit() == old(self).spec_resource_limit(),
            consumed.as_nat() == if requested.as_nat() <= old(self).spec_remaining().as_nat() {
                requested.as_nat()
            } else {
                old(self).spec_remaining().as_nat()
            },
            final(self).spec_remaining().as_nat() == old(self).spec_remaining().as_nat()
                - consumed.as_nat(),
    {
        proof {
            use_type_invariant(&*self);
        }
        let consumed = if requested.le(&self.remaining) {
            requested
        } else {
            self.remaining
        };
        self.remaining = self.remaining.saturating_sub(&consumed);
        consumed
    }

    /// Returns the resource reported in this budget's failures.
    pub fn resource(&self) -> (resource: &R)
        ensures
            *resource == self.spec_resource(),
    {
        self.limit.resource()
    }

    /// Returns the immutable limit configuring this budget.
    pub fn resource_limit(&self) -> (limit: &ResourceLimit<R, Duration>)
        ensures
            *limit == self.spec_resource_limit(),
    {
        &self.limit
    }

    /// Returns the total allowance.
    pub fn limit(&self) -> (limit: Duration)
        ensures
            limit == self.spec_limit(),
    {
        self.limit.maximum()
    }

    /// Returns the time not yet spent, never more than the allowance.
    pub fn remaining(&self) -> (remaining: Duration)
        ensures
            remaining == self.spec_remaining(),
            remaining.as_nat() <= self.spec_limit().as_nat(),
    {
        proof {
            use_type_invariant(self);
        }
        self.remaining
    }

    /// Returns the time spent so far, `limit - remaining`.
    pub fn used(&self) -> (used: Duration)
        ensures
            used.as_nat() == self.spec_limit().as_nat() - self.spec_remaining().as_nat(),
    {
        proof {
            use_type_invariant(self);
        }
        self.limit.maximum().saturating_sub(&self.remaining)
    }
}

impl<R: Clone> DurationBudget<R> {
    /// Checks whether spending `duration` would fit, without changing the
    /// budget.
    pub fn check_available(&self, duration: Duration) -> (result: Result<
        (),
        InsufficientBudgetError<R, Duration>,
    >)
        ensures
            duration_availability_result(
                self.spec_resource(),
                self.spec_limit(),
                self.spec_remaining(),
                duration,
                result,
            ),
    {
        if duration.le(&self.remaining) {
            Ok(())
        } else {
            Err(
                InsufficientBudgetError {
                    resource: self.limit.resource().clone(),
                    limit: self.limit.maximum(),
                    remaining: self.remaining,
                    requested: duration,
                },
            )
        }
    }

    /// Spends `duration` when it fits. On failure the budget is unchanged.
    pub fn try_consume(&mut self, duration: Duration) -> (result: Result<
        (),
        InsufficientBudgetError<R, Duration>,
    >)
        ensures
            final(self).spec_resource_limit() == old(self).spec_resource_limit(),
            duration_availability_result(
                old(self).spec_resource(),
                old(self).spec_limit(),
                old(self).spec_remaining(),
                duration,
                result,
            ),
            result is Ok ==> final(self).spec_remaining().as_nat() == old(self).spec_remaining().as_nat()
                - duration.as_nat(),
            result is Err ==> *final(self) == *old(self),
    {
        match self.check_available(duration) {
            Ok(()) => {},
            Err(error) => return Err(error),
        }
        proof {
            use_type_invariant(&*self);
        }
        self.remaining = self.remaining.saturating_sub(&duration);
        Ok(())
    }
}

} // verus!
