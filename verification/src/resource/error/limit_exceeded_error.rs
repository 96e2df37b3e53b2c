//! Failure of a point measurement against an inclusive maximum.

use vstd::prelude::*;

use crate::resource::Observation;

verus! {

/// A point measurement exceeded its configured inclusive maximum.
#[derive(Debug, Clone, PartialEq, Eq)]
pub struct LimitExceededError<R, Q: Copy = u64> {
    /// Resource associated with the failed point check.
    pub resource: R,
    /// Observed point measurement or safe lower bound.
    pub observed: Observation<Q>,
    /// Configured inclusive point maximum.
    pub maximum: Q,
}

impl<R, Q: Copy> LimitExceededError<R, Q> {
    /// Creates a failure from an exact point measurement.
    pub fn exact(resource: R, observed: Q, maximum: Q) -> (error: Self)
        ensures
            error == (LimitExceededError { resource, observed: Observation::Exact(observed), maximum }),
    {
        Self { resource, observed: Observation::Exact(observed), maximum }
    }

    /// Creates a failure from a safe lower bound of a point measurement.
    pub fn at_least(resource: R, lower_bound: Q, maximum: Q) -> (error: Self)
        ensures
            error == (LimitExceededError {
                resource,
                observed: Observation::AtLeast(lower_bound),
                maximum,
            }),
    {
        Self { resource, observed: Observation::AtLeast(lower_bound), maximum }
    }

    /// Returns the resource associated with this failure.
    pub fn resource(&self) -> (resource: &R)
        ensures
            *resource == self.resource,
    {
        &self.resource
    }

    /// Consumes this error and returns its resource.
    pub fn into_resource(self) -> (resource: R)
        ensures
            resource == self.resource,
    {
        self.resource
    }

    /// Returns the observed measurement or its safe lower bound.
    pub fn observation(&self) -> (observed: Observation<Q>)
        ensures
            observed == self.observed,
    {
        self.observed
    }

    /// Returns the exact measurement, or `None` when only a lower bound is
    /// known.
    pub fn exact_observed(&self) -> (exact: Option<Q>)
        ensures
            exact == (match self.observed {
                Observation::Exact(value) => Some(value),
                Observation::AtLeast(_) => None::<Q>,
            }),
    {
        match self.observed {
            Observation::Exact(value) => Some(value),
            Observation::AtLeast(_) => None,
        }
    }

    /// Returns the safe lower bound of the observed measurement.
    pub fn observed_lower_bound(&self) -> (bound: Q)
        ensures
            bound == self.observed.spec_lower_bound(),
    {
        self.observed.lower_bound()
    }

    /// Returns the configured inclusive maximum.
    pub fn maximum(&self) -> (maximum: Q)
        ensures
            maximum == self.maximum,
    {
        self.maximum
    }
}

} // verus!
