//! Aggregate failure of a point limit or a cumulative budget.

use vstd::prelude::*;

use super::InsufficientBudgetError;
use super::LimitExceededError;
use crate::resource::Observation;
use crate::resource::ResourceQuantity;

verus! {

/// A point limit or a cumulative budget rejected a measurement.
#[derive(Debug, Clone, PartialEq, Eq)]
pub enum BudgetError<R, Q: Copy = u64> {
    /// A point measurement exceeded its configured maximum.
    LimitExceeded {
        /// Resource associated with the failed point check.
        resource: R,
        /// Observed point measurement or safe lower bound.
        observed: Observation<Q>,
        /// Configured inclusive point maximum.
        maximum: Q,
    },
    /// A cumulative consumption request exceeded the remaining capacity.
    Insufficient {
        /// Resource associated with the failed consumption request.
        resource: R,
        /// Configured finite limit.
        limit: Q,
        /// Capacity remaining before the failed request.
        remaining: Q,
        /// Quantity requested by the failed operation.
        requested: Q,
    },
}

impl<R, Q: Copy> BudgetError<R, Q> {
    /// The resource carried by either variant.
    pub open spec fn spec_resource(self) -> R {
        match self {
            BudgetError::LimitExceeded { resource, .. } => resource,
            BudgetError::Insufficient { resource, .. } => resource,
        }
    }

    /// The observation of a point-limit failure.
    pub open spec fn spec_observation(self) -> Option<Observation<Q>> {
        match self {
            BudgetError::LimitExceeded { observed, .. } => Some(observed),
            BudgetError::Insufficient { .. } => None,
        }
    }

    /// The aggregate error that a point-limit failure converts into.
    pub open spec fn from_limit_exceeded(error: LimitExceededError<R, Q>) -> Self {
        BudgetError::LimitExceeded {
            resource: error.resource,
            observed: error.observed,
            maximum: error.maximum,
        }
    }

    /// The aggregate error that a cumulative-budget failure converts into.
    pub open spec fn from_insufficient(error: InsufficientBudgetError<R, Q>) -> Self {
        BudgetError::Insufficient {
            resource: error.resource,
            limit: error.limit,
            remaining: error.remaining,
            requested: error.requested,
        }
    }

    /// Returns the resource associated with this failure.
    pub fn resource(&self) -> (resource: &R)
        ensures
            *resource == self.spec_resource(),
    {
        match self {
            BudgetError::LimitExceeded { resource, .. } => resource,
            BudgetError::Insufficient { resource, .. } => resource,
        }
    }

    /// Consumes this error and returns its resource.
    pub fn into_resource(self) -> (resource: R)
        ensures
            resource == self.spec_resource(),
    {
        match self {
            BudgetError::LimitExceeded { resource, .. } => resource,
            BudgetError::Insufficient { resource, .. } => resource,
        }
    }

    /// Returns the cumulative limit of a budget failure, or `None` for a
    /// point-limit failure.
    pub fn limit(&self) -> (limit: Option<Q>)
        ensures
            limit == (match *self {
                BudgetError::LimitExceeded { .. } => None,
                BudgetError::Insufficient { limit, .. } => Some(limit),
            }),
    {
        match self {
            BudgetError::LimitExceeded { .. } => None,
            BudgetError::Insufficient { limit, .. } => Some(*limit),
        }
    }

    /// Returns the observation of a point-limit failure, or `None` for a
    /// cumulative-budget failure.
    pub fn observation(&self) -> (observation: Option<Observation<Q>>)
        ensures
            observation == self.spec_observation(),
    {
        match self {
            BudgetError::LimitExceeded { observed, .. } => Some(*observed),
            BudgetError::Insufficient { .. } => None,
        }
    }

    /// Returns the exact point measurement, or `None` when the observation
    /// is only a lower bound or this is a cumulative-budget failure.
    pub fn exact_observed(&self) -> (exact: Option<Q>)
        ensures
            exact == (match self.spec_observation() {
                Some(Observation::Exact(value)) => Some(value),
                _ => None::<Q>,
            }),
    {
        match self.observation() {
            Some(Observation::Exact(value)) => Some(value),
            Some(Observation::AtLeast(_)) => None,
            None => None,
        }
    }

    /// Returns the safe lower bound of a point measurement, or `None` for a
    /// cumulative-budget failure.
    pub fn observed_lower_bound(&self) -> (bound: Option<Q>)
        ensures
            bound == (match self.spec_observation() {
                Some(observed) => Some(observed.spec_lower_bound()),
                None => None::<Q>,
            }),
    {
        match self.observation() {
            Some(observed) => Some(observed.lower_bound()),
            None => None,
        }
    }

    /// Returns the configured maximum of a point-limit failure, or `None`
    /// for a cumulative-budget failure.
    pub fn maximum(&self) -> (maximum: Option<Q>)
        ensures
            maximum == (match *self {
                BudgetError::LimitExceeded { maximum, .. } => Some(maximum),
                BudgetError::Insufficient { .. } => None,
            }),
    {
        match self {
            BudgetError::LimitExceeded { maximum, .. } => Some(*maximum),
            BudgetError::Insufficient { .. } => None,
        }
    }

    /// Returns the capacity remaining before a cumulative-budget failure, or
    /// `None` for a point-limit failure.
    pub fn remaining(&self) -> (remaining: Option<Q>)
        ensures
            remaining == (match *self {
                BudgetError::LimitExceeded { .. } => None,
                BudgetError::Insufficient { remaining, .. } => Some(remaining),
            }),
    {
        match self {
            BudgetError::Insufficient { remaining, .. } => Some(*remaining),
            BudgetError::LimitExceeded { .. } => None,
        }
    }

    /// Returns the rejected request of a cumulative-budget failure, or `None`
    /// for a point-limit failure.
    pub fn requested(&self) -> (requested: Option<Q>)
        ensures
            requested == (match *self {
                BudgetError::LimitExceeded { .. } => None,
                BudgetError::Insufficient { requested, .. } => Some(requested),
            }),
    {
        match self {
            BudgetError::LimitExceeded { .. } => None,
            BudgetError::Insufficient { requested, .. } => Some(*requested),
        }
    }
}

impl<R, Q: ResourceQuantity> BudgetError<R, Q> {
    /// Returns the configured limit of either a point or a cumulative
    /// failure.
    pub fn configured_limit(&self) -> (limit: Q)
        ensures
            limit == (match *self {
                BudgetError::LimitExceeded { maximum, .. } => maximum,
                BudgetError::Insufficient { limit, .. } => limit,
            }),
    {
        match self {
            BudgetError::LimitExceeded { maximum, .. } => *maximum,
            BudgetError::Insufficient { limit, .. } => *limit,
        }
    }

    /// Returns the usage before a failed cumulative request, or `None` for a
    /// point-limit failure.
    pub fn used(&self) -> (used: Option<Q>)
        requires
            self matches BudgetError::Insufficient { limit, remaining, .. } ==> remaining.as_nat()
                <= limit.as_nat(),
        ensures
            match *self {
                BudgetError::LimitExceeded { .. } => used is None,
                BudgetError::Insufficient { limit, remaining, .. } => used is Some
                    && used->0.as_nat() == limit.as_nat() - remaining.as_nat(),
            },
    {
        match self {
            BudgetError::LimitExceeded { .. } => None,
            BudgetError::Insufficient { limit, remaining, .. } => Some(limit.subtract(*remaining)),
        }
    }
}

impl<R, Q: Copy> From<LimitExceededError<R, Q>> for BudgetError<R, Q> {
    /// Converts a precise point-limit failure into an aggregate error.
    fn from(error: LimitExceededError<R, Q>) -> (converted: Self) {
        let LimitExceededError { resource, observed, maximum } = error;
        BudgetError::LimitExceeded { resource, observed, maximum }
    }
}

impl<R, Q: Copy> vstd::std_specs::convert::FromSpecImpl<LimitExceededError<R, Q>> for BudgetError<R, Q> {
    open spec fn obeys_from_spec() -> bool {
        true
    }

    open spec fn from_spec(error: LimitExceededError<R, Q>) -> Self {
        BudgetError::from_limit_exceeded(error)
    }
}

impl<R, Q: Copy> From<InsufficientBudgetError<R, Q>> for BudgetError<R, Q> {
    /// Converts a precise cumulative-budget failure into an aggregate error.
    fn from(error: InsufficientBudgetError<R, Q>) -> (converted: Self) {
        let InsufficientBudgetError { resource, limit, remaining, requested } = error;
        BudgetError::Insufficient { resource, limit, remaining, requested }
    }
}

impl<R, Q: Copy> vstd::std_specs::convert::FromSpecImpl<InsufficientBudgetError<R, Q>> for BudgetError<R, Q> {
    open spec fn obeys_from_spec() -> bool {
        true
    }

    open spec fn from_spec(error: InsufficientBudgetError<R, Q>) -> Self {
        BudgetError::from_insufficient(error)
    }
}

} // verus!
