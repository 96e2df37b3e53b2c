//! Failure of returning capacity to a pool.

use vstd::prelude::*;

verus! {

/// A pool rejected a release.
#[non_exhaustive]
#[derive(Debug, Clone, PartialEq, Eq)]
pub enum ResourceReleaseError<R, Q: Copy = u64> {
    /// A release request exceeded the amount currently in use.
    InvalidRelease {
        /// Resource associated with the failed release request.
        resource: R,
        /// Configured finite limit.
        limit: Q,
        /// Quantity in use before the failed release.
        in_use: Q,
        /// Quantity requested by the failed operation.
        requested: Q,
    },
}

impl<R, Q: Copy> ResourceReleaseError<R, Q> {
    /// Returns the resource associated with this failure.
    pub fn resource(&self) -> (resource: &R)
        ensures
            *resource == self->resource,
    {
        match self {
            ResourceReleaseError::InvalidRelease { resource, .. } => resource,
        }
    }

    /// Consumes this error and returns its resource.
    pub fn into_resource(self) -> (resource: R)
        ensures
            resource == self->resource,
    {
        match self {
            ResourceReleaseError::InvalidRelease { resource, .. } => resource,
        }
    }

    /// Returns the finite pool limit.
    pub fn limit(&self) -> (limit: Q)
        ensures
            limit == self->limit,
    {
        match self {
            ResourceReleaseError::InvalidRelease { limit, .. } => *limit,
        }
    }

    /// Returns the amount in use before the invalid release.
    pub fn in_use(&self) -> (in_use: Q)
        ensures
            in_use == self->in_use,
    {
        match self {
            ResourceReleaseError::InvalidRelease { in_use, .. } => *in_use,
        }
    }

    /// Returns the requested release amount.
    pub fn requested(&self) -> (requested: Q)
        ensures
            requested == self->requested,
    {
        match self {
            ResourceReleaseError::InvalidRelease { requested, .. } => *requested,
        }
    }
}

} // verus!
