//! Finite capacity that callers acquire and later return.

use vstd::prelude::*;

use crate::resource::InsufficientBudgetError;
use crate::resource::ResourceLimit;
use crate::resource::ResourceQuantity;
use crate::resource::ResourceReleaseError;

verus! {

/// In-memory accounting of a finite, releasable capacity.
///
/// `available() + in_use() == capacity()` always holds. Acquisition and
/// release either succeed completely or leave the pool unchanged. The pool
/// does not wait, synchronize access, issue permits or enforce fairness.
#[derive(Debug, PartialEq, Eq)]
pub struct ResourcePool<R, Q: ResourceQuantity = u64> {
    /// Finite total capacity of the pool.
    limit: ResourceLimit<R, Q>,
    /// Capacity currently available for acquisition.
    available: Q,
}

/// The outcome of releasing `amount` into a pool whose resource, capacity
/// and occupancy are given: success exactly when `amount <= in_use`, and
/// otherwise a failure reporting a clone of the resource, the capacity, the
/// occupancy and the request.
pub open spec fn release_result<R: Clone, Q: ResourceQuantity>(
    resource: R,
    capacity: Q,
    in_use: int,
    amount: Q,
    result: Result<(), ResourceReleaseError<R, Q>>,
) -> bool {
    match result {
        Ok(()) => amount.as_nat() <= in_use,
        Err(ResourceReleaseError::InvalidRelease { resource: r, limit, in_use: u, requested }) => {
            &&& amount.as_nat() > in_use
            &&& cloned(resource, r)
            &&& limit == capacity
            &&& u.as_nat() == in_use
            &&& requested == amount
        },
    }
}

impl<R, Q: ResourceQuantity> ResourcePool<R, Q> {
    /// Available capacity never exceeds the total capacity.
    #[verifier::type_invariant]
    spec fn available_within_capacity(self) -> bool {
        self.available.as_nat() <= self.limit.spec_maximum().as_nat()
    }

    /// The resource reported in this pool's failures.
    pub open spec fn spec_resource(self) -> R {
        self.spec_resource_limit().spec_resource()
    }

    /// The immutable limit configuring this pool.
    pub closed spec fn spec_resource_limit(self) -> ResourceLimit<R, Q> {
        self.limit
    }

    /// The total finite capacity.
    pub open spec fn spec_capacity(self) -> Q {
        self.spec_resource_limit().spec_maximum()
    }

    /// The capacity currently available for acquisition.
    pub closed spec fn spec_available(self) -> Q {
        self.available
    }

    /// The capacity currently acquired.
    pub open spec fn spec_in_use(self) -> int {
        self.spec_capacity().as_nat() - self.spec_available().as_nat()
    }

    /// Creates an entirely available pool of `limit` units.
    pub fn new(resource: R, limit: Q) -> (pool: Self)
        ensures
            pool.spec_resource() == resource,
            pool.spec_capacity() == limit,
            pool.spec_available() == limit,
    {
        Self { limit: ResourceLimit::new(resource, limit), available: limit }
    }

    /// Creates an entirely available pool from an immutable resource limit.
    pub fn from_limit(limit: ResourceLimit<R, Q>) -> (pool: Self)
        ensures
            pool.spec_resource_limit() == limit,
            pool.spec_resource() == limit.spec_resource(),
            pool.spec_capacity() == limit.spec_maximum(),
            pool.spec_available() == limit.spec_maximum(),
    {
        let available = limit.maximum();
        Self { limit, available }
    }

    /// Returns the resource reported in this pool's failures.
    pub fn resource(&self) -> (resource: &R)
        ensures
            *resource == self.spec_resource(),
    {
        self.limit.resource()
    }

    /// Returns the immutable limit configuring this pool.
    pub fn resource_limit(&self) -> (limit: &ResourceLimit<R, Q>)
        ensures
            *limit == self.spec_resource_limit(),
    {
        &self.limit
    }

    /// Returns the total finite capacity.
    pub fn capacity(&self) -> (capacity: Q)
        ensures
            capacity == self.spec_capacity(),
    {
        self.limit.maximum()
    }

    /// Returns the capacity currently available, never above the capacity.
    pub fn available(&self) -> (available: Q)
        ensures
            available == self.spec_available(),
            available.as_nat() <= self.spec_capacity().as_nat(),
    {
        proof {
            use_type_invariant(self);
        }
        self.available
    }

    /// Returns the capacity currently acquired, `capacity - available`.
    pub fn in_use(&self) -> (in_use: Q)
        ensures
            in_use.as_nat() == self.spec_in_use(),
            0 <= self.spec_in_use() <= self.spec_capacity().as_nat(),
    {
        proof {
            use_type_invariant(self);
        }
        self.limit.maximum().subtract(self.available)
    }
}

impl<R: Clone, Q: ResourceQuantity> ResourcePool<R, Q> {
    /// Acquires `amount` units when they are available.
    ///
    /// On success availability drops by exactly `amount`; on failure the pool
    /// is unchanged and the error reports the availability before the
    /// request.
    pub fn try_acquire(&mut self, amount: Q) -> (result: Result<(), InsufficientBudgetError<R, Q>>)
        ensures
            final(self).spec_resource_limit() == old(self).spec_resource_limit(),
            crate::resource::availability_result(
                old(self).spec_resource(),
                old(self).spec_capacity(),
                old(self).spec_available(),
                amount,
                result,
            ),
            result is Ok ==> final(self).spec_available().as_nat() == old(
                self,
            ).spec_available().as_nat() - amount.as_nat(),
            result is Err ==> *final(self) == *old(self),
    {
        proof {
            use_type_invariant(&*self);
        }
        if !amount.le(self.available) {
            return Err(
                InsufficientBudgetError {
                    resource: self.limit.resource().clone(),
                    limit: self.limit.maximum(),
                    remaining: self.available,
                    requested: amount,
                },
            );
        }
        self.available = self.available.subtract(amount);
        Ok(())
    }

    /// Returns `amount` previously acquired units to the pool.
    ///
    /// On success availability grows by exactly `amount`; a release larger
    /// than the current occupancy fails and leaves the pool unchanged.
    pub fn release(&mut self, amount: Q) -> (result: Result<(), ResourceReleaseError<R, Q>>)
        ensures
            final(self).spec_resource_limit() == old(self).spec_resource_limit(),
            release_result(
                old(self).spec_resource(),
                old(self).spec_capacity(),
                old(self).spec_in_use(),
                amount,
                result,
            ),
            result is Ok ==> final(self).spec_available().as_nat() == old(
                self,
            ).spec_available().as_nat() + amount.as_nat(),
            result is Err ==> *final(self) == *old(self),
    {
        proof {
            use_type_invariant(&*self);
        }
        let in_use = self.in_use();
        if !amount.le(in_use) {
            return Err(
                ResourceReleaseError::InvalidRelease {
                    resource: self.limit.resource().clone(),
                    limit: self.limit.maximum(),
                    in_use,
                    requested: amount,
                },
            );
        }
        match self.available.checked_add(amount) {
            Some(next) => {
                self.available = next;
            },
            None => {
                // `available + amount <= capacity`, so the sum always fits.
                proof {
                    self.limit.spec_maximum().lemma_in_range();
                    assert(false);
                }
            },
        }
        Ok(())
    }
}

} // verus!
