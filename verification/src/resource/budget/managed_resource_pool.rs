//! A shared, synchronized pool handing out permits that own capacity.

use std::sync::Arc;

use vstd::prelude::*;
use vstd::rwlock::RwLock;

use crate::resource::InsufficientBudgetError;
use crate::resource::ResourceLimit;
use crate::resource::ResourceQuantity;

verus! {

/// Calls `Arc::clone`, which per its documentation returns a new pointer to
/// the same allocation: the clone denotes the same shared value.
#[verifier::external_body]
fn share<T>(shared: &Arc<T>) -> (clone: Arc<T>)
    ensures
        clone == *shared,
{
    Arc::clone(shared)
}

/// Synchronized state shared by every pool handle and outstanding permit.
#[verifier::reject_recursive_types(Q)]
pub(crate) struct ManagedResourcePoolInner<R, Q: ResourceQuantity> {
    /// Immutable resource limit shared by all handles and permits.
    pub(crate) limit: ResourceLimit<R, Q>,
    /// Capacity that is not currently owned by a permit.
    available: RwLock<Q, spec_fn(Q) -> bool>,
}

impl<R, Q: ResourceQuantity> ManagedResourcePoolInner<R, Q> {
    /// The immutable limit shared by all handles and permits.
    pub(crate) closed spec fn spec_limit(self) -> ResourceLimit<R, Q> {
        self.limit
    }

    /// The lock only ever holds availabilities within the capacity.
    #[verifier::type_invariant]
    spec fn lock_holds_capacity_bound(self) -> bool {
        forall|value: Q|
            #![trigger self.available.inv(value)]
            self.available.inv(value) <==> value.as_nat() <= self.limit.spec_maximum().as_nat()
    }

    /// Creates synchronized state with all capacity available.
    pub(crate) fn new(limit: ResourceLimit<R, Q>) -> (inner: Self)
        ensures
            inner.spec_limit() == limit,
    {
        let available = limit.maximum();
        let ghost capacity = limit.spec_maximum().as_nat();
        let lock = RwLock::new(available, Ghost(|value: Q| value.as_nat() <= capacity));
        Self { limit, available: lock }
    }

    /// Reads the current availability, which never exceeds the capacity.
    pub(crate) fn lock_available(&self) -> (available: Q)
        ensures
            available.as_nat() <= self.spec_limit().spec_maximum().as_nat(),
    {
        proof {
            use_type_invariant(self);
        }
        let handle = self.available.acquire_read();
        let available = *handle.borrow();
        handle.release_read();
        available
    }

    /// Takes `amount` from the availability when it fits, and otherwise
    /// reports the availability that was observed. An amount beyond the
    /// capacity never fits.
    pub(crate) fn take(&self, amount: Q) -> (outcome: Result<(), Q>)
        ensures
            match outcome {
                Ok(()) => amount.as_nat() <= self.spec_limit().spec_maximum().as_nat(),
                Err(observed) => amount.as_nat() > observed.as_nat() && observed.as_nat()
                    <= self.spec_limit().spec_maximum().as_nat(),
            },
    {
        proof {
            use_type_invariant(self);
        }
        let (available, handle) = self.available.acquire_write();
        if amount.le(available) {
            let next = available.subtract(amount);
            handle.release_write(next);
            Ok(())
        } else {
            handle.release_write(available);
            Err(available)
        }
    }

    /// Returns capacity acquired by exactly one permit. Should the sum ever
    /// pass the capacity, availability is capped at the capacity instead.
    pub(crate) fn release(&self, amount: Q) {
        proof {
            use_type_invariant(self);
        }
        let capacity = self.limit.maximum();
        let (available, handle) = self.available.acquire_write();
        let next = match available.checked_add(amount) {
            Some(next) => if next.le(capacity) {
                next
            } else {
                capacity
            },
            None => capacity,
        };
        handle.release_write(next);
    }
}

/// A shared handle to a finite pool whose capacity is returned when permits
/// are released.
///
/// Cloning the handle shares the same capacity; it never duplicates it.
#[verifier::reject_recursive_types(Q)]
pub struct ManagedResourcePool<R, Q: ResourceQuantity = u64> {
    /// Synchronized capacity shared by every handle and outstanding permit.
    inner: Arc<ManagedResourcePoolInner<R, Q>>,
}

/// Capacity acquired from a [`ManagedResourcePool`], owned until released.
///
/// Capacity returns to the pool through [`ManagedResourcePermit::release`];
/// a permit dropped without being released keeps its capacity out of the
/// pool.
#[verifier::reject_recursive_types(Q)]
#[must_use]
pub struct ManagedResourcePermit<R, Q: ResourceQuantity = u64> {
    /// Shared state receiving this permit's quantity on release.
    inner: Option<Arc<ManagedResourcePoolInner<R, Q>>>,
    /// Quantity owned by this permit.
    amount: Q,
}

impl<R, Q: ResourceQuantity> ManagedResourcePermit<R, Q> {
    /// The resource of the pool this permit was acquired from.
    pub closed spec fn spec_resource(self) -> R {
        self.inner->0.spec_limit().spec_resource()
    }

    /// The quantity owned by this permit.
    pub closed spec fn spec_amount(self) -> Q {
        self.amount
    }

    /// A live permit still refers to the pool it was acquired from.
    pub closed spec fn is_live(self) -> bool {
        self.inner is Some
    }

    /// Creates a permit for capacity already taken from `inner`.
    fn new(inner: Arc<ManagedResourcePoolInner<R, Q>>, amount: Q) -> (permit: Self)
        ensures
            permit.is_live(),
            permit.spec_amount() == amount,
            permit.spec_resource() == inner.spec_limit().spec_resource(),
    {
        Self { inner: Some(inner), amount }
    }

    /// Returns the resource whose capacity this permit owns.
    pub fn resource(&self) -> (resource: &R)
        requires
            self.is_live(),
        ensures
            *resource == self.spec_resource(),
    {
        match &self.inner {
            Some(inner) => inner.limit.resource(),
            None => vstd::pervasive::unreached(),
        }
    }

    /// Returns the quantity owned by this permit.
    pub fn amount(&self) -> (amount: Q)
        ensures
            amount == self.spec_amount(),
    {
        self.amount
    }

    /// Returns this permit's capacity to its pool. Consuming the permit
    /// makes a second release impossible.
    pub fn release(self) {
        let mut permit = self;
        permit.release_inner();
    }

    /// Returns the capacity once and leaves nothing to return afterwards.
    fn release_inner(&mut self)
        ensures
            !final(self).is_live(),
            final(self).spec_amount() == old(self).spec_amount(),
    {
        let inner = self.inner.take();
        match inner {
            Some(inner) => inner.release(self.amount),
            None => {},
        }
    }
}

impl<R, Q: ResourceQuantity> Clone for ManagedResourcePool<R, Q> {
    /// Clones the shared handle without duplicating capacity.
    fn clone(&self) -> (handle: Self)
        ensures
            handle == *self,
    {
        Self { inner: share(&self.inner) }
    }
}

impl<R, Q: ResourceQuantity> ManagedResourcePool<R, Q> {
    /// The immutable limit configuring this pool.
    pub closed spec fn spec_resource_limit(self) -> ResourceLimit<R, Q> {
        self.inner.spec_limit()
    }

    /// Creates a managed pool with `limit` units available.
    pub fn new(resource: R, limit: Q) -> (pool: Self)
        ensures
            pool.spec_resource_limit().spec_resource() == resource,
            pool.spec_resource_limit().spec_maximum() == limit,
    {
        Self::from_limit(ResourceLimit::new(resource, limit))
    }

    /// Creates a managed pool from an immutable resource limit, with all of
    /// its capacity available.
    pub fn from_limit(limit: ResourceLimit<R, Q>) -> (pool: Self)
        ensures
            pool.spec_resource_limit() == limit,
    {
        Self { inner: Arc::new(ManagedResourcePoolInner::new(limit)) }
    }

    /// Returns the resource associated with this pool.
    pub fn resource(&self) -> (resource: &R)
        ensures
            *resource == self.spec_resource_limit().spec_resource(),
    {
        self.inner.limit.resource()
    }

    /// Returns the immutable limit configuring this pool.
    pub fn resource_limit(&self) -> (limit: &ResourceLimit<R, Q>)
        ensures
            *limit == self.spec_resource_limit(),
    {
        &self.inner.limit
    }

    /// Returns the total finite capacity.
    pub fn capacity(&self) -> (capacity: Q)
        ensures
            capacity == self.spec_resource_limit().spec_maximum(),
    {
        self.inner.limit.maximum()
    }

    /// Returns the capacity not currently owned by permits, as observed at
    /// the moment of the call.
    pub fn available(&self) -> (available: Q)
        ensures
            available.as_nat() <= self.spec_resource_limit().spec_maximum().as_nat(),
    {
        self.inner.lock_available()
    }

    /// Returns the capacity currently owned by permits, as observed at the
    /// moment of the call.
    pub fn in_use(&self) -> (in_use: Q)
        ensures
            in_use.as_nat() <= self.spec_resource_limit().spec_maximum().as_nat(),
    {
        let available = self.available();
        self.capacity().subtract(available)
    }
}

impl<R: Clone, Q: ResourceQuantity> ManagedResourcePool<R, Q> {
    /// Acquires `amount` units and returns a permit that owns them.
    ///
    /// A permit always owns exactly the requested amount. A failure leaves
    /// the shared pool unchanged and reports the availability observed, which
    /// was smaller than the request.
    pub fn try_acquire(&self, amount: Q) -> (result: Result<
        ManagedResourcePermit<R, Q>,
        InsufficientBudgetError<R, Q>,
    >)
        ensures
            match result {
                Ok(permit) => {
                    &&& amount.as_nat() <= self.spec_resource_limit().spec_maximum().as_nat()
                    &&& permit.is_live()
                    &&& permit.spec_amount() == amount
                    &&& permit.spec_resource() == self.spec_resource_limit().spec_resource()
                },
                Err(e) => {
                    &&& cloned(self.spec_resource_limit().spec_resource(), e.resource)
                    &&& e.limit == self.spec_resource_limit().spec_maximum()
                    &&& e.requested == amount
                    &&& e.remaining.as_nat() < amount.as_nat()
                    &&& e.remaining.as_nat() <= e.limit.as_nat()
                },
            },
    {
        match self.inner.take(amount) {
            Ok(()) => Ok(ManagedResourcePermit::new(share(&self.inner), amount)),
            Err(remaining) => Err(
                InsufficientBudgetError {
                    resource: self.resource().clone(),
                    limit: self.capacity(),
                    remaining,
                    requested: amount,
                },
            ),
        }
    }
}

} // verus!
