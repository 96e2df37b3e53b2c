//! Finite allowances that are spent and never returned.

use vstd::prelude::*;

use crate::resource::BudgetGroupError;
use crate::resource::InsufficientBudgetError;
use crate::resource::ResourceLimit;
use crate::resource::ResourceQuantity;

verus! {

/// A finite, non-releasable resource budget.
///
/// The budget stores its remaining capacity and only subtracts after a
/// request has been checked, so `used() == limit() - remaining()` always
/// holds and no cumulative addition can overflow. A failed charge leaves the
/// budget unchanged. An unconfigured dimension is represented by
/// `Option<ResourceBudget<R, Q>>::None`, never by an unlimited object.
#[derive(Debug, PartialEq, Eq)]
pub struct ResourceBudget<R, Q: ResourceQuantity = u64> {
    /// Finite maximum capacity of the budget.
    limit: ResourceLimit<R, Q>,
    /// Capacity that has not yet been consumed.
    remaining: Q,
}

/// The outcome of checking whether `amount` fits a budget with the given
/// resource, limit and remaining capacity: success exactly when
/// `amount <= remaining`, and otherwise a failure reporting a clone of the
/// resource, the limit, the unchanged balance and the request.
pub open spec fn availability_result<R: Clone, Q: ResourceQuantity>(
    resource: R,
    limit: Q,
    remaining: Q,
    amount: Q,
    result: Result<(), InsufficientBudgetError<R, Q>>,
) -> bool {
    match result {
        Ok(()) => amount.as_nat() <= remaining.as_nat(),
        Err(e) => {
            &&& amount.as_nat() > remaining.as_nat()
            &&& cloned(resource, e.resource)
            &&& e.limit == limit
            &&& e.remaining == remaining
            &&& e.requested == amount
        },
    }
}

impl<R, Q: ResourceQuantity> ResourceBudget<R, Q> {
    /// Remaining capacity never exceeds the limit.
    #[verifier::type_invariant]
    spec fn remaining_within_limit(self) -> bool {
        self.remaining.as_nat() <= self.limit.spec_maximum().as_nat()
    }

    /// The resource reported in this budget's failures.
    pub open spec fn spec_resource(self) -> R {
        self.spec_resource_limit().spec_resource()
    }

    /// The immutable limit configuring this budget.
    pub closed spec fn spec_resource_limit(self) -> ResourceLimit<R, Q> {
        self.limit
    }

    /// The finite capacity of this budget.
    pub open spec fn spec_limit(self) -> Q {
        self.spec_resource_limit().spec_maximum()
    }

    /// The capacity not yet consumed.
    pub closed spec fn spec_remaining(self) -> Q {
        self.remaining
    }

    /// The capacity consumed so far.
    pub open spec fn spec_used(self) -> int {
        self.spec_limit().as_nat() - self.spec_remaining().as_nat()
    }

    /// Creates a zero-used finite budget whose remaining capacity equals
    /// `limit`.
    pub fn new(resource: R, limit: Q) -> (budget: Self)
        ensures
            budget.spec_resource() == resource,
            budget.spec_limit() == limit,
            budget.spec_remaining() == limit,
    {
        Self { limit: ResourceLimit::new(resource, limit), remaining: limit }
    }

    /// Creates a zero-used budget from an immutable resource limit.
    pub fn from_limit(limit: ResourceLimit<R, Q>) -> (budget: Self)
        ensures
            budget.spec_resource_limit() == limit,
            budget.spec_resource() == limit.spec_resource(),
            budget.spec_limit() == limit.spec_maximum(),
            budget.spec_remaining() == limit.spec_maximum(),
    {
        let remaining = limit.maximum();
        Self { remaining, limit }
    }

    /// Creates a budget snapshot with a caller-provided remaining capacity,
    /// preserving the configured limit and error facts while new consumption
    /// is staged in an operation-local budget.
    pub(crate) fn from_limit_with_remaining(limit: ResourceLimit<R, Q>, remaining: Q) -> (budget:
        Self)
        requires
            remaining.as_nat() <= limit.spec_maximum().as_nat(),
        ensures
            budget.spec_resource_limit() == limit,
            budget.spec_remaining() == remaining,
    {
        Self { limit, remaining }
    }

    /// Consumes as much of a request as remains available and returns the
    /// consumed quantity, `min(requested, remaining)`. Never fails.
    pub fn consume_available(&mut self, requested: Q) -> (consumed: Q)
        ensures
            final(self).spec_resource_limit() == old(self).spec_resource_limit(),
            consumed.as_nat() == if requested.as_nat() <= old(self).spec_remaining().as_nat() {
                requested.as_nat()
            } else {
                old(self).spec_remaining().as_nat()
            },
            final(self).spec_remaining().as_nat() == old(self).spec_remaining().as_nat()
                - consumed.as_nat(),
    {
        proof {
            use_type_invariant(&*self);
        }
        let consumed = if requested.le(self.remaining) {
            requested
        } else {
            self.remaining
        };
        self.remaining = self.remaining.subtract(consumed);
        consumed
    }

    /// Returns the resource reported in this budget's failures.
    pub fn resource(&self) -> (resource: &R)
        ensures
            *resource == self.spec_resource(),
    {
        self.limit.resource()
    }

    /// Returns the immutable limit configuring this budget.
    pub fn resource_limit(&self) -> (limit: &ResourceLimit<R, Q>)
        ensures
            *limit == self.spec_resource_limit(),
    {
        &self.limit
    }

    /// Returns the finite limit.
    pub fn limit(&self) -> (limit: Q)
        ensures
            limit == self.spec_limit(),
    {
        self.limit.maximum()
    }

    /// Returns the remaining capacity, which never exceeds the limit.
    pub fn remaining(&self) -> (remaining: Q)
        ensures
            remaining == self.spec_remaining(),
            remaining.as_nat() <= self.spec_limit().as_nat(),
    {
        proof {
            use_type_invariant(self);
        }
        self.remaining
    }

    /// Returns the quantity consumed so far, `limit - remaining`.
    pub fn used(&self) -> (used: Q)
        ensures
            used.as_nat() == self.spec_used(),
    {
        proof {
            use_type_invariant(self);
        }
        self.limit.maximum().subtract(self.remaining)
    }
}

impl<R: Clone, Q: ResourceQuantity> ResourceBudget<R, Q> {
    /// Checks whether a complete consumption would fit, without changing the
    /// budget.
    pub fn check_available(&self, amount: Q) -> (result: Result<(), InsufficientBudgetError<R, Q>>)
        ensures
            availability_result(
                self.spec_resource(),
                self.spec_limit(),
                self.spec_remaining(),
                amount,
                result,
            ),
    {
        if amount.le(self.remaining) {
            Ok(())
        } else {
            Err(
                InsufficientBudgetError {
                    resource: self.limit.resource().clone(),
                    limit: self.limit.maximum(),
                    remaining: self.remaining,
                    requested: amount,
                },
            )
        }
    }

    /// Consumes `amount` atomically when it fits.
    ///
    /// On success the remaining capacity drops by exactly `amount`; on
    /// failure the budget is unchanged and the error reports the balance
    /// before the request.
    pub fn try_consume(&mut self, amount: Q) -> (result: Result<(), InsufficientBudgetError<R, Q>>)
        ensures
            final(self).spec_resource_limit() == old(self).spec_resource_limit(),
            availability_result(
                old(self).spec_resource(),
                old(self).spec_limit(),
                old(self).spec_remaining(),
                amount,
                result,
            ),
            result is Ok ==> final(self).spec_remaining().as_nat() == old(
                self,
            ).spec_remaining().as_nat() - amount.as_nat(),
            result is Err ==> *final(self) == *old(self),
    {
        match self.check_available(amount) {
            Ok(()) => {},
            Err(error) => return Err(error),
        }
        proof {
            use_type_invariant(&*self);
        }
        self.remaining = self.remaining.subtract(amount);
        Ok(())
    }

    /// Charges `amount` to every budget of a group, all or nothing.
    ///
    /// When every budget can afford `amount`, each remaining capacity drops
    /// by exactly `amount`. Otherwise no budget changes and the error names
    /// the first budget that could not afford it.
    pub fn try_consume_all(budgets: &mut Vec<ResourceBudget<R, Q>>, amount: Q) -> (result: Result<
        (),
        BudgetGroupError<R, Q>,
    >)
        ensures
            final(budgets)@.len() == old(budgets)@.len(),
            match result {
                Ok(()) => forall|j: int|
                    0 <= j < old(budgets)@.len() ==> {
                        &&& amount.as_nat() <= #[trigger] old(budgets)@[j].spec_remaining().as_nat()
                        &&& final(budgets)@[j].spec_resource_limit() == old(
                            budgets,
                        )@[j].spec_resource_limit()
                        &&& final(budgets)@[j].spec_remaining().as_nat() == old(
                            budgets,
                        )@[j].spec_remaining().as_nat() - amount.as_nat()
                    },
                Err(e) => {
                    let i = e.spec_index() as int;
                    &&& final(budgets)@ == old(budgets)@
                    &&& 0 <= i < old(budgets)@.len()
                    &&& forall|j: int|
                        0 <= j < i ==> amount.as_nat() <= #[trigger] old(
                            budgets,
                        )@[j].spec_remaining().as_nat()
                    &&& availability_result(
                        old(budgets)@[i].spec_resource(),
                        old(budgets)@[i].spec_limit(),
                        old(budgets)@[i].spec_remaining(),
                        amount,
                        Err(e.spec_source()),
                    )
                },
            },
    {
        let count = budgets.len();
        let mut index: usize = 0;
        while index < count
            invariant
                count == budgets@.len(),
                index <= count,
                budgets@ == old(budgets)@,
                forall|j: int|
                    0 <= j < index ==> amount.as_nat() <= #[trigger] budgets@[j].spec_remaining().as_nat(),
            decreases count - index,
        {
            match budgets[index].check_available(amount) {
                Ok(()) => {},
                Err(error) => {
                    return Err(BudgetGroupError::new(index, error));
                },
            }
            index = index + 1;
        }
        let mut charged: usize = 0;
        while charged < count
            invariant
                count == budgets@.len(),
                count == old(budgets)@.len(),
                charged <= count,
                forall|j: int|
                    0 <= j < count ==> amount.as_nat() <= #[trigger] old(
                        budgets,
                    )@[j].spec_remaining().as_nat(),
                forall|j: int|
                    charged <= j < count ==> #[trigger] budgets@[j] == old(budgets)@[j],
                forall|j: int|
                    0 <= j < charged ==> {
                        &&& (#[trigger] budgets@[j]).spec_resource_limit() == old(
                            budgets,
                        )@[j].spec_resource_limit()
                        &&& budgets@[j].spec_remaining().as_nat() == old(
                            budgets,
                        )@[j].spec_remaining().as_nat() - amount.as_nat()
                    },
            decreases count - charged,
        {
            let outcome = budgets[charged].try_consume(amount);
            match outcome {
                Ok(()) => {},
                Err(_) => {
                    assert(false);
                },
            }
            charged = charged + 1;
        }
        Ok(())
    }
}

} // verus!
