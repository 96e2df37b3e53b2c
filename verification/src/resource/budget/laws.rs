//! Properties that relate several operations on budgets and pools.

use vstd::prelude::*;

use super::availability_result;
use super::release_result;
use super::ResourceBudget;
use super::ResourcePool;
use crate::resource::InsufficientBudgetError;
use crate::resource::ResourceQuantity;
use crate::resource::ResourceReleaseError;

verus! {

/// Checking availability predicts a charge: for the same budget and amount,
/// `check_available` succeeds exactly when `try_consume` would.
pub proof fn law_check_predicts_charge<R: Clone, Q: ResourceQuantity>(
    budget: ResourceBudget<R, Q>,
    amount: Q,
    checked: Result<(), InsufficientBudgetError<R, Q>>,
    charged: Result<(), InsufficientBudgetError<R, Q>>,
)
    requires
        availability_result(
            budget.spec_resource(),
            budget.spec_limit(),
            budget.spec_remaining(),
            amount,
            checked,
        ),
        availability_result(
            budget.spec_resource(),
            budget.spec_limit(),
            budget.spec_remaining(),
            amount,
            charged,
        ),
    ensures
        checked is Ok <==> charged is Ok,
{
}

/// Two successful charges spend the same as one charge of their sum: after
/// charging `first` and then `second`, the used capacity grew by
/// `first + second`, which therefore fitted the starting balance.
pub proof fn law_charges_add_up<R, Q: ResourceQuantity>(
    start: ResourceBudget<R, Q>,
    first: Q,
    middle: ResourceBudget<R, Q>,
    second: Q,
    end: ResourceBudget<R, Q>,
)
    requires
        middle.spec_resource_limit() == start.spec_resource_limit(),
        first.as_nat() <= start.spec_remaining().as_nat(),
        middle.spec_remaining().as_nat() == start.spec_remaining().as_nat() - first.as_nat(),
        end.spec_resource_limit() == middle.spec_resource_limit(),
        second.as_nat() <= middle.spec_remaining().as_nat(),
        end.spec_remaining().as_nat() == middle.spec_remaining().as_nat() - second.as_nat(),
    ensures
        first.as_nat() + second.as_nat() <= start.spec_remaining().as_nat(),
        end.spec_remaining().as_nat() == start.spec_remaining().as_nat() - (first.as_nat()
            + second.as_nat()),
        end.spec_used() == start.spec_used() + first.as_nat() + second.as_nat(),
        end.spec_limit() == start.spec_limit(),
{
}

/// Releasing what was just acquired always succeeds and restores the pool:
/// after a successful acquisition of `amount`, a release of `amount` meets
/// no error, and once it succeeds the availability is back where it
/// started.
pub proof fn law_release_undoes_acquire<R: Clone, Q: ResourceQuantity>(
    start: ResourcePool<R, Q>,
    amount: Q,
    acquired: ResourcePool<R, Q>,
    released: ResourcePool<R, Q>,
    release: Result<(), ResourceReleaseError<R, Q>>,
)
    requires
        start.spec_in_use() >= 0,
        acquired.spec_resource_limit() == start.spec_resource_limit(),
        amount.as_nat() <= start.spec_available().as_nat(),
        acquired.spec_available().as_nat() == start.spec_available().as_nat() - amount.as_nat(),
        released.spec_resource_limit() == acquired.spec_resource_limit(),
        release_result(
            acquired.spec_resource(),
            acquired.spec_capacity(),
            acquired.spec_in_use(),
            amount,
            release,
        ),
        release is Ok ==> released.spec_available().as_nat() == acquired.spec_available().as_nat()
            + amount.as_nat(),
    ensures
        release is Ok,
        released.spec_available() == start.spec_available(),
        released.spec_in_use() == start.spec_in_use(),
{
    start.spec_available().lemma_injective(released.spec_available());
}

/// Taking what is available never overdraws: the consumed quantity is the
/// whole request when it fits and otherwise the whole balance, which is then
/// exhausted.
pub proof fn law_consume_available_is_greedy<R, Q: ResourceQuantity>(
    start: ResourceBudget<R, Q>,
    requested: Q,
    consumed: Q,
    end: ResourceBudget<R, Q>,
)
    requires
        end.spec_resource_limit() == start.spec_resource_limit(),
        consumed.as_nat() == if requested.as_nat() <= start.spec_remaining().as_nat() {
            requested.as_nat()
        } else {
            start.spec_remaining().as_nat()
        },
        end.spec_remaining().as_nat() == start.spec_remaining().as_nat() - consumed.as_nat(),
    ensures
        consumed.as_nat() <= requested.as_nat(),
        consumed.as_nat() <= start.spec_remaining().as_nat(),
        consumed.as_nat() < requested.as_nat() ==> end.spec_remaining().as_nat() == 0,
        end.spec_used() == start.spec_used() + consumed.as_nat(),
{
}

} // verus!
