//! The first failure a budgeted writer observed.

use std::collections::TryReserveError;

use vstd::prelude::*;

use crate::resource::InsufficientBudgetError;
use crate::resource::QuantityConversionError;
use crate::resource::ResourceQuantity;
use super::BudgetedStringError;

verus! {

/// The first writer-side failure, retained for deterministic error
/// precedence.
pub enum WriterFailure<R, Q: Copy> {
    /// The output exceeded the remaining budget.
    Budget(InsufficientBudgetError<R, Q>),
    /// The output length could not be represented by the budget quantity.
    Quantity {
        /// Resource whose accounting required the conversion.
        resource: R,
        /// Failed quantity conversion.
        source: QuantityConversionError,
    },
    /// The output buffer could not reserve the requested capacity.
    Allocation(TryReserveError),
    /// The buffered output length overflowed `usize`.
    LengthOverflow,
}

/// The error a rendering reports for a writer that recorded `failure`.
pub open spec fn failure_error<R, Q: Copy, E>(failure: WriterFailure<R, Q>) -> BudgetedStringError<
    R,
    E,
    Q,
> {
    match failure {
        WriterFailure::Budget(error) => BudgetedStringError::Budget(error),
        WriterFailure::Quantity { resource, source } => BudgetedStringError::Quantity {
            resource,
            source,
        },
        WriterFailure::Allocation(source) => BudgetedStringError::Allocation(source),
        WriterFailure::LengthOverflow => BudgetedStringError::LengthOverflow,
    }
}

/// Whether `failure` is what a writer over `budget` records when an append
/// that would bring its staged length to `total` is refused: a total beyond
/// `usize` overflows; otherwise a total the quantity cannot represent is a
/// conversion failure; otherwise a total beyond the remaining capacity is a
/// budget failure reporting that total; otherwise the buffer could not grow.
pub open spec fn append_refusal<R: Clone, Q: ResourceQuantity>(
    budget: crate::resource::ResourceBudget<R, Q>,
    total: nat,
    failure: WriterFailure<R, Q>,
) -> bool {
    if total > usize::MAX {
        failure is LengthOverflow
    } else if total > Q::max_nat() {
        &&& failure matches WriterFailure::Quantity { resource, source }
        &&& cloned(budget.spec_resource(), resource)
        &&& source.spec_measurement() == crate::resource::QuantityMeasurement::Usize(
            total as usize,
        )
        &&& source.spec_target() == Q::quantity_name()
    } else if total > budget.spec_remaining().as_nat() {
        &&& failure matches WriterFailure::Budget(error)
        &&& cloned(budget.spec_resource(), error.resource)
        &&& error.limit == budget.spec_limit()
        &&& error.remaining == budget.spec_remaining()
        &&& error.requested.as_nat() == total
    } else {
        failure is Allocation
    }
}

} // verus!
