//! Failures of checks that first convert a native measurement.

use vstd::prelude::*;

use super::BudgetError;
use crate::resource::QuantityConversionError;

verus! {

/// A native measurement could not be converted, or the converted value was
/// rejected by a limit or budget.
#[derive(Debug, Clone, PartialEq, Eq)]
pub enum MeasuredBudgetError<R, Q: Copy = u64> {
    /// The converted measurement was rejected.
    Budget(BudgetError<R, Q>),
    /// The measurement cannot be represented by the quantity type.
    Quantity {
        /// Resource whose accounting required the conversion.
        resource: R,
        /// Failed quantity conversion.
        source: QuantityConversionError,
    },
}

impl<R, Q: Copy> MeasuredBudgetError<R, Q> {
    /// Creates a conversion failure for `resource`.
    pub fn quantity(resource: R, source: QuantityConversionError) -> (error: Self)
        ensures
            error == (MeasuredBudgetError::<R, Q>::Quantity { resource, source }),
    {
        MeasuredBudgetError::Quantity { resource, source }
    }
}

} // verus!
