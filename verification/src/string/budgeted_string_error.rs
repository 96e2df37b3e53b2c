//! Failures of transactional string rendering.

use std::collections::TryReserveError;
use std::string::FromUtf8Error;

use vstd::prelude::*;

use crate::resource::InsufficientBudgetError;
use crate::resource::QuantityConversionError;

verus! {

/// The error `String::from_utf8` reports for bytes that are not UTF-8.
#[verifier::external_type_specification]
#[verifier::external_body]
pub struct ExFromUtf8Error(FromUtf8Error);

/// Why a transactional string rendering was rejected. No variant charges the
/// budget.
#[derive(Debug)]
#[must_use]
pub enum BudgetedStringError<R, E, Q: Copy = u64> {
    /// The rendered prefix exceeded the remaining resource budget.
    Budget(InsufficientBudgetError<R, Q>),
    /// The output buffer could not reserve the requested capacity.
    Allocation(TryReserveError),
    /// The rendered UTF-8 byte length cannot be represented by the budget
    /// quantity.
    Quantity {
        /// Resource whose accounting required the conversion.
        resource: R,
        /// Failed quantity conversion.
        source: QuantityConversionError,
    },
    /// The renderer returned an error unrelated to the budget writer.
    Render(E),
    /// The renderer produced bytes that are not valid UTF-8.
    InvalidUtf8(FromUtf8Error),
    /// The rendered byte length overflowed `usize`.
    LengthOverflow,
}

} // verus!
