//! Failure of an all-or-nothing charge against a group of budgets.

use vstd::prelude::*;

use crate::resource::InsufficientBudgetError;

verus! {

/// The first budget of a group that rejected an all-or-nothing charge.
#[derive(Debug, Clone, PartialEq, Eq)]
pub struct BudgetGroupError<R, Q: Copy = u64> {
    /// Zero-based index of the first rejecting budget.
    index: usize,
    /// Structured failure returned by that budget.
    source: InsufficientBudgetError<R, Q>,
}

impl<R, Q: Copy> BudgetGroupError<R, Q> {
    /// The zero-based index of the first rejecting budget.
    pub closed spec fn spec_index(self) -> usize {
        self.index
    }

    /// The failure reported by the first rejecting budget.
    pub closed spec fn spec_source(self) -> InsufficientBudgetError<R, Q> {
        self.source
    }

    /// Creates a grouped failure for the first rejecting budget.
    pub(crate) fn new(index: usize, source: InsufficientBudgetError<R, Q>) -> (error: Self)
        ensures
            error.spec_index() == index,
            error.spec_source() == source,
    {
        Self { index, source }
    }

    /// Returns the zero-based index of the first rejecting budget.
    pub fn index(&self) -> (index: usize)
        ensures
            index == self.spec_index(),
    {
        self.index
    }

    /// Returns the failure reported by the rejecting budget.
    pub fn source_error(&self) -> (source: &InsufficientBudgetError<R, Q>)
        ensures
            *source == self.spec_source(),
    {
        &self.source
    }

    /// Consumes this error and returns the rejecting budget's failure.
    pub fn into_source_error(self) -> (source: InsufficientBudgetError<R, Q>)
        ensures
            source == self.spec_source(),
    {
        self.source
    }
}

} // verus!
