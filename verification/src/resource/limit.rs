//! Immutable inclusive maxima bound to a resource identity.

use vstd::prelude::*;

use crate::resource::BudgetError;
use crate::resource::LimitExceededError;
use crate::resource::MeasuredBudgetError;
use crate::resource::Observation;
use crate::resource::QuantityConversionError;
use crate::resource::ResourceQuantity;

verus! {

/// An inclusive immutable maximum for one resource measurement.
///
/// The resource value is reported back in every failure, so callers can tell
/// which of several limits rejected a measurement.
#[derive(Debug, Clone, Copy, PartialEq, Eq, Hash)]
pub struct ResourceLimit<R, Q: Copy = u64> {
    /// Resource bound to this limit.
    resource: R,
    /// Inclusive maximum accepted by this limit.
    maximum: Q,
}

/// The outcome of checking `actual` against `limit`: success exactly when
/// `actual <= limit.maximum`, and otherwise an exact observation of `actual`
/// carrying a clone of the limit's resource.
pub open spec fn limit_check_result<R: Clone, Q: ResourceQuantity>(
    limit: ResourceLimit<R, Q>,
    actual: Q,
    result: Result<(), LimitExceededError<R, Q>>,
) -> bool {
    match result {
        Ok(()) => actual.as_nat() <= limit.spec_maximum().as_nat(),
        Err(e) => {
            &&& actual.as_nat() > limit.spec_maximum().as_nat()
            &&& cloned(limit.spec_resource(), e.resource)
            &&& e.observed == Observation::Exact(actual)
            &&& e.maximum == limit.spec_maximum()
        },
    }
}

impl<R, Q: Copy> ResourceLimit<R, Q> {
    /// The resource reported when this limit rejects a measurement.
    pub closed spec fn spec_resource(self) -> R {
        self.resource
    }

    /// The inclusive maximum accepted by this limit.
    pub closed spec fn spec_maximum(self) -> Q {
        self.maximum
    }

    /// The limit of `maximum` units of `resource`.
    pub closed spec fn spec_new(resource: R, maximum: Q) -> Self {
        ResourceLimit { resource, maximum }
    }

    /// Creates an immutable limit accepting measurements up to and including
    /// `maximum`.
    pub fn new(resource: R, maximum: Q) -> (limit: Self)
        ensures
            limit == Self::spec_new(resource, maximum),
            limit.spec_resource() == resource,
            limit.spec_maximum() == maximum,
    {
        Self { resource, maximum }
    }

    /// Returns the resource bound to this limit.
    pub fn resource(&self) -> (resource: &R)
        ensures
            *resource == self.spec_resource(),
    {
        &self.resource
    }

    /// Returns this limit's inclusive maximum.
    pub fn maximum(&self) -> (maximum: Q)
        ensures
            maximum == self.spec_maximum(),
    {
        self.maximum
    }
}

impl<R: Clone, Q: ResourceQuantity> ResourceLimit<R, Q> {
    /// Checks whether `actual` is within the inclusive maximum.
    ///
    /// Succeeds exactly when `actual <= maximum`; otherwise reports the
    /// resource, the exact observation and the maximum. The limit is never
    /// changed.
    pub fn check(&self, actual: Q) -> (result: Result<(), LimitExceededError<R, Q>>)
        ensures
            limit_check_result(*self, actual, result),
    {
        if actual.le(self.maximum) {
            Ok(())
        } else {
            Err(LimitExceededError {
                resource: self.resource.clone(),
                observed: Observation::Exact(actual),
                maximum: self.maximum,
            })
        }
    }

    /// Checks a machine-sized measurement without truncating it.
    ///
    /// Fails with [`MeasuredBudgetError::Quantity`] when `actual` cannot be
    /// represented by `Q`, and with [`MeasuredBudgetError::Budget`] when the
    /// converted value exceeds the maximum.
    pub fn check_usize(&self, actual: usize) -> (result: Result<(), MeasuredBudgetError<R, Q>>)
        ensures
            match result {
                Ok(()) => actual <= Q::max_nat() && actual <= self.spec_maximum().as_nat(),
                Err(MeasuredBudgetError::Quantity { resource, source }) => {
                    &&& actual > Q::max_nat()
                    &&& cloned(self.spec_resource(), resource)
                    &&& source.spec_measurement() == crate::resource::QuantityMeasurement::Usize(
                        actual,
                    )
                    &&& source.spec_target() == Q::quantity_name()
                },
                Err(MeasuredBudgetError::Budget(e)) => {
                    &&& actual <= Q::max_nat()
                    &&& actual > self.spec_maximum().as_nat()
                    &&& e matches BudgetError::LimitExceeded { resource, observed, maximum }
                    &&& cloned(self.spec_resource(), resource)
                    &&& observed matches Observation::Exact(q)
                    &&& q.as_nat() == actual
                    &&& maximum == self.spec_maximum()
                },
            },
    {
        let converted = match Q::try_from_usize(actual) {
            Ok(value) => value,
            Err(source) => {
                return Err(MeasuredBudgetError::quantity(self.resource.clone(), source));
            },
        };
        match self.check(converted) {
            Ok(()) => Ok(()),
            Err(error) => Err(MeasuredBudgetError::Budget(BudgetError::from(error))),
        }
    }

    /// Checks a 64-bit measurement without truncating it.
    ///
    /// Fails with [`MeasuredBudgetError::Quantity`] when `actual` cannot be
    /// represented by `Q`, and with [`MeasuredBudgetError::Budget`] when the
    /// converted value exceeds the maximum.
    pub fn check_u64(&self, actual: u64) -> (result: Result<(), MeasuredBudgetError<R, Q>>)
        ensures
            match result {
                Ok(()) => actual <= Q::max_nat() && actual <= self.spec_maximum().as_nat(),
                Err(MeasuredBudgetError::Quantity { resource, source }) => {
                    &&& actual > Q::max_nat()
                    &&& cloned(self.spec_resource(), resource)
                    &&& source.spec_measurement() == crate::resource::QuantityMeasurement::U64(
                        actual,
                    )
                    &&& source.spec_target() == Q::quantity_name()
                },
                Err(MeasuredBudgetError::Budget(e)) => {
                    &&& actual <= Q::max_nat()
                    &&& actual > self.spec_maximum().as_nat()
                    &&& e matches BudgetError::LimitExceeded { resource, observed, maximum }
                    &&& cloned(self.spec_resource(), resource)
                    &&& observed matches Observation::Exact(q)
                    &&& q.as_nat() == actual
                    &&& maximum == self.spec_maximum()
                },
            },
    {
        let converted = match Q::try_from_u64(actual) {
            Ok(value) => value,
            Err(source) => {
                return Err(MeasuredBudgetError::quantity(self.resource.clone(), source));
            },
        };
        match self.check(converted) {
            Ok(()) => Ok(()),
            Err(error) => Err(MeasuredBudgetError::Budget(BudgetError::from(error))),
        }
    }
}

/// The outcome of checking `actual` against an optional limit: an
/// unconfigured limit accepts everything; a configured one behaves as
/// [`ResourceLimit::check`], its failure converted into a [`BudgetError`].
pub open spec fn optional_limit_result<R: Clone, Q: ResourceQuantity>(
    limit: Option<ResourceLimit<R, Q>>,
    actual: Q,
    result: Result<(), BudgetError<R, Q>>,
) -> bool {
    match limit {
        None => result is Ok,
        Some(limit) => match result {
            Ok(()) => actual.as_nat() <= limit.spec_maximum().as_nat(),
            Err(e) => {
                &&& actual.as_nat() > limit.spec_maximum().as_nat()
                &&& e matches BudgetError::LimitExceeded { resource, observed, maximum }
                &&& cloned(limit.spec_resource(), resource)
                &&& observed == Observation::Exact(actual)
                &&& maximum == limit.spec_maximum()
            },
        },
    }
}

/// Checks an optional point limit: an unconfigured limit accepts every
/// measurement, a configured one behaves as [`ResourceLimit::check`].
pub(crate) fn check_limit<R: Clone, Q: ResourceQuantity>(
    limit: Option<&ResourceLimit<R, Q>>,
    actual: Q,
) -> (result: Result<(), BudgetError<R, Q>>)
    ensures
        optional_limit_result(
            match limit {
                Some(l) => Some(*l),
                None => None,
            },
            actual,
            result,
        ),
{
    match limit {
        Some(limit) => match limit.check(actual) {
            Ok(()) => Ok(()),
            Err(error) => Err(BudgetError::from(error)),
        },
        None => Ok(()),
    }
}

} // verus!
