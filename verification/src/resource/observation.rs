//! Exact or lower-bound observations of a point measurement.

use vstd::prelude::*;

verus! {

/// Precision of an observed point measurement.
///
/// A measurement is either known exactly, or only a safe lower bound is known
/// (for example when scanning stopped as soon as the limit was passed).
#[derive(Debug, Clone, Copy, PartialEq, Eq, Hash)]
pub enum Observation<Q> {
    /// The measured quantity is exact.
    Exact(Q),
    /// The measured quantity is at least the contained lower bound.
    AtLeast(Q),
}

impl<Q: Copy> Observation<Q> {
    /// The safe lower bound represented by an observation.
    pub open spec fn spec_lower_bound(self) -> Q {
        match self {
            Observation::Exact(value) => value,
            Observation::AtLeast(value) => value,
        }
    }

    /// Returns the exact quantity, or `None` for a lower-bound observation.
    pub fn exact(self) -> (exact: Option<Q>)
        ensures
            exact == (match self {
                Observation::Exact(value) => Some(value),
                Observation::AtLeast(_) => None::<Q>,
            }),
    {
        match self {
            Observation::Exact(value) => Some(value),
            Observation::AtLeast(_) => None,
        }
    }

    /// Returns the safe lower bound represented by this observation.
    pub fn lower_bound(self) -> (bound: Q)
        ensures
            bound == self.spec_lower_bound(),
    {
        match self {
            Observation::Exact(value) => value,
            Observation::AtLeast(value) => value,
        }
    }
}

} // verus!
