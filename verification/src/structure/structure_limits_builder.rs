//! Step-by-step construction of structural limits.

use vstd::prelude::*;

use super::StructureLimits;
use super::StructureResource;
use crate::resource::ResourceLimit;
use crate::resource::ResourceQuantity;

verus! {

/// Builds [`StructureLimits`] one dimension at a time. Configuring a
/// dimension twice keeps the last limit.
#[derive(Debug, Clone, Copy, PartialEq, Eq, Hash)]
pub struct StructureLimitsBuilder<R = StructureResource, Q: ResourceQuantity = usize> {
    /// Limits configured so far.
    limits: StructureLimits<R, Q>,
}

impl<R, Q: ResourceQuantity> StructureLimitsBuilder<R, Q> {
    /// The limits configured so far.
    pub closed spec fn spec_limits(self) -> StructureLimits<R, Q> {
        self.limits
    }

    /// Starts with every dimension unconfigured.
    pub fn new() -> (builder: Self)
        ensures
            builder.spec_limits().is_unconfigured(),
    {
        Self { limits: StructureLimits::new() }
    }

    /// Starts from existing limits.
    pub(crate) fn from_limits(limits: StructureLimits<R, Q>) -> (builder: Self)
        ensures
            builder.spec_limits() == limits,
    {
        Self { limits }
    }

    /// Configures the depth limit.
    pub fn depth_limit(self, limit: ResourceLimit<R, Q>) -> (builder: Self)
        ensures
            builder.spec_limits() == self.spec_limits().with_depth(Some(limit)),
    {
        let mut builder = self;
        builder.limits.set_depth_limit(limit);
        builder
    }

    /// Configures the cumulative node limit.
    pub fn nodes_limit(self, limit: ResourceLimit<R, Q>) -> (builder: Self)
        ensures
            builder.spec_limits() == self.spec_limits().with_nodes(Some(limit)),
    {
        let mut builder = self;
        builder.limits.set_nodes_limit(limit);
        builder
    }

    /// Configures the per-sequence item limit.
    pub fn sequence_items_limit(self, limit: ResourceLimit<R, Q>) -> (builder: Self)
        ensures
            builder.spec_limits() == self.spec_limits().with_sequence_items(Some(limit)),
    {
        let mut builder = self;
        builder.limits.set_sequence_items_limit(limit);
        builder
    }

    /// Configures the per-map entry limit.
    pub fn map_entries_limit(self, limit: ResourceLimit<R, Q>) -> (builder: Self)
        ensures
            builder.spec_limits() == self.spec_limits().with_map_entries(Some(limit)),
    {
        let mut builder = self;
        builder.limits.set_map_entries_limit(limit);
        builder
    }

    /// Configures the per-key byte limit.
    pub fn key_bytes_limit(self, limit: ResourceLimit<R, Q>) -> (builder: Self)
        ensures
            builder.spec_limits() == self.spec_limits().with_key_bytes(Some(limit)),
    {
        let mut builder = self;
        builder.limits.set_key_bytes_limit(limit);
        builder
    }

    /// Returns the configured limits.
    pub fn build(self) -> (limits: StructureLimits<R, Q>)
        ensures
            limits == self.spec_limits(),
    {
        self.limits
    }
}

impl StructureLimitsBuilder<StructureResource, usize> {
    /// Configures the depth maximum under [`StructureResource::Depth`].
    pub fn max_depth(self, maximum: usize) -> (builder: Self)
        ensures
            builder.spec_limits() == self.spec_limits().with_depth(
                Some(ResourceLimit::spec_new(StructureResource::Depth, maximum)),
            ),
    {
        let mut builder = self;
        builder.limits.set_max_depth(maximum);
        builder
    }

    /// Configures the node maximum under [`StructureResource::Nodes`].
    pub fn max_nodes(self, maximum: usize) -> (builder: Self)
        ensures
            builder.spec_limits() == self.spec_limits().with_nodes(
                Some(ResourceLimit::spec_new(StructureResource::Nodes, maximum)),
            ),
    {
        let mut builder = self;
        builder.limits.set_max_nodes(maximum);
        builder
    }

    /// Configures the sequence maximum under
    /// [`StructureResource::SequenceItems`].
    pub fn max_sequence_items(self, maximum: usize) -> (builder: Self)
        ensures
            builder.spec_limits() == self.spec_limits().with_sequence_items(
                Some(ResourceLimit::spec_new(StructureResource::SequenceItems, maximum)),
            ),
    {
        let mut builder = self;
        builder.limits.set_max_sequence_items(maximum);
        builder
    }

    /// Configures the map maximum under [`StructureResource::MapEntries`].
    pub fn max_map_entries(self, maximum: usize) -> (builder: Self)
        ensures
            builder.spec_limits() == self.spec_limits().with_map_entries(
                Some(ResourceLimit::spec_new(StructureResource::MapEntries, maximum)),
            ),
    {
        let mut builder = self;
        builder.limits.set_max_map_entries(maximum);
        builder
    }

    /// Configures the key maximum under [`StructureResource::KeyBytes`].
    pub fn max_key_bytes(self, maximum: usize) -> (builder: Self)
        ensures
            builder.spec_limits() == self.spec_limits().with_key_bytes(
                Some(ResourceLimit::spec_new(StructureResource::KeyBytes, maximum)),
            ),
    {
        let mut builder = self;
        builder.limits.set_max_key_bytes(maximum);
        builder
    }
}

impl<R, Q: ResourceQuantity> Default for StructureLimitsBuilder<R, Q> {
    /// Starts with every dimension unconfigured.
    fn default() -> (builder: Self)
        ensures
            builder.spec_limits().is_unconfigured(),
    {
        Self::new()
    }
}

impl<R, Q: ResourceQuantity> Default for StructureLimits<R, Q> {
    /// Every structural limit unconfigured.
    fn default() -> (limits: Self)
        ensures
            limits.is_unconfigured(),
    {
        Self::new()
    }
}

impl<R, Q: ResourceQuantity> From<StructureLimitsBuilder<R, Q>> for StructureLimits<R, Q> {
    /// The limits the builder has configured.
    fn from(builder: StructureLimitsBuilder<R, Q>) -> (limits: Self) {
        builder.build()
    }
}

impl<R, Q: ResourceQuantity> vstd::std_specs::convert::FromSpecImpl<StructureLimitsBuilder<R, Q>> for StructureLimits<R, Q> {
    open spec fn obeys_from_spec() -> bool {
        true
    }

    open spec fn from_spec(builder: StructureLimitsBuilder<R, Q>) -> Self {
        builder.spec_limits()
    }
}

} // verus!
