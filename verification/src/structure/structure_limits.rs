//! Immutable structural limit configurations.

use vstd::prelude::*;

use super::StructureBudget;
use super::StructureLimitsBuilder;
use super::StructureResource;
use crate::resource::ResourceLimit;
use crate::resource::ResourceQuantity;

verus! {

/// Optional limits on depth, nodes, sequence items, map entries and key
/// bytes. An unconfigured dimension accepts everything.
#[derive(Debug, Clone, Copy, PartialEq, Eq, Hash)]
pub struct StructureLimits<R = StructureResource, Q: ResourceQuantity = usize> {
    /// Optional inclusive maximum nesting depth.
    max_depth: Option<ResourceLimit<R, Q>>,
    /// Optional cumulative maximum number of processed nodes.
    max_nodes: Option<ResourceLimit<R, Q>>,
    /// Optional inclusive maximum number of items in one sequence.
    max_sequence_items: Option<ResourceLimit<R, Q>>,
    /// Optional inclusive maximum number of entries in one map.
    max_map_entries: Option<ResourceLimit<R, Q>>,
    /// Optional inclusive maximum byte length of one map key.
    max_key_bytes: Option<ResourceLimit<R, Q>>,
}

/// The maximum of an optional limit.
pub open spec fn optional_maximum<R, Q: ResourceQuantity>(limit: Option<ResourceLimit<R, Q>>) -> Option<
    Q,
> {
    match limit {
        Some(l) => Some(l.spec_maximum()),
        None => None,
    }
}

/// `copy` carries the same optional limit as `source`, with the same
/// maximum and a clone of its resource.
pub open spec fn limit_cloned<R: Clone, Q: ResourceQuantity>(
    source: Option<ResourceLimit<R, Q>>,
    copy: Option<ResourceLimit<R, Q>>,
) -> bool {
    match (source, copy) {
        (None, None) => true,
        (Some(a), Some(b)) => a.spec_maximum() == b.spec_maximum() && cloned(
            a.spec_resource(),
            b.spec_resource(),
        ),
        _ => false,
    }
}

/// Copies an optional limit, cloning its resource.
fn clone_limit<R: Clone, Q: ResourceQuantity>(limit: &Option<ResourceLimit<R, Q>>) -> (copy: Option<
    ResourceLimit<R, Q>,
>)
    ensures
        limit_cloned(*limit, copy),
{
    match limit {
        Some(limit) => Some(ResourceLimit::new(limit.resource().clone(), limit.maximum())),
        None => None,
    }
}

impl<R, Q: ResourceQuantity> StructureLimits<R, Q> {
    /// The optional depth limit.
    pub closed spec fn spec_depth(self) -> Option<ResourceLimit<R, Q>> {
        self.max_depth
    }

    /// The optional cumulative node limit.
    pub closed spec fn spec_nodes(self) -> Option<ResourceLimit<R, Q>> {
        self.max_nodes
    }

    /// The optional per-sequence item limit.
    pub closed spec fn spec_sequence_items(self) -> Option<ResourceLimit<R, Q>> {
        self.max_sequence_items
    }

    /// The optional per-map entry limit.
    pub closed spec fn spec_map_entries(self) -> Option<ResourceLimit<R, Q>> {
        self.max_map_entries
    }

    /// The optional per-key byte limit.
    pub closed spec fn spec_key_bytes(self) -> Option<ResourceLimit<R, Q>> {
        self.max_key_bytes
    }

    /// These limits with the depth dimension replaced.
    pub closed spec fn with_depth(self, limit: Option<ResourceLimit<R, Q>>) -> Self {
        Self { max_depth: limit, ..self }
    }

    /// These limits with the node dimension replaced.
    pub closed spec fn with_nodes(self, limit: Option<ResourceLimit<R, Q>>) -> Self {
        Self { max_nodes: limit, ..self }
    }

    /// These limits with the sequence-item dimension replaced.
    pub closed spec fn with_sequence_items(self, limit: Option<ResourceLimit<R, Q>>) -> Self {
        Self { max_sequence_items: limit, ..self }
    }

    /// These limits with the map-entry dimension replaced.
    pub closed spec fn with_map_entries(self, limit: Option<ResourceLimit<R, Q>>) -> Self {
        Self { max_map_entries: limit, ..self }
    }

    /// These limits with the key-byte dimension replaced.
    pub closed spec fn with_key_bytes(self, limit: Option<ResourceLimit<R, Q>>) -> Self {
        Self { max_key_bytes: limit, ..self }
    }

    /// Configuring a dimension twice keeps the last limit: replacing it
    /// after an earlier replacement is the same as replacing it once.
    pub proof fn law_last_configuration_wins(
        self,
        first: Option<ResourceLimit<R, Q>>,
        second: Option<ResourceLimit<R, Q>>,
    )
        ensures
            self.with_depth(first).with_depth(second) == self.with_depth(second),
            self.with_nodes(first).with_nodes(second) == self.with_nodes(second),
            self.with_sequence_items(first).with_sequence_items(second)
                == self.with_sequence_items(second),
            self.with_map_entries(first).with_map_entries(second) == self.with_map_entries(
                second,
            ),
            self.with_key_bytes(first).with_key_bytes(second) == self.with_key_bytes(second),
    {
    }

    /// Replacing one dimension changes that dimension only.
    pub proof fn lemma_with_dimension(self, limit: Option<ResourceLimit<R, Q>>)
        ensures
            self.with_depth(limit).spec_depth() == limit,
            self.with_depth(limit).spec_nodes() == self.spec_nodes(),
            self.with_depth(limit).spec_sequence_items() == self.spec_sequence_items(),
            self.with_depth(limit).spec_map_entries() == self.spec_map_entries(),
            self.with_depth(limit).spec_key_bytes() == self.spec_key_bytes(),
            self.with_nodes(limit).spec_depth() == self.spec_depth(),
            self.with_nodes(limit).spec_nodes() == limit,
            self.with_nodes(limit).spec_sequence_items() == self.spec_sequence_items(),
            self.with_nodes(limit).spec_map_entries() == self.spec_map_entries(),
            self.with_nodes(limit).spec_key_bytes() == self.spec_key_bytes(),
            self.with_sequence_items(limit).spec_depth() == self.spec_depth(),
            self.with_sequence_items(limit).spec_nodes() == self.spec_nodes(),
            self.with_sequence_items(limit).spec_sequence_items() == limit,
            self.with_sequence_items(limit).spec_map_entries() == self.spec_map_entries(),
            self.with_sequence_items(limit).spec_key_bytes() == self.spec_key_bytes(),
            self.with_map_entries(limit).spec_depth() == self.spec_depth(),
            self.with_map_entries(limit).spec_nodes() == self.spec_nodes(),
            self.with_map_entries(limit).spec_sequence_items() == self.spec_sequence_items(),
            self.with_map_entries(limit).spec_map_entries() == limit,
            self.with_map_entries(limit).spec_key_bytes() == self.spec_key_bytes(),
            self.with_key_bytes(limit).spec_depth() == self.spec_depth(),
            self.with_key_bytes(limit).spec_nodes() == self.spec_nodes(),
            self.with_key_bytes(limit).spec_sequence_items() == self.spec_sequence_items(),
            self.with_key_bytes(limit).spec_map_entries() == self.spec_map_entries(),
            self.with_key_bytes(limit).spec_key_bytes() == limit,
    {
    }

    /// Every dimension of `copy` carries the same limit as `self`, with
    /// cloned resources.
    pub open spec fn cloned_into(self, copy: Self) -> bool where R: Clone {
        &&& limit_cloned(self.spec_depth(), copy.spec_depth())
        &&& limit_cloned(self.spec_nodes(), copy.spec_nodes())
        &&& limit_cloned(self.spec_sequence_items(), copy.spec_sequence_items())
        &&& limit_cloned(self.spec_map_entries(), copy.spec_map_entries())
        &&& limit_cloned(self.spec_key_bytes(), copy.spec_key_bytes())
    }

    /// Whether no dimension is configured.
    pub open spec fn is_unconfigured(self) -> bool {
        &&& self.spec_depth() is None
        &&& self.spec_nodes() is None
        &&& self.spec_sequence_items() is None
        &&& self.spec_map_entries() is None
        &&& self.spec_key_bytes() is None
    }

    /// Creates a configuration with every structural limit unconfigured.
    pub fn new() -> (limits: Self)
        ensures
            limits.is_unconfigured(),
    {
        Self {
            max_depth: None,
            max_nodes: None,
            max_sequence_items: None,
            max_map_entries: None,
            max_key_bytes: None,
        }
    }

    /// Starts a builder with every structural limit unconfigured.
    pub fn builder() -> (builder: StructureLimitsBuilder<R, Q>)
        ensures
            builder.spec_limits().is_unconfigured(),
    {
        StructureLimitsBuilder::new()
    }

    /// Turns these limits back into a builder that starts from them.
    pub fn into_builder(self) -> (builder: StructureLimitsBuilder<R, Q>)
        ensures
            builder.spec_limits() == self,
    {
        StructureLimitsBuilder::from_limits(self)
    }

    /// Returns the depth limit, if configured.
    pub fn depth_limit(&self) -> (limit: Option<&ResourceLimit<R, Q>>)
        ensures
            limit == match self.spec_depth() {
                Some(l) => Some(&l),
                None => None,
            },
    {
        self.max_depth.as_ref()
    }

    /// Returns the cumulative node limit, if configured.
    pub fn nodes_limit(&self) -> (limit: Option<&ResourceLimit<R, Q>>)
        ensures
            limit == match self.spec_nodes() {
                Some(l) => Some(&l),
                None => None,
            },
    {
        self.max_nodes.as_ref()
    }

    /// Returns the per-sequence item limit, if configured.
    pub fn sequence_items_limit(&self) -> (limit: Option<&ResourceLimit<R, Q>>)
        ensures
            limit == match self.spec_sequence_items() {
                Some(l) => Some(&l),
                None => None,
            },
    {
        self.max_sequence_items.as_ref()
    }

    /// Returns the per-map entry limit, if configured.
    pub fn map_entries_limit(&self) -> (limit: Option<&ResourceLimit<R, Q>>)
        ensures
            limit == match self.spec_map_entries() {
                Some(l) => Some(&l),
                None => None,
            },
    {
        self.max_map_entries.as_ref()
    }

    /// Returns the per-key byte limit, if configured.
    pub fn key_bytes_limit(&self) -> (limit: Option<&ResourceLimit<R, Q>>)
        ensures
            limit == match self.spec_key_bytes() {
                Some(l) => Some(&l),
                None => None,
            },
    {
        self.max_key_bytes.as_ref()
    }

    /// Returns the maximum depth, if configured.
    pub fn max_depth(&self) -> (maximum: Option<Q>)
        ensures
            maximum == optional_maximum(self.spec_depth()),
    {
        match self.max_depth.as_ref() {
            Some(limit) => Some(limit.maximum()),
            None => None,
        }
    }

    /// Returns the maximum number of nodes, if configured.
    pub fn max_nodes(&self) -> (maximum: Option<Q>)
        ensures
            maximum == optional_maximum(self.spec_nodes()),
    {
        match self.max_nodes.as_ref() {
            Some(limit) => Some(limit.maximum()),
            None => None,
        }
    }

    /// Returns the maximum items of one sequence, if configured.
    pub fn max_sequence_items(&self) -> (maximum: Option<Q>)
        ensures
            maximum == optional_maximum(self.spec_sequence_items()),
    {
        match self.max_sequence_items.as_ref() {
            Some(limit) => Some(limit.maximum()),
            None => None,
        }
    }

    /// Returns the maximum entries of one map, if configured.
    pub fn max_map_entries(&self) -> (maximum: Option<Q>)
        ensures
            maximum == optional_maximum(self.spec_map_entries()),
    {
        match self.max_map_entries.as_ref() {
            Some(limit) => Some(limit.maximum()),
            None => None,
        }
    }

    /// Returns the maximum byte length of one key, if configured.
    pub fn max_key_bytes(&self) -> (maximum: Option<Q>)
        ensures
            maximum == optional_maximum(self.spec_key_bytes()),
    {
        match self.max_key_bytes.as_ref() {
            Some(limit) => Some(limit.maximum()),
            None => None,
        }
    }

    /// Configures the depth limit.
    pub(super) fn set_depth_limit(&mut self, limit: ResourceLimit<R, Q>)
        ensures
            *final(self) == old(self).with_depth(Some(limit)),
    {
        self.max_depth = Some(limit);
    }

    /// Configures the cumulative node limit.
    pub(super) fn set_nodes_limit(&mut self, limit: ResourceLimit<R, Q>)
        ensures
            *final(self) == old(self).with_nodes(Some(limit)),
    {
        self.max_nodes = Some(limit);
    }

    /// Configures the per-sequence item limit.
    pub(super) fn set_sequence_items_limit(&mut self, limit: ResourceLimit<R, Q>)
        ensures
            *final(self) == old(self).with_sequence_items(Some(limit)),
    {
        self.max_sequence_items = Some(limit);
    }

    /// Configures the per-map entry limit.
    pub(super) fn set_map_entries_limit(&mut self, limit: ResourceLimit<R, Q>)
        ensures
            *final(self) == old(self).with_map_entries(Some(limit)),
    {
        self.max_map_entries = Some(limit);
    }

    /// Configures the per-key byte limit.
    pub(super) fn set_key_bytes_limit(&mut self, limit: ResourceLimit<R, Q>)
        ensures
            *final(self) == old(self).with_key_bytes(Some(limit)),
    {
        self.max_key_bytes = Some(limit);
    }
}

impl<R: Clone, Q: ResourceQuantity> StructureLimits<R, Q> {
    /// Copies these limits, cloning every configured resource.
    pub(super) fn duplicate(&self) -> (copy: Self)
        ensures
            self.cloned_into(copy),
    {
        Self {
            max_depth: clone_limit(&self.max_depth),
            max_nodes: clone_limit(&self.max_nodes),
            max_sequence_items: clone_limit(&self.max_sequence_items),
            max_map_entries: clone_limit(&self.max_map_entries),
            max_key_bytes: clone_limit(&self.max_key_bytes),
        }
    }

    /// Creates an independent structural budget session with fresh node
    /// capacity. The point limits are copied into the session.
    pub fn budget(&self) -> (budget: StructureBudget<R, Q>)
        ensures
            self.cloned_into(budget.spec_limits()),
            budget.wf(),
            budget.is_fresh(),
            budget.nodes_report_limit(),
    {
        StructureBudget::new(self.duplicate())
    }
}

impl StructureLimits<StructureResource, usize> {
    /// Configures the inclusive maximum nesting depth.
    pub fn with_max_depth(self, maximum: usize) -> (limits: Self)
        ensures
            limits == self.with_depth(Some(ResourceLimit::spec_new(StructureResource::Depth, maximum))),
            limits.spec_depth()->0.spec_resource() == StructureResource::Depth,
            limits.spec_depth()->0.spec_maximum() == maximum,
    {
        let mut limits = self;
        limits.set_max_depth(maximum);
        limits
    }

    /// Configures the cumulative maximum number of processed nodes.
    pub fn with_max_nodes(self, maximum: usize) -> (limits: Self)
        ensures
            limits == self.with_nodes(Some(ResourceLimit::spec_new(StructureResource::Nodes, maximum))),
            limits.spec_nodes()->0.spec_resource() == StructureResource::Nodes,
            limits.spec_nodes()->0.spec_maximum() == maximum,
    {
        let mut limits = self;
        limits.set_max_nodes(maximum);
        limits
    }

    /// Configures the inclusive maximum item count of one sequence.
    pub fn with_max_sequence_items(self, maximum: usize) -> (limits: Self)
        ensures
            limits == self.with_sequence_items(Some(ResourceLimit::spec_new(StructureResource::SequenceItems, maximum))),
            limits.spec_sequence_items()->0.spec_resource() == StructureResource::SequenceItems,
            limits.spec_sequence_items()->0.spec_maximum() == maximum,
    {
        let mut limits = self;
        limits.set_max_sequence_items(maximum);
        limits
    }

    /// Configures the inclusive maximum entry count of one map.
    pub fn with_max_map_entries(self, maximum: usize) -> (limits: Self)
        ensures
            limits == self.with_map_entries(Some(ResourceLimit::spec_new(StructureResource::MapEntries, maximum))),
            limits.spec_map_entries()->0.spec_resource() == StructureResource::MapEntries,
            limits.spec_map_entries()->0.spec_maximum() == maximum,
    {
        let mut limits = self;
        limits.set_max_map_entries(maximum);
        limits
    }

    /// Configures the depth maximum under [`StructureResource::Depth`].
    pub(super) fn set_max_depth(&mut self, maximum: usize)
        ensures
            *final(self) == old(self).with_depth(
                Some(ResourceLimit::spec_new(StructureResource::Depth, maximum)),
            ),
            final(self).spec_depth()->0.spec_resource() == StructureResource::Depth,
            final(self).spec_depth()->0.spec_maximum() == maximum,
    {
        self.max_depth = Some(ResourceLimit::new(StructureResource::Depth, maximum));
    }

    /// Configures the node maximum under [`StructureResource::Nodes`].
    pub(super) fn set_max_nodes(&mut self, maximum: usize)
        ensures
            *final(self) == old(self).with_nodes(
                Some(ResourceLimit::spec_new(StructureResource::Nodes, maximum)),
            ),
            final(self).spec_nodes()->0.spec_resource() == StructureResource::Nodes,
            final(self).spec_nodes()->0.spec_maximum() == maximum,
    {
        self.max_nodes = Some(ResourceLimit::new(StructureResource::Nodes, maximum));
    }

    /// Configures the sequence maximum under
    /// [`StructureResource::SequenceItems`].
    pub(super) fn set_max_sequence_items(&mut self, maximum: usize)
        ensures
            *final(self) == old(self).with_sequence_items(
                Some(ResourceLimit::spec_new(StructureResource::SequenceItems, maximum)),
            ),
            final(self).spec_sequence_items()->0.spec_resource()
                == StructureResource::SequenceItems,
            final(self).spec_sequence_items()->0.spec_maximum() == maximum,
    {
        self.max_sequence_items = Some(
            ResourceLimit::new(StructureResource::SequenceItems, maximum),
        );
    }

    /// Configures the map maximum under [`StructureResource::MapEntries`].
    pub(super) fn set_max_map_entries(&mut self, maximum: usize)
        ensures
            *final(self) == old(self).with_map_entries(
                Some(ResourceLimit::spec_new(StructureResource::MapEntries, maximum)),
            ),
            final(self).spec_map_entries()->0.spec_resource() == StructureResource::MapEntries,
            final(self).spec_map_entries()->0.spec_maximum() == maximum,
    {
        self.max_map_entries = Some(ResourceLimit::new(StructureResource::MapEntries, maximum));
    }

    /// Configures the key maximum under [`StructureResource::KeyBytes`].
    pub(super) fn set_max_key_bytes(&mut self, maximum: usize)
        ensures
            *final(self) == old(self).with_key_bytes(
                Some(ResourceLimit::spec_new(StructureResource::KeyBytes, maximum)),
            ),
            final(self).spec_key_bytes()->0.spec_resource() == StructureResource::KeyBytes,
            final(self).spec_key_bytes()->0.spec_maximum() == maximum,
    {
        self.max_key_bytes = Some(ResourceLimit::new(StructureResource::KeyBytes, maximum));
    }
}

} // verus!
