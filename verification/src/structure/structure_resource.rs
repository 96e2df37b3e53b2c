//! The structural dimensions of a nested value.

use vstd::prelude::*;

verus! {

/// Identifies which structural limit rejected a value.
#[non_exhaustive]
#[derive(Debug, Clone, Copy, PartialEq, Eq, Hash)]
pub enum StructureResource {
    /// Root-inclusive nesting depth of one value.
    Depth,
    /// Cumulative number of processed nodes.
    Nodes,
    /// Number of items in one sequence.
    SequenceItems,
    /// Number of entries in one map.
    MapEntries,
    /// Byte length of one map key.
    KeyBytes,
}

} // verus!
