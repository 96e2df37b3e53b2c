//! One structural budget session.

use vstd::prelude::*;

use super::StructureLimits;
use super::StructureResource;
use crate::resource::check_limit;
use crate::resource::optional_limit_result;
use crate::resource::BudgetError;
use crate::resource::ResourceBudget;
use crate::resource::ResourceLimit;
use crate::resource::ResourceQuantity;

verus! {

/// Whether an optional point limit accepts `actual`.
pub open spec fn limit_accepts<R, Q: ResourceQuantity>(
    limit: Option<ResourceLimit<R, Q>>,
    actual: Q,
) -> bool {
    match limit {
        None => true,
        Some(l) => actual.as_nat() <= l.spec_maximum().as_nat(),
    }
}

/// The effect of charging `amount` nodes to an optional node budget: an
/// unconfigured budget accepts everything; a configured one either drops by
/// exactly `amount`, or stays unchanged and reports an insufficient balance.
pub open spec fn node_charge_result<R: Clone, Q: ResourceQuantity>(
    before: Option<ResourceBudget<R, Q>>,
    amount: nat,
    after: Option<ResourceBudget<R, Q>>,
    result: Result<(), BudgetError<R, Q>>,
) -> bool {
    match before {
        None => result is Ok && after is None,
        Some(b) => {
            &&& after is Some
            &&& after->0.spec_resource_limit() == b.spec_resource_limit()
            &&& match result {
                Ok(()) => {
                    &&& amount <= b.spec_remaining().as_nat()
                    &&& after->0.spec_remaining().as_nat() == b.spec_remaining().as_nat() - amount
                },
                Err(e) => {
                    &&& amount > b.spec_remaining().as_nat()
                    &&& after->0 == b
                    &&& e matches BudgetError::Insufficient { resource, limit, remaining, requested }
                    &&& cloned(b.spec_resource(), resource)
                    &&& limit == b.spec_limit()
                    &&& remaining == b.spec_remaining()
                    &&& requested.as_nat() == amount
                },
            }
        },
    }
}

/// Charges `amount` to an optional node budget.
fn charge_optional<R: Clone, Q: ResourceQuantity>(
    nodes: &mut Option<ResourceBudget<R, Q>>,
    amount: Q,
) -> (result: Result<(), BudgetError<R, Q>>)
    ensures
        node_charge_result(*old(nodes), amount.as_nat(), *final(nodes), result),
{
    match nodes {
        Some(nodes) => match nodes.try_consume(amount) {
            Ok(()) => Ok(()),
            Err(error) => Err(BudgetError::from(error)),
        },
        None => Ok(()),
    }
}

/// A structural budget session: immutable point limits plus an optional
/// cumulative node budget.
///
/// Point checks never change the session. A node charge either succeeds
/// completely or leaves the session unchanged.
#[derive(Debug, PartialEq, Eq)]
pub struct StructureBudget<R = StructureResource, Q: ResourceQuantity = usize> {
    /// Immutable point limits for this session.
    limits: StructureLimits<R, Q>,
    /// Optional cumulative node budget for this session.
    nodes: Option<ResourceBudget<R, Q>>,
}

impl<R, Q: ResourceQuantity> StructureBudget<R, Q> {
    /// A node budget exists exactly when a node limit is configured, with
    /// that limit's capacity. Every session this crate creates satisfies it,
    /// and every operation keeps it.
    pub closed spec fn wf(self) -> bool {
        match (self.limits.spec_nodes(), self.nodes) {
            (None, None) => true,
            (Some(limit), Some(nodes)) => nodes.spec_limit() == limit.spec_maximum(),
            _ => false,
        }
    }

    /// In a well-formed session a node budget exists exactly when a node
    /// limit is configured.
    pub proof fn lemma_wf_nodes(self)
        requires
            self.wf(),
        ensures
            (self.spec_nodes() is None) == (self.spec_limits().spec_nodes() is None),
    {
    }

    /// The point limits of this session.
    pub closed spec fn spec_limits(self) -> StructureLimits<R, Q> {
        self.limits
    }

    /// The cumulative node budget of this session, if a node limit is
    /// configured.
    pub closed spec fn spec_nodes(self) -> Option<ResourceBudget<R, Q>> {
        self.nodes
    }

    /// No node has been charged to this session yet.
    pub open spec fn is_fresh(self) -> bool {
        match self.spec_nodes() {
            None => self.spec_limits().spec_nodes() is None,
            Some(nodes) => {
                &&& self.spec_limits().spec_nodes() is Some
                &&& nodes.spec_limit() == self.spec_limits().spec_nodes()->0.spec_maximum()
                &&& nodes.spec_remaining() == nodes.spec_limit()
            },
        }
    }

    /// Returns the point limits of this session.
    pub fn limits(&self) -> (limits: &StructureLimits<R, Q>)
        ensures
            *limits == self.spec_limits(),
    {
        &self.limits
    }

    /// Returns whether this session tracks a cumulative node limit.
    pub fn has_nodes_limit(&self) -> (tracked_nodes: bool)
        ensures
            tracked_nodes == (self.spec_nodes() is Some),
            self.wf() ==> tracked_nodes == (self.spec_limits().spec_nodes() is Some),
    {
        self.nodes.is_some()
    }

    /// Returns the node capacity left, if a node limit is configured.
    pub fn remaining_nodes(&self) -> (remaining: Option<Q>)
        ensures
            remaining == match self.spec_nodes() {
                Some(nodes) => Some(nodes.spec_remaining()),
                None => None,
            },
    {
        match &self.nodes {
            Some(nodes) => Some(nodes.remaining()),
            None => None,
        }
    }

    /// Returns the nodes charged so far, if a node limit is configured.
    pub fn used_nodes(&self) -> (used: Option<Q>)
        ensures
            match self.spec_nodes() {
                Some(nodes) => used is Some && used->0.as_nat() == nodes.spec_used(),
                None => used is None,
            },
    {
        match &self.nodes {
            Some(nodes) => Some(nodes.used()),
            None => None,
        }
    }
}

impl<R: Clone, Q: ResourceQuantity> StructureBudget<R, Q> {
    /// The node budget, when there is one, reports a clone of the resource
    /// of this session's node limit.
    pub open spec fn nodes_report_limit(self) -> bool {
        match (self.spec_limits().spec_nodes(), self.spec_nodes()) {
            (Some(limit), Some(nodes)) => cloned(limit.spec_resource(), nodes.spec_resource()),
            _ => true,
        }
    }

    /// Creates a fresh session whose node budget, if any, has the full
    /// configured capacity.
    pub(crate) fn new(limits: StructureLimits<R, Q>) -> (budget: Self)
        ensures
            budget.spec_limits() == limits,
            budget.wf(),
            budget.is_fresh(),
            budget.nodes_report_limit(),
    {
        let nodes = match limits.nodes_limit() {
            Some(limit) => Some(ResourceBudget::new(limit.resource().clone(), limit.maximum())),
            None => None,
        };
        Self { limits, nodes }
    }

    /// Checks one nesting depth against the configured maximum.
    pub fn check_depth(&self, actual: Q) -> (result: Result<(), BudgetError<R, Q>>)
        ensures
            optional_limit_result(self.spec_limits().spec_depth(), actual, result),
    {
        check_limit(self.limits.depth_limit(), actual)
    }

    /// Checks one sequence item count against the configured maximum.
    pub fn check_sequence_items(&self, actual: Q) -> (result: Result<(), BudgetError<R, Q>>)
        ensures
            optional_limit_result(self.spec_limits().spec_sequence_items(), actual, result),
    {
        check_limit(self.limits.sequence_items_limit(), actual)
    }

    /// Checks one map entry count against the configured maximum.
    pub fn check_map_entries(&self, actual: Q) -> (result: Result<(), BudgetError<R, Q>>)
        ensures
            optional_limit_result(self.spec_limits().spec_map_entries(), actual, result),
    {
        check_limit(self.limits.map_entries_limit(), actual)
    }

    /// Checks one key byte length against the configured maximum.
    pub fn check_key_bytes(&self, actual: Q) -> (result: Result<(), BudgetError<R, Q>>)
        ensures
            optional_limit_result(self.spec_limits().spec_key_bytes(), actual, result),
    {
        check_limit(self.limits.key_bytes_limit(), actual)
    }

    /// Charges `amount` processed nodes to the cumulative node budget.
    pub fn charge_nodes(&mut self, amount: Q) -> (result: Result<(), BudgetError<R, Q>>)
        ensures
            final(self).spec_limits() == old(self).spec_limits(),
            old(self).wf() ==> final(self).wf(),
            old(self).nodes_report_limit() ==> final(self).nodes_report_limit(),
            result is Err ==> *final(self) == *old(self),
            node_charge_result(old(self).spec_nodes(), amount.as_nat(), final(self).spec_nodes(), result),
    {
        charge_optional(&mut self.nodes, amount)
    }

    /// Charges one processed node to the cumulative node budget.
    pub fn charge_node(&mut self) -> (result: Result<(), BudgetError<R, Q>>)
        ensures
            final(self).spec_limits() == old(self).spec_limits(),
            old(self).wf() ==> final(self).wf(),
            old(self).nodes_report_limit() ==> final(self).nodes_report_limit(),
            result is Err ==> *final(self) == *old(self),
            node_charge_result(old(self).spec_nodes(), 1, final(self).spec_nodes(), result),
    {
        self.charge_nodes(Q::one())
    }

    /// Admits one value at `depth`: checks the depth, then charges a node.
    /// A rejected depth charges nothing.
    pub fn enter_node(&mut self, depth: Q) -> (result: Result<(), BudgetError<R, Q>>)
        ensures
            final(self).spec_limits() == old(self).spec_limits(),
            old(self).wf() ==> final(self).wf(),
            old(self).nodes_report_limit() ==> final(self).nodes_report_limit(),
            result is Err ==> *final(self) == *old(self),
            if limit_accepts(old(self).spec_limits().spec_depth(), depth) {
                node_charge_result(old(self).spec_nodes(), 1, final(self).spec_nodes(), result)
            } else {
                &&& result is Err
                &&& optional_limit_result(old(self).spec_limits().spec_depth(), depth, result)
                &&& final(self).spec_nodes() == old(self).spec_nodes()
            },
    {
        match self.check_depth(depth) {
            Ok(()) => {},
            Err(error) => return Err(error),
        }
        self.charge_node()
    }

    /// Admits one sequence of `items` items at `depth`: checks the depth and
    /// the item count, then charges a node. A rejected check charges nothing.
    pub fn enter_sequence(&mut self, depth: Q, items: Q) -> (result: Result<(), BudgetError<R, Q>>)
        ensures
            final(self).spec_limits() == old(self).spec_limits(),
            old(self).wf() ==> final(self).wf(),
            old(self).nodes_report_limit() ==> final(self).nodes_report_limit(),
            result is Err ==> *final(self) == *old(self),
            if !limit_accepts(old(self).spec_limits().spec_depth(), depth) {
                &&& result is Err
                &&& optional_limit_result(old(self).spec_limits().spec_depth(), depth, result)
                &&& final(self).spec_nodes() == old(self).spec_nodes()
            } else if !limit_accepts(old(self).spec_limits().spec_sequence_items(), items) {
                &&& result is Err
                &&& optional_limit_result(old(self).spec_limits().spec_sequence_items(), items, result)
                &&& final(self).spec_nodes() == old(self).spec_nodes()
            } else {
                node_charge_result(old(self).spec_nodes(), 1, final(self).spec_nodes(), result)
            },
    {
        match self.check_depth(depth) {
            Ok(()) => {},
            Err(error) => return Err(error),
        }
        match self.check_sequence_items(items) {
            Ok(()) => {},
            Err(error) => return Err(error),
        }
        self.charge_node()
    }

    /// Admits one map of `entries` entries at `depth`: checks the depth and
    /// the entry count, then charges a node. A rejected check charges
    /// nothing.
    pub fn enter_map(&mut self, depth: Q, entries: Q) -> (result: Result<(), BudgetError<R, Q>>)
        ensures
            final(self).spec_limits() == old(self).spec_limits(),
            old(self).wf() ==> final(self).wf(),
            old(self).nodes_report_limit() ==> final(self).nodes_report_limit(),
            result is Err ==> *final(self) == *old(self),
            if !limit_accepts(old(self).spec_limits().spec_depth(), depth) {
                &&& result is Err
                &&& optional_limit_result(old(self).spec_limits().spec_depth(), depth, result)
                &&& final(self).spec_nodes() == old(self).spec_nodes()
            } else if !limit_accepts(old(self).spec_limits().spec_map_entries(), entries) {
                &&& result is Err
                &&& optional_limit_result(old(self).spec_limits().spec_map_entries(), entries, result)
                &&& final(self).spec_nodes() == old(self).spec_nodes()
            } else {
                node_charge_result(old(self).spec_nodes(), 1, final(self).spec_nodes(), result)
            },
    {
        match self.check_depth(depth) {
            Ok(()) => {},
            Err(error) => return Err(error),
        }
        match self.check_map_entries(entries) {
            Ok(()) => {},
            Err(error) => return Err(error),
        }
        self.charge_node()
    }
}

} // verus!
