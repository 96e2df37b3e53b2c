//! One budget session over a JSON document.

use vstd::prelude::*;

use super::JsonLimits;
use crate::resource::check_limit;
use crate::resource::optional_limit_result;
use crate::resource::BudgetError;
use crate::structure::limit_accepts;
use crate::structure::node_charge_result;
use crate::structure::StructureBudget;
use crate::structure::StructureResource;

verus! {

/// A budget session for one JSON document: structural accounting plus
/// point checks of document, string and number sizes.
///
/// Every check either accepts or leaves the session unchanged.
#[derive(Debug)]
pub struct JsonBudget<R = StructureResource> {
    /// The limits this session was started from.
    limits: JsonLimits<R>,
    /// Structural accounting for this session.
    structure: StructureBudget<R, usize>,
}

impl<R> JsonBudget<R> {
    /// The limits this session was started from.
    pub closed spec fn spec_limits(self) -> JsonLimits<R> {
        self.limits
    }

    /// The structural accounting of this session.
    pub closed spec fn spec_structure(self) -> StructureBudget<R, usize> {
        self.structure
    }

    /// Returns the limits this session was started from.
    pub fn limits(&self) -> (limits: &JsonLimits<R>)
        ensures
            *limits == self.spec_limits(),
    {
        &self.limits
    }

    /// Returns the structural accounting of this session.
    pub fn structure(&self) -> (structure: &StructureBudget<R, usize>)
        ensures
            *structure == self.spec_structure(),
    {
        &self.structure
    }
}

impl<R: Clone> JsonBudget<R> {
    /// Starts a session with fresh node capacity.
    pub fn new(limits: JsonLimits<R>) -> (budget: Self)
        ensures
            budget.spec_limits() == limits,
            budget.spec_structure().is_fresh(),
            budget.spec_structure().wf(),
            limits.spec_structure().cloned_into(budget.spec_structure().spec_limits()),
            budget.spec_structure().nodes_report_limit(),
    {
        let structure = limits.structure().budget();
        Self { limits, structure }
    }

    /// Checks the byte length of one input document.
    pub fn check_input_bytes(&self, bytes: usize) -> (result: Result<(), BudgetError<R, usize>>)
        ensures
            optional_limit_result(self.spec_limits().spec_input_bytes(), bytes, result),
    {
        check_limit(self.limits.input_bytes_limit(), bytes)
    }

    /// Checks the byte length of one produced document.
    pub fn check_output_bytes(&self, bytes: usize) -> (result: Result<(), BudgetError<R, usize>>)
        ensures
            optional_limit_result(self.spec_limits().spec_output_bytes(), bytes, result),
    {
        check_limit(self.limits.output_bytes_limit(), bytes)
    }

    /// Checks the decoded byte length of one string value.
    pub fn check_string_bytes(&self, bytes: usize) -> (result: Result<(), BudgetError<R, usize>>)
        ensures
            optional_limit_result(self.spec_limits().spec_string_bytes(), bytes, result),
    {
        check_limit(self.limits.string_bytes_limit(), bytes)
    }

    /// Checks the textual byte length of one number.
    pub fn check_number_bytes(&self, bytes: usize) -> (result: Result<(), BudgetError<R, usize>>)
        ensures
            optional_limit_result(self.spec_limits().spec_number_bytes(), bytes, result),
    {
        check_limit(self.limits.number_bytes_limit(), bytes)
    }

    /// Checks the item count of one array.
    pub fn check_sequence_items(&self, items: usize) -> (result: Result<(), BudgetError<R, usize>>)
        ensures
            optional_limit_result(
                self.spec_structure().spec_limits().spec_sequence_items(),
                items,
                result,
            ),
    {
        self.structure.check_sequence_items(items)
    }

    /// Checks the entry count of one object.
    pub fn check_map_entries(&self, entries: usize) -> (result: Result<(), BudgetError<R, usize>>)
        ensures
            optional_limit_result(self.spec_structure().spec_limits().spec_map_entries(), entries, result),
    {
        self.structure.check_map_entries(entries)
    }

    /// Checks the decoded byte length of one object key.
    pub fn check_key_bytes(&self, bytes: usize) -> (result: Result<(), BudgetError<R, usize>>)
        ensures
            optional_limit_result(self.spec_structure().spec_limits().spec_key_bytes(), bytes, result),
    {
        self.structure.check_key_bytes(bytes)
    }

    /// Admits one value at `depth`: checks the depth, then charges a node.
    /// A failure leaves the session unchanged.
    pub fn enter_node(&mut self, depth: usize) -> (result: Result<(), BudgetError<R, usize>>)
        ensures
            final(self).spec_limits() == old(self).spec_limits(),
            final(self).spec_structure().spec_limits() == old(self).spec_structure().spec_limits(),
            old(self).spec_structure().wf() ==> final(self).spec_structure().wf(),
            old(self).spec_structure().nodes_report_limit()
                ==> final(self).spec_structure().nodes_report_limit(),
            result is Err ==> *final(self) == *old(self),
            if limit_accepts(old(self).spec_structure().spec_limits().spec_depth(), depth) {
                node_charge_result(
                    old(self).spec_structure().spec_nodes(),
                    1,
                    final(self).spec_structure().spec_nodes(),
                    result,
                )
            } else {
                &&& result is Err
                &&& optional_limit_result(
                    old(self).spec_structure().spec_limits().spec_depth(),
                    depth,
                    result,
                )
            },
    {
        self.structure.enter_node(depth)
    }
}

} // verus!
