//! Limits for one JSON document.

use vstd::prelude::*;

use super::JsonBudget;
use crate::resource::ResourceLimit;
use crate::structure::StructureLimits;
use crate::structure::StructureResource;

verus! {

/// Structural limits plus optional point limits on the input size, the
/// output size, and the byte length of each string and each number.
#[derive(Debug, Clone, PartialEq, Eq)]
pub struct JsonLimits<R = StructureResource> {
    /// Depth, node, container and key limits.
    structure: StructureLimits<R, usize>,
    /// Optional maximum byte length of one input document.
    max_input_bytes: Option<ResourceLimit<R, usize>>,
    /// Optional maximum byte length of one produced document.
    max_output_bytes: Option<ResourceLimit<R, usize>>,
    /// Optional maximum decoded byte length of one string value.
    max_string_bytes: Option<ResourceLimit<R, usize>>,
    /// Optional maximum textual byte length of one number.
    max_number_bytes: Option<ResourceLimit<R, usize>>,
}

impl<R> JsonLimits<R> {
    /// The structural limits.
    pub closed spec fn spec_structure(self) -> StructureLimits<R, usize> {
        self.structure
    }

    /// The optional input-size limit.
    pub closed spec fn spec_input_bytes(self) -> Option<ResourceLimit<R, usize>> {
        self.max_input_bytes
    }

    /// The optional output-size limit.
    pub closed spec fn spec_output_bytes(self) -> Option<ResourceLimit<R, usize>> {
        self.max_output_bytes
    }

    /// The optional per-string limit.
    pub closed spec fn spec_string_bytes(self) -> Option<ResourceLimit<R, usize>> {
        self.max_string_bytes
    }

    /// The optional per-number limit.
    pub closed spec fn spec_number_bytes(self) -> Option<ResourceLimit<R, usize>> {
        self.max_number_bytes
    }

    /// Creates limits with the given structural limits and no size limits.
    pub fn new(structure: StructureLimits<R, usize>) -> (limits: Self)
        ensures
            limits.spec_structure() == structure,
            limits.spec_input_bytes() is None,
            limits.spec_output_bytes() is None,
            limits.spec_string_bytes() is None,
            limits.spec_number_bytes() is None,
    {
        Self {
            structure,
            max_input_bytes: None,
            max_output_bytes: None,
            max_string_bytes: None,
            max_number_bytes: None,
        }
    }

    /// Configures the maximum byte length of one input document.
    pub fn with_input_bytes(self, limit: ResourceLimit<R, usize>) -> (limits: Self)
        ensures
            limits.spec_input_bytes() == Some(limit),
            limits.spec_structure() == self.spec_structure(),
            limits.spec_output_bytes() == self.spec_output_bytes(),
            limits.spec_string_bytes() == self.spec_string_bytes(),
            limits.spec_number_bytes() == self.spec_number_bytes(),
    {
        Self { max_input_bytes: Some(limit), ..self }
    }

    /// Configures the maximum byte length of one produced document.
    pub fn with_output_bytes(self, limit: ResourceLimit<R, usize>) -> (limits: Self)
        ensures
            limits.spec_output_bytes() == Some(limit),
            limits.spec_structure() == self.spec_structure(),
            limits.spec_input_bytes() == self.spec_input_bytes(),
            limits.spec_string_bytes() == self.spec_string_bytes(),
            limits.spec_number_bytes() == self.spec_number_bytes(),
    {
        Self { max_output_bytes: Some(limit), ..self }
    }

    /// Configures the maximum decoded byte length of one string value.
    pub fn with_string_bytes(self, limit: ResourceLimit<R, usize>) -> (limits: Self)
        ensures
            limits.spec_string_bytes() == Some(limit),
            limits.spec_structure() == self.spec_structure(),
            limits.spec_input_bytes() == self.spec_input_bytes(),
            limits.spec_output_bytes() == self.spec_output_bytes(),
            limits.spec_number_bytes() == self.spec_number_bytes(),
    {
        Self { max_string_bytes: Some(limit), ..self }
    }

    /// Configures the maximum textual byte length of one number.
    pub fn with_number_bytes(self, limit: ResourceLimit<R, usize>) -> (limits: Self)
        ensures
            limits.spec_number_bytes() == Some(limit),
            limits.spec_structure() == self.spec_structure(),
            limits.spec_input_bytes() == self.spec_input_bytes(),
            limits.spec_output_bytes() == self.spec_output_bytes(),
            limits.spec_string_bytes() == self.spec_string_bytes(),
    {
        Self { max_number_bytes: Some(limit), ..self }
    }

    /// Returns the input-size limit, if configured.
    pub fn input_bytes_limit(&self) -> (limit: Option<&ResourceLimit<R, usize>>)
        ensures
            limit == match self.spec_input_bytes() {
                Some(l) => Some(&l),
                None => None,
            },
    {
        self.max_input_bytes.as_ref()
    }

    /// Returns the output-size limit, if configured.
    pub fn output_bytes_limit(&self) -> (limit: Option<&ResourceLimit<R, usize>>)
        ensures
            limit == match self.spec_output_bytes() {
                Some(l) => Some(&l),
                None => None,
            },
    {
        self.max_output_bytes.as_ref()
    }

    /// Returns the per-string limit, if configured.
    pub fn string_bytes_limit(&self) -> (limit: Option<&ResourceLimit<R, usize>>)
        ensures
            limit == match self.spec_string_bytes() {
                Some(l) => Some(&l),
                None => None,
            },
    {
        self.max_string_bytes.as_ref()
    }

    /// Returns the per-number limit, if configured.
    pub fn number_bytes_limit(&self) -> (limit: Option<&ResourceLimit<R, usize>>)
        ensures
            limit == match self.spec_number_bytes() {
                Some(l) => Some(&l),
                None => None,
            },
    {
        self.max_number_bytes.as_ref()
    }

    /// Returns the structural limits.
    pub fn structure(&self) -> (structure: &StructureLimits<R, usize>)
        ensures
            *structure == self.spec_structure(),
    {
        &self.structure
    }
}

impl<R: Clone> JsonLimits<R> {
    /// Starts a budget session for one document under these limits.
    pub fn budget(self) -> (budget: JsonBudget<R>)
        ensures
            budget.spec_limits() == self,
            budget.spec_structure().is_fresh(),
            budget.spec_structure().wf(),
            self.spec_structure().cloned_into(budget.spec_structure().spec_limits()),
            budget.spec_structure().nodes_report_limit(),
    {
        JsonBudget::new(self)
    }
}

} // verus!
