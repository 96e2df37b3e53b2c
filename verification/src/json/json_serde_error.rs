//! Failures of budgeted JSON processing.

use vstd::prelude::*;

use crate::resource::BudgetError;

verus! {

/// The error type of the `serde_json` crate.
#[verifier::external_type_specification]
#[verifier::external_body]
pub struct ExJsonError(serde_json::Error);

/// Calls `serde_json::Error::custom` (through `serde::de::Error`) with the
/// message reported for input that is not one complete JSON value.
#[verifier::external_body]
pub(crate) fn invalid_json_error() -> (error: serde_json::Error) {
    <serde_json::Error as serde::de::Error>::custom("invalid JSON input")
}

/// Why budgeted JSON processing failed.
#[derive(Debug)]
#[must_use]
pub enum JsonSerdeError<R, Q: Copy = usize> {
    /// A limit or budget rejected the document.
    Budget(BudgetError<R, Q>),
    /// The document is not valid JSON, or (de)serialization failed.
    Json(serde_json::Error),
    /// The output writer failed.
    Io(std::io::Error),
}

} // verus!
