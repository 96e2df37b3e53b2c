//! A bounded output buffer for budgeted JSON serialization.

use std::io;

use vstd::prelude::*;

use super::is_json_document;
use super::preflight_without_input_limit;
use super::scan_outcome;
use super::scan_value;
use super::JsonBudget;
use super::JsonSerdeError;
use crate::resource::optional_limit_result;
use crate::resource::BudgetError;
use crate::string::other_io_error;
use crate::structure::limit_accepts;

verus! {

/// Accumulates JSON bytes only while the output-byte limit of a budget
/// session permits the grown length.
///
/// A refused write leaves the buffer unchanged and records the budget
/// violation, which [`JsonOutputWriter::into_result`] reports in preference
/// to the serializer's own error.
pub struct JsonOutputWriter<'a, R> {
    /// Bytes accepted so far.
    bytes: Vec<u8>,
    /// Session whose output-byte limit guards growth.
    budget: &'a JsonBudget<R>,
    /// The budget violation behind the last refused write, if any.
    violation: Option<BudgetError<R, usize>>,
}

impl<'a, R> JsonOutputWriter<'a, R> {
    /// The bytes accepted so far.
    pub closed spec fn spec_bytes(self) -> Seq<u8> {
        self.bytes@
    }

    /// The session guarding growth.
    pub closed spec fn spec_budget(self) -> JsonBudget<R> {
        *self.budget
    }

    /// The recorded budget violation, if any.
    pub closed spec fn spec_violation(self) -> Option<BudgetError<R, usize>> {
        self.violation
    }

    /// Creates an empty buffer guarded by `budget`.
    pub fn new(budget: &'a JsonBudget<R>) -> (writer: Self)
        ensures
            writer.spec_bytes() == Seq::<u8>::empty(),
            writer.spec_budget() == *budget,
            writer.spec_violation() is None,
    {
        Self { bytes: Vec::new(), budget, violation: None }
    }

    /// Resolves serialization: a recorded violation wins, then the
    /// serializer's error, and otherwise the accepted bytes.
    pub fn into_result(self, result: Result<(), serde_json::Error>) -> (output: Result<
        Vec<u8>,
        JsonSerdeError<R>,
    >)
        ensures
            match self.spec_violation() {
                Some(error) => output == Err::<Vec<u8>, JsonSerdeError<R>>(
                    JsonSerdeError::Budget(error),
                ),
                None => match result {
                    Ok(()) => output matches Ok(bytes) && bytes@ == self.spec_bytes(),
                    Err(error) => output == Err::<Vec<u8>, JsonSerdeError<R>>(
                        JsonSerdeError::Json(error),
                    ),
                },
            },
    {
        match self.violation {
            Some(error) => return Err(JsonSerdeError::Budget(error)),
            None => {},
        }
        match result {
            Ok(()) => Ok(self.bytes),
            Err(error) => Err(JsonSerdeError::Json(error)),
        }
    }
}

impl<'a, R: Clone> JsonOutputWriter<'a, R> {
    /// Appends all of `input` when the grown length fits in `usize` and is
    /// accepted by the output-byte limit; otherwise leaves the buffer
    /// unchanged and fails, recording the violation of a refused limit.
    pub fn append(&mut self, input: &[u8]) -> (result: io::Result<usize>)
        ensures
            final(self).spec_budget() == old(self).spec_budget(),
            if old(self).spec_bytes().len() + input@.len() > usize::MAX {
                &&& result is Err
                &&& *final(self) == *old(self)
            } else if limit_accepts(
                old(self).spec_budget().spec_limits().spec_output_bytes(),
                (old(self).spec_bytes().len() + input@.len()) as usize,
            ) {
                &&& result matches Ok(written)
                &&& written == input@.len()
                &&& final(self).spec_bytes() == old(self).spec_bytes() + input@
                &&& final(self).spec_violation() == old(self).spec_violation()
            } else {
                &&& result is Err
                &&& final(self).spec_bytes() == old(self).spec_bytes()
                &&& final(self).spec_violation() matches Some(error)
                &&& optional_limit_result(
                    old(self).spec_budget().spec_limits().spec_output_bytes(),
                    (old(self).spec_bytes().len() + input@.len()) as usize,
                    Err(error),
                )
            },
    {
        let next = match self.bytes.len().checked_add(input.len()) {
            Some(next) => next,
            None => return Err(other_io_error("JSON output length overflow")),
        };
        match self.budget.check_output_bytes(next) {
            Ok(()) => {},
            Err(error) => {
                self.violation = Some(error);
                return Err(other_io_error("JSON output budget exceeded"));
            },
        }
        self.bytes.extend_from_slice(input);
        proof {
            assert(self.bytes@ =~= old(self).bytes@ + input@);
        }
        Ok(input.len())
    }
}

impl<R: Clone> io::Write for JsonOutputWriter<'_, R> {
    /// Appends one complete slice after checking the grown length.
    fn write(&mut self, input: &[u8]) -> (result: io::Result<usize>)
        ensures
            final(self).spec_budget() == old(self).spec_budget(),
            if old(self).spec_bytes().len() + input@.len() > usize::MAX {
                &&& result is Err
                &&& *final(self) == *old(self)
            } else if limit_accepts(
                old(self).spec_budget().spec_limits().spec_output_bytes(),
                (old(self).spec_bytes().len() + input@.len()) as usize,
            ) {
                &&& result matches Ok(written)
                &&& written == input@.len()
                &&& final(self).spec_bytes() == old(self).spec_bytes() + input@
                &&& final(self).spec_violation() == old(self).spec_violation()
            } else {
                &&& result is Err
                &&& final(self).spec_bytes() == old(self).spec_bytes()
                &&& final(self).spec_violation() matches Some(error)
                &&& optional_limit_result(
                    old(self).spec_budget().spec_limits().spec_output_bytes(),
                    (old(self).spec_bytes().len() + input@.len()) as usize,
                    Err(error),
                )
            },
    {
        self.append(input)
    }

    /// Flushes the in-memory buffer, which never fails and changes nothing.
    fn flush(&mut self) -> (result: io::Result<()>)
        ensures
            result is Ok,
            *final(self) == *old(self),
    {
        Ok(())
    }
}

/// Settles one serialization into `output`: a recorded output violation
/// wins, then the serializer's error; otherwise the produced document is
/// validated and its structure and value sizes are charged to `budget`, and
/// the document is returned when every value was admitted.
///
/// Only the charging step changes `budget`, as
/// [`preflight_without_input_limit`] describes.
pub fn settle_output<R: Clone>(
    output: JsonOutputWriter<'_, R>,
    serialized: Result<(), serde_json::Error>,
    budget: &mut JsonBudget<R>,
) -> (result: Result<Vec<u8>, JsonSerdeError<R>>)
    ensures
        match output.spec_violation() {
            Some(error) => {
                &&& result == Err::<Vec<u8>, JsonSerdeError<R>>(JsonSerdeError::Budget(error))
                &&& *final(budget) == *old(budget)
            },
            None => match serialized {
                Err(error) => {
                    &&& result == Err::<Vec<u8>, JsonSerdeError<R>>(JsonSerdeError::Json(error))
                    &&& *final(budget) == *old(budget)
                },
                Ok(()) => {
                    &&& scan_outcome(
                        *old(budget),
                        scan_value(output.spec_bytes(), 1).0,
                        is_json_document(output.spec_bytes(), 1),
                        *final(budget),
                        match result {
                            Ok(_) => Ok::<(), JsonSerdeError<R>>(()),
                            Err(error) => Err(error),
                        },
                    )
                    &&& result matches Ok(bytes) ==> bytes@ == output.spec_bytes()
                },
            },
        },
{
    let bytes = match output.into_result(serialized) {
        Ok(bytes) => bytes,
        Err(error) => return Err(error),
    };
    match preflight_without_input_limit(bytes.as_slice(), budget) {
        Ok(()) => Ok(bytes),
        Err(error) => Err(error),
    }
}

} // verus!
