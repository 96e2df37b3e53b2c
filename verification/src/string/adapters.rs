//! `fmt::Write` and `io::Write` views of a budgeted writer.

use std::fmt;
use std::io;

use vstd::prelude::*;
use vstd::string::StringSliceAdditionalSpecFns;

use super::BudgetedStringWriter;
use crate::resource::ResourceQuantity;

verus! {

/// The error `fmt::Write` reports when a write is refused.
#[verifier::external_type_specification]
#[verifier::external_body]
pub struct ExFmtError(fmt::Error);

/// The error `io::Write` reports when a write is refused.
#[verifier::external_type_specification]
#[verifier::external_body]
pub struct ExIoError(io::Error);

/// Calls `io::Error::other` to build an I/O error carrying `message`.
#[verifier::external_body]
pub(crate) fn other_io_error(message: &'static str) -> (error: io::Error) {
    io::Error::other(message)
}

/// Calls `fmt::Error::default` to build the error reported for refused text.
#[verifier::external_body]
fn refused_format_error() -> (error: fmt::Error) {
    fmt::Error::default()
}

/// Formatting view that appends formatted text to a budgeted writer.
pub struct FmtWriter<'writer, 'budget, R, Q: ResourceQuantity> {
    /// Writer receiving formatted bytes.
    pub writer: &'writer mut BudgetedStringWriter<'budget, R, Q>,
}

/// I/O view that appends bytes to a budgeted writer.
pub struct IoWriter<'writer, 'budget, R, Q: ResourceQuantity> {
    /// Writer receiving output bytes.
    pub writer: &'writer mut BudgetedStringWriter<'budget, R, Q>,
}

impl<'writer, 'budget, R, Q: ResourceQuantity> FmtWriter<'writer, 'budget, R, Q> {
    /// The writer this view appends to.
    pub closed spec fn target(self) -> BudgetedStringWriter<'budget, R, Q> {
        *self.writer
    }
}

impl<'writer, 'budget, R, Q: ResourceQuantity> IoWriter<'writer, 'budget, R, Q> {
    /// The writer this view appends to.
    pub closed spec fn target(self) -> BudgetedStringWriter<'budget, R, Q> {
        *self.writer
    }
}

impl<R: Clone, Q: ResourceQuantity> fmt::Write for FmtWriter<'_, '_, R, Q> {
    /// Appends one formatted string when the budget permits it, and reports
    /// `fmt::Error` otherwise.
    fn write_str(&mut self, value: &str) -> (result: fmt::Result)
        ensures
            final(self).target().spec_budget() == old(self).target().spec_budget(),
            match result {
                Ok(()) => {
                    &&& !old(self).target().has_failed()
                    &&& !final(self).target().has_failed()
                    &&& final(self).target().spec_output() == old(self).target().spec_output()
                        + value.spec_bytes()
                },
                Err(_) => {
                    &&& final(self).target().has_failed()
                    &&& final(self).target().spec_output() == old(self).target().spec_output()
                },
            },
            !old(self).target().has_failed() && old(self).target().spec_output().len()
                + value.spec_bytes().len() > old(self).target().spec_budget().spec_remaining().as_nat()
                ==> result is Err,
    {
        if self.writer.append(value.as_bytes()) {
            Ok(())
        } else {
            Err(refused_format_error())
        }
    }
}

impl<R: Clone, Q: ResourceQuantity> io::Write for IoWriter<'_, '_, R, Q> {
    /// Appends all bytes when the budget permits them, and reports an I/O
    /// error otherwise.
    fn write(&mut self, bytes: &[u8]) -> (result: io::Result<usize>)
        ensures
            final(self).target().spec_budget() == old(self).target().spec_budget(),
            match result {
                Ok(written) => {
                    &&& written == bytes@.len()
                    &&& !old(self).target().has_failed()
                    &&& !final(self).target().has_failed()
                    &&& final(self).target().spec_output() == old(self).target().spec_output() + bytes@
                },
                Err(_) => {
                    &&& final(self).target().has_failed()
                    &&& final(self).target().spec_output() == old(self).target().spec_output()
                },
            },
            !old(self).target().has_failed() && old(self).target().spec_output().len() + bytes@.len()
                > old(self).target().spec_budget().spec_remaining().as_nat() ==> result is Err,
    {
        if self.writer.append(bytes) {
            Ok(bytes.len())
        } else {
            Err(other_io_error("budgeted string writer rejected output"))
        }
    }

    /// Flushes the in-memory adapter, which never fails.
    fn flush(&mut self) -> (result: io::Result<()>)
        ensures
            result is Ok,
            final(self).target().spec_budget() == old(self).target().spec_budget(),
            final(self).target().spec_output() == old(self).target().spec_output(),
            final(self).target().has_failed() == old(self).target().has_failed(),
    {
        Ok(())
    }
}

impl<'a, R: Clone, Q: ResourceQuantity> BudgetedStringWriter<'a, R, Q> {
    /// Returns a formatting writer view over the current transaction: it
    /// appends to this writer, and what it leaves is this writer's state
    /// once the view is done.
    pub fn as_fmt(&mut self) -> (view: FmtWriter<'_, 'a, R, Q>)
        ensures
            view.target() == *old(self),
            *final(view.writer) == *final(self),
    {
        FmtWriter { writer: self }
    }

    /// Returns an I/O writer view over the current transaction: it appends
    /// to this writer, and what it leaves is this writer's state once the
    /// view is done.
    pub fn as_io(&mut self) -> (view: IoWriter<'_, 'a, R, Q>)
        ensures
            view.target() == *old(self),
            *final(view.writer) == *final(self),
    {
        IoWriter { writer: self }
    }
}

} // verus!
