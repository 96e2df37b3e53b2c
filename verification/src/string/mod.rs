//! Transactional string rendering under a byte budget.

mod budgeted_string_error;
mod adapters;
mod budgeted_string_writer;
mod writer_failure;

pub(crate) use adapters::other_io_error;
pub use adapters::FmtWriter;
pub use adapters::IoWriter;
pub use budgeted_string_error::BudgetedStringError;
pub use budgeted_string_writer::growth_target;
pub use budgeted_string_writer::law_growth_is_at_most_doubling;
pub use budgeted_string_writer::rendering_settled;
pub use budgeted_string_writer::BudgetedStringWriter;
pub use writer_failure::append_refusal;
pub use writer_failure::failure_error;
pub use writer_failure::WriterFailure;
