//! A writer that stages output until a complete string can be charged.

use std::collections::TryReserveError;
use std::string::FromUtf8Error;

use vstd::prelude::*;
use vstd::utf8::decode_utf8;
use vstd::utf8::encode_utf8;
use vstd::utf8::valid_utf8;

use super::writer_failure::append_refusal;
use super::writer_failure::failure_error;
use super::writer_failure::WriterFailure;
use super::BudgetedStringError;
use crate::resource::availability_result;
use crate::resource::ResourceBudget;
use crate::resource::ResourceQuantity;

verus! {

/// Calls `Vec::capacity`. The capacity depends on the allocator, so nothing
/// is stated about it.
#[verifier::external_body]
fn buffer_capacity(buffer: &Vec<u8>) -> (capacity: usize) {
    buffer.capacity()
}

/// Calls `Vec::try_reserve_exact`, which only reserves capacity: the
/// contents stay the same whether or not the reservation succeeds.
#[verifier::external_body]
fn reserve_exact(buffer: &mut Vec<u8>, additional: usize) -> (result: Result<(), TryReserveError>)
    ensures
        final(buffer)@ == old(buffer)@,
{
    buffer.try_reserve_exact(additional)
}

/// Calls `String::from_utf8`, which succeeds exactly when the bytes are
/// valid UTF-8 and then holds the characters they encode.
#[verifier::external_body]
fn string_from_utf8(bytes: Vec<u8>) -> (result: Result<String, FromUtf8Error>)
    ensures
        match result {
            Ok(text) => valid_utf8(bytes@) && text@ == decode_utf8(bytes@),
            Err(_) => !valid_utf8(bytes@),
        },
{
    String::from_utf8(bytes)
}

/// Returns `current + additional` when it fits in `usize`.
fn checked_output_len(current: usize, additional: usize) -> (total: Option<usize>)
    ensures
        match total {
            Some(t) => t == current + additional,
            None => current + additional > usize::MAX,
        },
{
    current.checked_add(additional)
}

/// The capacity a staging buffer grows to when `total` bytes must fit:
/// double the current capacity, saturating at `usize::MAX`, or exactly
/// `total` when doubling is not enough.
pub open spec fn growth_target(capacity: nat, total: nat) -> nat {
    let doubled = if 2 * capacity > usize::MAX {
        usize::MAX as nat
    } else {
        2 * capacity
    };
    if doubled < total {
        total
    } else {
        doubled
    }
}

/// Growing a buffer never asks for more than double its capacity or the
/// exact need, whichever is larger, and always makes room for the need.
pub proof fn law_growth_is_at_most_doubling(capacity: nat, total: nat)
    requires
        total <= usize::MAX,
    ensures
        total <= growth_target(capacity, total),
        growth_target(capacity, total) <= usize::MAX,
        growth_target(capacity, total) <= 2 * capacity || growth_target(capacity, total)
            == total,
{
}

/// Returns the capacity a buffer of `capacity` grows to so that `total`
/// bytes fit.
fn grown_capacity(capacity: usize, total: usize) -> (target: usize)
    ensures
        target == growth_target(capacity as nat, total as nat),
{
    let doubled = if capacity > usize::MAX / 2 {
        usize::MAX
    } else {
        capacity * 2
    };
    if doubled < total {
        total
    } else {
        doubled
    }
}

/// Stages rendered bytes against an immutable snapshot of a budget.
///
/// Every accepted append keeps the staged length within the budget's
/// remaining capacity. The first rejected append is remembered, and every
/// later append is refused.
pub struct BudgetedStringWriter<'a, R, Q: ResourceQuantity = u64> {
    /// Immutable budget snapshot used to validate the output length.
    budget: &'a ResourceBudget<R, Q>,
    /// Bytes staged until the entire rendering transaction succeeds.
    output: Vec<u8>,
    /// First writer-side failure.
    failure: Option<WriterFailure<R, Q>>,
}

impl<'a, R, Q: ResourceQuantity> BudgetedStringWriter<'a, R, Q> {
    /// The budget whose remaining capacity bounds the output.
    pub closed spec fn spec_budget(self) -> ResourceBudget<R, Q> {
        *self.budget
    }

    /// The bytes staged so far.
    pub closed spec fn spec_output(self) -> Seq<u8> {
        self.output@
    }

    /// Whether an append has been rejected.
    pub closed spec fn has_failed(self) -> bool {
        self.failure is Some
    }

    /// The first failure recorded, if any.
    pub closed spec fn spec_failure(self) -> Option<WriterFailure<R, Q>> {
        self.failure
    }

    /// Staged bytes never exceed the remaining capacity of the budget.
    pub closed spec fn wf(self) -> bool {
        self.output@.len() <= self.budget.spec_remaining().as_nat()
    }

    /// Creates an empty writer backed by an immutable budget snapshot.
    fn new(budget: &'a ResourceBudget<R, Q>) -> (writer: Self)
        ensures
            writer.spec_budget() == *budget,
            writer.spec_output() == Seq::<u8>::empty(),
            !writer.has_failed(),
            writer.wf(),
    {
        Self { budget, output: Vec::new(), failure: None }
    }

    /// Separates the staged bytes from the first captured failure.
    fn into_parts(self) -> (parts: (Vec<u8>, Option<WriterFailure<R, Q>>))
        ensures
            parts.0@ == self.spec_output(),
            parts.1 == self.spec_failure(),
    {
        (self.output, self.failure)
    }
}

impl<'a, R: Clone, Q: ResourceQuantity> BudgetedStringWriter<'a, R, Q> {
    /// Appends `bytes` when the new total length still fits the budget.
    ///
    /// Returns `true` after appending. Returns `false` without appending when
    /// an earlier append failed, or after recording why this one failed: the
    /// total length overflows `usize`, cannot be represented by `Q`, exceeds
    /// the remaining capacity, or cannot be allocated.
    pub(crate) fn append(&mut self, bytes: &[u8]) -> (appended: bool)
        ensures
            old(self).wf() ==> final(self).wf(),
            appended ==> final(self).wf(),
            final(self).spec_budget() == old(self).spec_budget(),
            appended ==> !old(self).has_failed() && final(self).spec_output() == old(self).spec_output() + bytes@ && !final(self).has_failed(),
            !appended ==> final(self).spec_output() == old(self).spec_output() && final(self).has_failed(),
            final(self).has_failed() == (final(self).spec_failure() is Some),
            old(self).has_failed() ==> !appended && final(self).spec_failure() == old(
                self,
            ).spec_failure(),
            !old(self).has_failed() && !appended ==> match final(self).spec_failure() {
                Some(failure) => append_refusal(
                    old(self).spec_budget(),
                    old(self).spec_output().len() + bytes@.len(),
                    failure,
                ),
                None => false,
            },
            !old(self).has_failed() && old(self).spec_output().len() + bytes@.len()
                > old(self).spec_budget().spec_remaining().as_nat() ==> !appended,
    {
        if self.failure.is_some() {
            return false;
        }
        let next_len = match checked_output_len(self.output.len(), bytes.len()) {
            Some(next_len) => next_len,
            None => {
                self.failure = Some(WriterFailure::LengthOverflow);
                return false;
            },
        };
        proof {
            self.budget.spec_remaining().lemma_in_range();
        }
        let next_length = match Q::try_from_usize(next_len) {
            Ok(value) => value,
            Err(source) => {
                self.failure = Some(
                    WriterFailure::Quantity { resource: self.budget.resource().clone(), source },
                );
                return false;
            },
        };
        match self.budget.check_available(next_length) {
            Ok(()) => {},
            Err(error) => {
                self.failure = Some(WriterFailure::Budget(error));
                return false;
            },
        }
        let capacity = buffer_capacity(&self.output);
        if next_len > capacity {
            let target = grown_capacity(capacity, next_len);
            let additional = target - self.output.len();
            match reserve_exact(&mut self.output, additional) {
                Ok(()) => {},
                Err(source) => {
                    self.failure = Some(WriterFailure::Allocation(source));
                    return false;
                },
            }
        }
        let ghost before = self.output@;
        self.output.extend_from_slice(bytes);
        proof {
            assert(self.output@ =~= before + bytes@);
        }
        true
    }
}

/// How a rendering settles against `before`, once its writer staged
/// `staged` (having recorded `failure` when an append was refused) and its
/// renderer returned `rendered`; `after` is the budget afterwards.
///
/// A refused append comes first, reported as the matching error, then a renderer error, then invalid UTF-8,
/// then a length the quantity cannot represent, then a length beyond the
/// remaining capacity; each of them leaves the balance unchanged. Otherwise
/// the staged bytes are the result and exactly their length is charged.
pub open spec fn rendering_settled<R: Clone, Q: ResourceQuantity, E>(
    before: ResourceBudget<R, Q>,
    staged: Seq<u8>,
    failure: Option<WriterFailure<R, Q>>,
    rendered: Result<(), E>,
    after: ResourceBudget<R, Q>,
    result: Result<String, BudgetedStringError<R, E, Q>>,
) -> bool {
    let unchanged = after.spec_remaining() == before.spec_remaining();
    &&& after.spec_resource_limit() == before.spec_resource_limit()
    &&& match failure {
        Some(failure) => {
            &&& unchanged
            &&& result == Err::<String, BudgetedStringError<R, E, Q>>(failure_error(failure))
        },
        None => match rendered {
            Err(error) => {
                &&& unchanged
                &&& result matches Err(BudgetedStringError::Render(reported))
                &&& reported == error
            },
            Ok(()) => if !valid_utf8(staged) {
                &&& unchanged
                &&& result matches Err(BudgetedStringError::InvalidUtf8(_))
            } else if staged.len() > Q::max_nat() {
                &&& unchanged
                &&& result matches Err(BudgetedStringError::Quantity { resource, source })
                &&& cloned(before.spec_resource(), resource)
                &&& source.spec_measurement() == crate::resource::QuantityMeasurement::Usize(
                    staged.len() as usize,
                )
                &&& source.spec_target() == Q::quantity_name()
            } else if staged.len() > before.spec_remaining().as_nat() {
                &&& unchanged
                &&& result matches Err(BudgetedStringError::Budget(error))
                &&& cloned(before.spec_resource(), error.resource)
                &&& error.limit == before.spec_limit()
                &&& error.remaining == before.spec_remaining()
                &&& error.requested.as_nat() == staged.len()
            } else {
                &&& result matches Ok(text)
                &&& text@ == decode_utf8(staged)
                &&& after.spec_remaining().as_nat() == before.spec_remaining().as_nat()
                    - staged.len()
            },
        },
    }
}

/// Settles a rendering: reports the first failure in the precedence of
/// [`rendering_settled`], or charges the staged bytes and returns them as a
/// string.
fn settle_rendering<R: Clone, Q: ResourceQuantity, E>(
    budget: &mut ResourceBudget<R, Q>,
    bytes: Vec<u8>,
    failure: Option<WriterFailure<R, Q>>,
    rendered: Result<(), E>,
) -> (result: Result<String, BudgetedStringError<R, E, Q>>)
    ensures
        rendering_settled(*old(budget), bytes@, failure, rendered, *final(budget), result),
{
    match failure {
        Some(WriterFailure::Budget(error)) => {
            return Err(BudgetedStringError::Budget(error));
        },
        Some(WriterFailure::Quantity { resource, source }) => {
            return Err(BudgetedStringError::Quantity { resource, source });
        },
        Some(WriterFailure::LengthOverflow) => {
            return Err(BudgetedStringError::LengthOverflow);
        },
        Some(WriterFailure::Allocation(source)) => {
            return Err(BudgetedStringError::Allocation(source));
        },
        None => {},
    }
    match rendered {
        Ok(()) => {},
        Err(error) => {
            return Err(BudgetedStringError::Render(error));
        },
    }
    let ghost staged = bytes@;
    let staged_length = bytes.len();
    let output = match string_from_utf8(bytes) {
        Ok(output) => output,
        Err(source) => {
            return Err(BudgetedStringError::InvalidUtf8(source));
        },
    };
    proof {
        vstd::utf8::decode_utf8_encode_utf8(staged);
        assert(encode_utf8(output@).len() == staged_length);
    }
    let length = output.as_str().len();
    let output_length = match Q::try_from_usize(length) {
        Ok(length) => length,
        Err(source) => {
            return Err(
                BudgetedStringError::Quantity { resource: budget.resource().clone(), source },
            );
        },
    };
    match budget.try_consume(output_length) {
        Ok(()) => {},
        Err(error) => {
            return Err(BudgetedStringError::Budget(error));
        },
    }
    Ok(output)
}

/// Renders a string into a staging writer and charges its complete UTF-8
/// byte length to `budget`, all or nothing.
///
/// The renderer is handed a fresh writer over `budget`: nothing staged, no
/// failure. What it staged, whether an append was refused, and what it
/// returned then settle as [`rendering_settled`] describes. Every failure
/// leaves the budget unchanged; success charges exactly the returned
/// string's byte length.
pub(crate) fn render_budgeted_string<R, Q, E, F>(budget: &mut ResourceBudget<R, Q>, render: F) -> (result:
    Result<String, BudgetedStringError<R, E, Q>>) where
    R: Clone,
    Q: ResourceQuantity,
    F: FnOnce(&mut BudgetedStringWriter<'_, R, Q>) -> Result<(), E>,

    requires
        forall|writer: &mut BudgetedStringWriter<'_, R, Q>| #[trigger] render.requires((writer,)),
    ensures
        exists|writer: &mut BudgetedStringWriter<'_, R, Q>, rendered: Result<(), E>|
            {
                &&& #[trigger] render.ensures((writer,), rendered)
                &&& writer.spec_budget() == *old(budget)
                &&& writer.spec_output() == Seq::<u8>::empty()
                &&& !writer.has_failed()
                &&& rendering_settled(
                    *old(budget),
                    final(writer).spec_output(),
                    final(writer).spec_failure(),
                    rendered,
                    *final(budget),
                    result,
                )
            },
        final(budget).spec_resource_limit() == old(budget).spec_resource_limit(),
        match result {
            Ok(text) => {
                &&& valid_utf8(encode_utf8(text@))
                &&& encode_utf8(text@).len() <= old(budget).spec_remaining().as_nat()
                &&& final(budget).spec_remaining().as_nat() == old(budget).spec_remaining().as_nat()
                    - encode_utf8(text@).len()
            },
            Err(_) => final(budget).spec_remaining() == old(budget).spec_remaining(),
        },
{
    let ghost before = *budget;
    let (bytes, failure, rendered) = {
        let mut writer = BudgetedStringWriter::new(&*budget);
        let ghost fresh = writer;
        let rendered = render(&mut writer);
        let ghost staged_writer = writer;
        let (bytes, failure) = writer.into_parts();
        proof {
            assert(exists|w: &mut BudgetedStringWriter<'_, R, Q>|
                render.ensures((w,), rendered) && *w == fresh && *final(w) == staged_writer);
        }
        (bytes, failure, rendered)
    };
    let result = settle_rendering(budget, bytes, failure, rendered);
    proof {
        if result is Ok {
            vstd::utf8::decode_utf8_encode_utf8(bytes@);
        }
    }
    result
}

impl<R: Clone, Q: ResourceQuantity> ResourceBudget<R, Q> {
    /// Renders a UTF-8 string and charges its complete byte length, all or
    /// nothing: bytes are charged only once the whole output exists and is
    /// valid UTF-8. Every failure leaves the budget unchanged.
    ///
    /// The renderer is handed a fresh writer over this budget, and the
    /// outcome is as [`rendering_settled`] describes for what it staged and
    /// returned.
    pub fn try_write_string<E, F>(&mut self, render: F) -> (result: Result<
        String,
        BudgetedStringError<R, E, Q>,
    >) where F: FnOnce(&mut BudgetedStringWriter<'_, R, Q>) -> Result<(), E>
        requires
            forall|writer: &mut BudgetedStringWriter<'_, R, Q>| #[trigger] render.requires((writer,)),
        ensures
            exists|writer: &mut BudgetedStringWriter<'_, R, Q>, rendered: Result<(), E>|
                {
                    &&& #[trigger] render.ensures((writer,), rendered)
                    &&& writer.spec_budget() == *old(self)
                    &&& writer.spec_output() == Seq::<u8>::empty()
                    &&& !writer.has_failed()
                    &&& rendering_settled(
                        *old(self),
                        final(writer).spec_output(),
                        final(writer).spec_failure(),
                        rendered,
                        *final(self),
                        result,
                    )
                },
            final(self).spec_resource_limit() == old(self).spec_resource_limit(),
            match result {
                Ok(text) => {
                    &&& valid_utf8(encode_utf8(text@))
                    &&& encode_utf8(text@).len() <= old(self).spec_remaining().as_nat()
                    &&& final(self).spec_remaining().as_nat() == old(self).spec_remaining().as_nat()
                        - encode_utf8(text@).len()
                },
                Err(_) => final(self).spec_remaining() == old(self).spec_remaining(),
            },
    {
        render_budgeted_string(self, render)
    }
}

} // verus!
