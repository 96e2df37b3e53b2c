//! How a JSON budget session answers the events of a scan.

use vstd::prelude::*;

use super::ContainerFrame;
use super::JsonBudget;
use super::JsonEvent;
use super::JsonSerdeError;
use super::ScanStep;
use crate::resource::optional_limit_result;
use crate::resource::BudgetError;
use crate::resource::ResourceQuantity;
use crate::structure::limit_accepts;

verus! {

/// The nodes an event charges: one for a value, none for a measurement.
pub open spec fn node_weight(event: JsonEvent) -> nat {
    if event is Node {
        1
    } else {
        0
    }
}

/// The nodes a sequence of events charges.
pub open spec fn nodes_of(events: Seq<JsonEvent>) -> nat
    decreases events.len(),
{
    if events.len() == 0 {
        0
    } else {
        node_weight(events[0]) + nodes_of(events.drop_first())
    }
}

/// Whether `budget`, once `charged` more nodes have been charged to it,
/// admits `event`: a value needs an accepted depth and one node of
/// capacity; a measurement needs its limit to accept it.
pub open spec fn admits_event<R>(budget: JsonBudget<R>, charged: nat, event: JsonEvent) -> bool {
    let structure = budget.spec_structure().spec_limits();
    match event {
        JsonEvent::Node(depth) => limit_accepts(structure.spec_depth(), depth) && match budget.spec_structure().spec_nodes() {
            None => true,
            Some(nodes) => charged + 1 <= nodes.spec_remaining().as_nat(),
        },
        JsonEvent::SequenceItems(items) => limit_accepts(structure.spec_sequence_items(), items),
        JsonEvent::MapEntries(entries) => limit_accepts(structure.spec_map_entries(), entries),
        JsonEvent::KeyBytes(bytes) => limit_accepts(structure.spec_key_bytes(), bytes),
        JsonEvent::StringBytes(bytes) => limit_accepts(budget.spec_limits().spec_string_bytes(), bytes),
        JsonEvent::NumberBytes(bytes) => limit_accepts(budget.spec_limits().spec_number_bytes(), bytes),
    }
}

/// The error with which `budget`, once `charged` more nodes have been
/// charged to it, rejects `event`: a rejected depth or measurement reports
/// its limit; a value beyond the node capacity reports the node budget's
/// balance at that point.
pub open spec fn rejection_error<R: Clone>(
    budget: JsonBudget<R>,
    charged: nat,
    event: JsonEvent,
    error: BudgetError<R, usize>,
) -> bool {
    let structure = budget.spec_structure().spec_limits();
    match event {
        JsonEvent::Node(depth) => if !limit_accepts(structure.spec_depth(), depth) {
            optional_limit_result(structure.spec_depth(), depth, Err(error))
        } else {
            match budget.spec_structure().spec_nodes() {
                None => false,
                Some(nodes) => {
                    &&& error matches BudgetError::Insufficient {
                        resource,
                        limit,
                        remaining,
                        requested,
                    }
                    &&& cloned(nodes.spec_resource(), resource)
                    &&& limit == nodes.spec_limit()
                    &&& remaining.as_nat() + charged == nodes.spec_remaining().as_nat()
                    &&& requested == 1usize
                },
            }
        },
        JsonEvent::SequenceItems(items) => optional_limit_result(
            structure.spec_sequence_items(),
            items,
            Err(error),
        ),
        JsonEvent::MapEntries(entries) => optional_limit_result(
            structure.spec_map_entries(),
            entries,
            Err(error),
        ),
        JsonEvent::KeyBytes(bytes) => optional_limit_result(structure.spec_key_bytes(), bytes, Err(error)),
        JsonEvent::StringBytes(bytes) => optional_limit_result(
            budget.spec_limits().spec_string_bytes(),
            bytes,
            Err(error),
        ),
        JsonEvent::NumberBytes(bytes) => optional_limit_result(
            budget.spec_limits().spec_number_bytes(),
            bytes,
            Err(error),
        ),
    }
}

/// The index of the first of `events` that `budget` rejects when `charged`
/// more nodes were charged before them, or `None` when it admits them all.
pub open spec fn first_rejection<R>(budget: JsonBudget<R>, charged: nat, events: Seq<JsonEvent>) -> Option<nat>
    decreases events.len(),
{
    if events.len() == 0 {
        None
    } else if !admits_event(budget, charged, events[0]) {
        Some(0)
    } else {
        match first_rejection(budget, charged + node_weight(events[0]), events.drop_first()) {
            Some(index) => Some(index + 1),
            None => None,
        }
    }
}

/// `after` is `before` with `count` more nodes charged and nothing else
/// changed.
pub open spec fn charged_by<R>(before: JsonBudget<R>, after: JsonBudget<R>, count: nat) -> bool {
    &&& after.spec_limits() == before.spec_limits()
    &&& after.spec_structure().spec_limits() == before.spec_structure().spec_limits()
    &&& match (before.spec_structure().spec_nodes(), after.spec_structure().spec_nodes()) {
        (None, None) => true,
        (Some(b), Some(a)) => {
            &&& a.spec_resource_limit() == b.spec_resource_limit()
            &&& a.spec_remaining().as_nat() + count == b.spec_remaining().as_nat()
        },
        _ => false,
    }
}

/// The outcome of presenting `events` to `before`, in order, stopping at
/// the first rejection: that rejection is reported and the nodes of the
/// admitted events stay charged. When every event is admitted, all their
/// nodes are charged and the result is success when `valid`, and a JSON
/// error otherwise.
pub open spec fn scan_outcome<R: Clone>(
    before: JsonBudget<R>,
    events: Seq<JsonEvent>,
    valid: bool,
    after: JsonBudget<R>,
    result: Result<(), JsonSerdeError<R>>,
) -> bool {
    match first_rejection(before, 0, events) {
        Some(index) => {
            let charged = nodes_of(events.take(index as int));
            &&& charged_by(before, after, charged)
            &&& result matches Err(JsonSerdeError::Budget(error))
            &&& rejection_error(before, charged, events[index as int], error)
        },
        None => {
            &&& charged_by(before, after, nodes_of(events))
            &&& if valid {
                result is Ok
            } else {
                result matches Err(JsonSerdeError::Json(_))
            }
        },
    }
}

/// The outcome of one scanning step against `before`, as [`scan_outcome`],
/// where success also leaves the scan at the step's position and open
/// containers.
pub open spec fn step_outcome<R: Clone>(
    before: JsonBudget<R>,
    step: ScanStep,
    after: JsonBudget<R>,
    position: int,
    stack: Seq<ContainerFrame>,
    result: Result<(), JsonSerdeError<R>>,
) -> bool {
    &&& scan_outcome(before, step.0, step.1 is Some, after, result)
    &&& result is Ok ==> step.1 == Some((position, stack))
}

/// Node counts add up over concatenation.
pub proof fn lemma_nodes_of_concat(a: Seq<JsonEvent>, b: Seq<JsonEvent>)
    ensures
        nodes_of(a + b) == nodes_of(a) + nodes_of(b),
    decreases a.len(),
{
    if a.len() > 0 {
        assert((a + b).drop_first() =~= a.drop_first() + b);
        lemma_nodes_of_concat(a.drop_first(), b);
    } else {
        assert(a + b =~= b);
    }
}

/// One event charges its own weight.
pub proof fn lemma_nodes_of_single(event: JsonEvent)
    ensures
        nodes_of(seq![event]) == node_weight(event),
{
    assert(seq![event].drop_first() =~= Seq::<JsonEvent>::empty());
    assert(nodes_of(Seq::<JsonEvent>::empty()) == 0);
}

/// The first rejection in a concatenation is the first in its front part,
/// or else the first in its back part, shifted.
pub proof fn lemma_first_rejection_concat<R>(
    budget: JsonBudget<R>,
    charged: nat,
    a: Seq<JsonEvent>,
    b: Seq<JsonEvent>,
)
    ensures
        first_rejection(budget, charged, a + b) == match first_rejection(budget, charged, a) {
            Some(index) => Some(index),
            None => match first_rejection(budget, charged + nodes_of(a), b) {
                Some(index) => Some(index + a.len()),
                None => None,
            },
        },
    decreases a.len(),
{
    if a.len() > 0 {
        assert((a + b).drop_first() =~= a.drop_first() + b);
        assert((a + b)[0] == a[0]);
        lemma_first_rejection_concat(budget, charged + node_weight(a[0]), a.drop_first(), b);
    } else {
        assert(a + b =~= b);
    }
}

/// A rejection index lies within the events, and the node count charged
/// before it is that of the events before it.
pub proof fn lemma_first_rejection_index<R>(
    budget: JsonBudget<R>,
    charged: nat,
    events: Seq<JsonEvent>,
)
    ensures
        match first_rejection(budget, charged, events) {
            Some(index) => {
                &&& index < events.len()
                &&& !admits_event(budget, charged + nodes_of(events.take(index as int)), events[index as int])
            },
            None => true,
        },
    decreases events.len(),
{
    if events.len() > 0 && admits_event(budget, charged, events[0]) {
        let rest = events.drop_first();
        lemma_first_rejection_index(budget, charged + node_weight(events[0]), rest);
        match first_rejection(budget, charged + node_weight(events[0]), rest) {
            Some(index) => {
                assert(events.take(index + 1 as int) =~= seq![events[0]] + rest.take(index as int));
                lemma_nodes_of_concat(seq![events[0]], rest.take(index as int));
                lemma_nodes_of_single(events[0]);
            },
            None => {},
        }
    } else if events.len() > 0 {
        assert(events.take(0) =~= Seq::<JsonEvent>::empty());
    }
}

/// A session with `count` nodes charged answers as the session it came from with
/// `count` more nodes charged.
pub proof fn lemma_charged_answers<R: Clone>(
    before: JsonBudget<R>,
    after: JsonBudget<R>,
    count: nat,
    charged: nat,
    events: Seq<JsonEvent>,
)
    requires
        charged_by(before, after, count),
    ensures
        first_rejection(after, charged, events) == first_rejection(before, charged + count, events),
        forall|event: JsonEvent|
            #![auto]
            admits_event(after, charged, event) == admits_event(before, charged + count, event),
        forall|event: JsonEvent, error: BudgetError<R, usize>|
            #![auto]
            rejection_error(after, charged, event, error) == rejection_error(
                before,
                charged + count,
                event,
                error,
            ),
    decreases events.len(),
{
    if events.len() > 0 {
        lemma_charged_answers(
            before,
            after,
            count,
            charged + node_weight(events[0]),
            events.drop_first(),
        );
    }
}

/// Charging composes.
pub proof fn lemma_charged_by_trans<R>(
    a: JsonBudget<R>,
    b: JsonBudget<R>,
    c: JsonBudget<R>,
    first: nat,
    second: nat,
)
    requires
        charged_by(a, b, first),
        charged_by(b, c, second),
    ensures
        charged_by(a, c, first + second),
{
}

/// Events that were all admitted can be put in front of the outcome of the
/// rest of the scan.
pub proof fn lemma_outcome_after_admitted<R: Clone>(
    before: JsonBudget<R>,
    events: Seq<JsonEvent>,
    middle: JsonBudget<R>,
    step: ScanStep,
    after: JsonBudget<R>,
    position: int,
    stack: Seq<ContainerFrame>,
    result: Result<(), JsonSerdeError<R>>,
)
    requires
        scan_outcome(before, events, true, middle, Ok(())),
        step_outcome(middle, step, after, position, stack, result),
    ensures
        step_outcome(before, (events + step.0, step.1), after, position, stack, result),
{
    let all = events + step.0;
    let count = nodes_of(events);
    lemma_first_rejection_concat(before, 0, events, step.0);
    lemma_charged_answers(before, middle, count, 0, step.0);
    lemma_nodes_of_concat(events, step.0);
    lemma_first_rejection_index(middle, 0, step.0);
    match first_rejection(middle, 0, step.0) {
        Some(index) => {
            let k = index + events.len();
            assert(all.take(k as int) =~= events + step.0.take(index as int));
            lemma_nodes_of_concat(events, step.0.take(index as int));
            assert(all[k as int] == step.0[index as int]);
            lemma_charged_by_trans(before, middle, after, count, nodes_of(step.0.take(index as int)));
        },
        None => {
            lemma_charged_by_trans(before, middle, after, count, nodes_of(step.0));
        },
    }
}

/// A rejection among the first events decides the outcome of every scan
/// that begins with them, whatever it would have done next.
pub proof fn lemma_outcome_rejected<R: Clone>(
    before: JsonBudget<R>,
    events: Seq<JsonEvent>,
    after: JsonBudget<R>,
    result: Result<(), JsonSerdeError<R>>,
    all: Seq<JsonEvent>,
    valid: bool,
)
    requires
        scan_outcome(before, events, true, after, result),
        result is Err,
        events.len() <= all.len(),
        all.take(events.len() as int) == events,
    ensures
        scan_outcome(before, all, valid, after, result),
{
    let more = all.skip(events.len() as int);
    assert(all =~= events + more);
    lemma_first_rejection_concat(before, 0, events, more);
    let index = first_rejection(before, 0, events)->0;
    lemma_first_rejection_index(before, 0, events);
    assert(all.take(index as int) =~= events.take(index as int));
    assert(all[index as int] == events[index as int]);
}

/// Events that were all admitted leave a scan that ends there invalid.
pub proof fn lemma_outcome_invalid<R: Clone>(
    before: JsonBudget<R>,
    events: Seq<JsonEvent>,
    after: JsonBudget<R>,
    result: Result<(), JsonSerdeError<R>>,
)
    requires
        scan_outcome(before, events, true, after, Ok(())),
        result matches Err(JsonSerdeError::Json(_)),
    ensures
        scan_outcome(before, events, false, after, result),
{
}

/// Presents one event to the session: a value enters a node, a measurement
/// is checked against its limit.
pub(crate) fn present_event<R: Clone>(budget: &mut JsonBudget<R>, event: JsonEvent) -> (result: Result<
    (),
    JsonSerdeError<R>,
>)
    ensures
        scan_outcome(*old(budget), seq![event], true, *final(budget), result),
{
    proof {
        let none = Seq::<JsonEvent>::empty();
        assert(seq![event].drop_first() =~= none);
        assert(seq![event].take(0) =~= none);
        assert(first_rejection(*old(budget), node_weight(event), none) is None);
        assert(nodes_of(none) == 0);
        lemma_nodes_of_single(event);
    }
    let checked = match event {
        JsonEvent::Node(depth) => budget.enter_node(depth),
        JsonEvent::SequenceItems(items) => budget.check_sequence_items(items),
        JsonEvent::MapEntries(entries) => budget.check_map_entries(entries),
        JsonEvent::KeyBytes(bytes) => budget.check_key_bytes(bytes),
        JsonEvent::StringBytes(bytes) => budget.check_string_bytes(bytes),
        JsonEvent::NumberBytes(bytes) => budget.check_number_bytes(bytes),
    };
    match checked {
        Ok(()) => Ok(()),
        Err(error) => Err(JsonSerdeError::Budget(error)),
    }
}

} // verus!
