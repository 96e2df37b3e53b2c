//! Properties of JSON admission as a whole.

use vstd::prelude::*;

use super::digits_end;
use super::first_rejection;
use super::is_json_document;
use super::scan_frames;
use super::scan_outcome;
use super::scan_value;
use super::whitespace_end;
use super::JsonBudget;
use super::JsonEvent;
use super::JsonSerdeError;

verus! {

/// A session whose limits configure nothing admits every event, so the
/// lexical preflight under it fails exactly on input that is not one JSON
/// document.
pub proof fn law_unconfigured_session_admits_everything<R>(
    budget: JsonBudget<R>,
    charged: nat,
    events: Seq<JsonEvent>,
)
    requires
        budget.spec_structure().wf(),
        budget.spec_structure().spec_limits().is_unconfigured(),
        budget.spec_limits().spec_string_bytes() is None,
        budget.spec_limits().spec_number_bytes() is None,
    ensures
        first_rejection(budget, charged, events) is None,
    decreases events.len(),
{
    budget.spec_structure().lemma_wf_nodes();
    if events.len() > 0 {
        law_unconfigured_session_admits_everything(
            budget,
            charged + super::node_weight(events[0]),
            events.drop_first(),
        );
    }
}

/// A digit run reaches the end of the input when every byte from `pos` on
/// is an ASCII decimal digit.
proof fn lemma_digit_run_reaches_end(input: Seq<u8>, pos: int)
    requires
        0 <= pos <= input.len(),
        forall|i: int| pos <= i < input.len() ==> 0x30 <= #[trigger] input[i] <= 0x39,
    ensures
        digits_end(input, pos) == input.len(),
    decreases input.len() - pos,
{
    if pos < input.len() {
        lemma_digit_run_reaches_end(input, pos + 1);
    }
}

/// Every non-empty run of the ASCII decimal digits `0` to `9`, without a
/// leading zero unless it is the single digit `0`, is one JSON document: a
/// number whose lexical length is the whole run.
pub proof fn law_digit_runs_are_documents(text: Seq<u8>, root_depth: usize)
    requires
        text.len() > 0,
        forall|i: int| 0 <= i < text.len() ==> 0x30 <= #[trigger] text[i] <= 0x39,
        text.len() > 1 ==> text[0] != 0x30,
    ensures
        is_json_document(text, root_depth),
        scan_value(text, root_depth).0 == seq![
            JsonEvent::Node(root_depth),
            JsonEvent::NumberBytes(text.len() as usize),
        ],
{
    let len = text.len() as int;
    assert(0x30 <= text[0] <= 0x39);
    assert(whitespace_end(text, 0) == 0);
    lemma_digit_run_reaches_end(text, 1);
    assert(whitespace_end(text, len) == len);
    assert(scan_frames(text, len, Seq::empty()) == (Seq::<JsonEvent>::empty(), Some(len)));
    assert(seq![JsonEvent::Node(root_depth)].push(JsonEvent::NumberBytes(text.len() as usize))
        + Seq::<JsonEvent>::empty() =~= seq![
        JsonEvent::Node(root_depth),
        JsonEvent::NumberBytes(text.len() as usize),
    ]);
}

/// Under a session whose limits configure nothing, a scan of a JSON
/// document succeeds: the preflight of a valid document is `Ok`.
pub proof fn law_unconfigured_session_accepts_documents<R: Clone>(
    budget: JsonBudget<R>,
    input: Seq<u8>,
    root_depth: usize,
    after: JsonBudget<R>,
    result: Result<(), JsonSerdeError<R>>,
)
    requires
        budget.spec_structure().wf(),
        budget.spec_structure().spec_limits().is_unconfigured(),
        budget.spec_limits().spec_string_bytes() is None,
        budget.spec_limits().spec_number_bytes() is None,
        is_json_document(input, root_depth),
        scan_outcome(
            budget,
            scan_value(input, root_depth).0,
            is_json_document(input, root_depth),
            after,
            result,
        ),
    ensures
        result is Ok,
{
    law_unconfigured_session_admits_everything(budget, 0, scan_value(input, root_depth).0);
}

} // verus!
