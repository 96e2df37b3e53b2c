//! The JSON grammar as scanned by the lexical preflight, and the budget
//! events each value produces.

use vstd::prelude::*;
use vstd::utf8::valid_utf8;


verus! {

/// A measurement the scan presents to the budget, in document order.
#[derive(Debug, Clone, Copy, PartialEq, Eq)]
pub enum JsonEvent {
    /// A value at the given root-inclusive depth.
    Node(usize),
    /// The running item count of an array, once per item.
    SequenceItems(usize),
    /// The running entry count of an object, once per entry.
    MapEntries(usize),
    /// The decoded byte length of an object key.
    KeyBytes(usize),
    /// The decoded byte length of a string value.
    StringBytes(usize),
    /// The textual byte length of a number.
    NumberBytes(usize),
}

/// An open container whose remaining members are still to be scanned.
#[derive(Debug, Clone, Copy, PartialEq, Eq)]
pub enum ContainerFrame {
    /// An array ready for its first or next value.
    ArrayValue {
        /// Root-inclusive depth of the array.
        depth: usize,
        /// Items already admitted in this array.
        items: usize,
    },
    /// An array waiting for a comma or its closing bracket.
    ArrayDelimiter {
        /// Root-inclusive depth of the array.
        depth: usize,
        /// Items already admitted in this array.
        items: usize,
    },
    /// An object ready for its first or next key.
    ObjectKey {
        /// Root-inclusive depth of the object.
        depth: usize,
        /// Entries already admitted in this object.
        entries: usize,
    },
    /// An object waiting for a comma or its closing brace.
    ObjectDelimiter {
        /// Root-inclusive depth of the object.
        depth: usize,
        /// Entries already admitted in this object.
        entries: usize,
    },
}

/// The outcome of one scanning step: the events it produced, then either
/// the position and open containers to continue from, or `None` when the
/// input is not valid JSON at this point.
pub type ScanStep = (Seq<JsonEvent>, Option<(int, Seq<ContainerFrame>)>);

/// Whether `input` holds `byte` at `pos`.
pub open spec fn byte_at(input: Seq<u8>, pos: int, byte: u8) -> bool {
    0 <= pos < input.len() && input[pos] == byte
}

/// JSON whitespace: space, line feed, carriage return and tab.
pub open spec fn is_json_whitespace(byte: u8) -> bool {
    byte == 0x20 || byte == 0x0A || byte == 0x0D || byte == 0x09
}

/// The first position at or after `pos` that is not whitespace.
pub open spec fn whitespace_end(input: Seq<u8>, pos: int) -> int
    decreases input.len() - pos,
{
    if 0 <= pos < input.len() && is_json_whitespace(input[pos]) {
        whitespace_end(input, pos + 1)
    } else {
        pos
    }
}

/// Whether `pos` ends a scalar: the end of input, whitespace, a comma, or
/// a closing bracket or brace.
pub open spec fn is_value_delimiter(input: Seq<u8>, pos: int) -> bool {
    pos >= input.len() || is_json_whitespace(input[pos]) || input[pos] == 0x2C || input[pos]
        == 0x5D || input[pos] == 0x7D
}

/// Whether `byte` is an ASCII decimal digit.
pub open spec fn is_digit(byte: u8) -> bool {
    0x30 <= byte <= 0x39
}

/// The value of one hexadecimal digit.
pub open spec fn hex_digit_value(byte: u8) -> Option<int> {
    if 0x30 <= byte <= 0x39 {
        Some(byte - 0x30)
    } else if 0x61 <= byte <= 0x66 {
        Some(byte - 0x61 + 10)
    } else if 0x41 <= byte <= 0x46 {
        Some(byte - 0x41 + 10)
    } else {
        None
    }
}

/// The value of the four hexadecimal digits at `pos`, if there are four.
pub open spec fn hex_quad_value(input: Seq<u8>, pos: int) -> Option<int> {
    if 0 <= pos && pos + 4 <= input.len() {
        match (
            hex_digit_value(input[pos]),
            hex_digit_value(input[pos + 1]),
            hex_digit_value(input[pos + 2]),
            hex_digit_value(input[pos + 3]),
        ) {
            (Some(a), Some(b), Some(c), Some(d)) => Some(((a * 16 + b) * 16 + c) * 16 + d),
            _ => None,
        }
    } else {
        None
    }
}

/// The UTF-8 byte length of a Unicode scalar value.
pub open spec fn utf8_width_of(scalar: int) -> int {
    if scalar < 0x80 {
        1
    } else if scalar < 0x800 {
        2
    } else if scalar < 0x1_0000 {
        3
    } else {
        4
    }
}

/// A `\u` escape whose `u` stands at `pos`: the position after it and the
/// UTF-8 byte length of the character it denotes. A high surrogate must be
/// followed by an escaped low surrogate; a lone low surrogate is invalid.
pub open spec fn unicode_escape(input: Seq<u8>, pos: int) -> Option<(int, int)> {
    match hex_quad_value(input, pos + 1) {
        None => None,
        Some(first) => if 0xD800 <= first <= 0xDBFF {
            if pos + 7 <= input.len() && input[pos + 5] == 0x5C && input[pos + 6] == 0x75 {
                match hex_quad_value(input, pos + 7) {
                    Some(second) => if 0xDC00 <= second <= 0xDFFF {
                        Some((pos + 11, 4))
                    } else {
                        None
                    },
                    None => None,
                }
            } else {
                None
            }
        } else if 0xDC00 <= first <= 0xDFFF {
            None
        } else {
            Some((pos + 5, utf8_width_of(first)))
        },
    }
}

/// The length of the UTF-8 sequence a leading byte announces, for the
/// leading bytes a well-formed multi-byte sequence can start with.
pub open spec fn utf8_lead_width(byte: u8) -> Option<int> {
    if 0xC2 <= byte <= 0xDF {
        Some(2)
    } else if 0xE0 <= byte <= 0xEF {
        Some(3)
    } else if 0xF0 <= byte <= 0xF4 {
        Some(4)
    } else {
        None
    }
}

/// Whether `byte` names a single-character escape after a backslash.
pub open spec fn is_simple_escape(byte: u8) -> bool {
    byte == 0x22 || byte == 0x5C || byte == 0x2F || byte == 0x62 || byte == 0x66 || byte == 0x6E
        || byte == 0x72 || byte == 0x74
}

/// The rest of a string whose body continues at `pos`, having decoded
/// `decoded` bytes so far: the position after the closing quote and the
/// total decoded UTF-8 byte length.
pub open spec fn string_body(input: Seq<u8>, pos: int, decoded: int) -> Option<(int, int)>
    decreases input.len() - pos,
{
    if !(0 <= pos < input.len()) {
        None
    } else {
        let byte = input[pos];
        if byte == 0x22 {
            Some((pos + 1, decoded))
        } else if byte == 0x5C {
            if pos + 1 >= input.len() {
                None
            } else if is_simple_escape(input[pos + 1]) {
                string_body(input, pos + 2, decoded + 1)
            } else if input[pos + 1] == 0x75 {
                match unicode_escape(input, pos + 1) {
                    Some((end, width)) => if pos < end {
                        string_body(input, end, decoded + width)
                    } else {
                        None
                    },
                    None => None,
                }
            } else {
                None
            }
        } else if 0x20 <= byte <= 0x7F {
            string_body(input, pos + 1, decoded + 1)
        } else if byte >= 0x80 {
            match utf8_lead_width(byte) {
                Some(width) => if pos + width <= input.len() && valid_utf8(
                    input.subrange(pos, pos + width),
                ) {
                    string_body(input, pos + width, decoded + width)
                } else {
                    None
                },
                None => None,
            }
        } else {
            None
        }
    }
}

/// The string whose opening quote stands at `pos`: the position after its
/// closing quote and its decoded UTF-8 byte length.
pub open spec fn string_token(input: Seq<u8>, pos: int) -> Option<(int, int)> {
    string_body(input, pos + 1, 0)
}

/// The first position at or after `pos` that is not a digit.
pub open spec fn digits_end(input: Seq<u8>, pos: int) -> int
    decreases input.len() - pos,
{
    if 0 <= pos < input.len() && is_digit(input[pos]) {
        digits_end(input, pos + 1)
    } else {
        pos
    }
}

/// The integer part of a number at `pos`: `0`, or a non-zero digit
/// followed by digits.
pub open spec fn integer_part_end(input: Seq<u8>, pos: int) -> Option<int> {
    if 0 <= pos < input.len() && input[pos] == 0x30 {
        Some(pos + 1)
    } else if 0 <= pos < input.len() && 0x31 <= input[pos] <= 0x39 {
        Some(digits_end(input, pos + 1))
    } else {
        None
    }
}

/// An optional fraction at `pos`: a dot followed by at least one digit.
pub open spec fn fraction_end(input: Seq<u8>, pos: int) -> Option<int> {
    if 0 <= pos < input.len() && input[pos] == 0x2E {
        if pos + 1 < input.len() && is_digit(input[pos + 1]) {
            Some(digits_end(input, pos + 1))
        } else {
            None
        }
    } else {
        Some(pos)
    }
}

/// An optional exponent at `pos`: `e` or `E`, an optional sign, and at
/// least one digit.
pub open spec fn exponent_end(input: Seq<u8>, pos: int) -> Option<int> {
    if 0 <= pos < input.len() && (input[pos] == 0x65 || input[pos] == 0x45) {
        let digits = if pos + 1 < input.len() && (input[pos + 1] == 0x2B || input[pos + 1]
            == 0x2D) {
            pos + 2
        } else {
            pos + 1
        };
        if digits < input.len() && is_digit(input[digits]) {
            Some(digits_end(input, digits))
        } else {
            None
        }
    } else {
        Some(pos)
    }
}

/// The number starting at `pos`, which must be followed by a delimiter:
/// the position after it.
pub open spec fn number_token(input: Seq<u8>, pos: int) -> Option<int> {
    let integer = if 0 <= pos < input.len() && input[pos] == 0x2D {
        pos + 1
    } else {
        pos
    };
    match integer_part_end(input, integer) {
        None => None,
        Some(after_integer) => match fraction_end(input, after_integer) {
            None => None,
            Some(after_fraction) => match exponent_end(input, after_fraction) {
                None => None,
                Some(end) => if is_value_delimiter(input, end) {
                    Some(end)
                } else {
                    None
                },
            },
        },
    }
}

/// The literal `word` at `pos`, which must be followed by a delimiter: the
/// position after it.
pub open spec fn literal_token(input: Seq<u8>, pos: int, word: Seq<u8>) -> Option<int> {
    if 0 <= pos && pos + word.len() <= input.len() && input.subrange(pos, pos + word.len()) == word
        && is_value_delimiter(input, pos + word.len()) {
        Some(pos + word.len())
    } else {
        None
    }
}

/// The bytes of `true`.
pub open spec fn true_word() -> Seq<u8> {
    seq![0x74u8, 0x72u8, 0x75u8, 0x65u8]
}

/// The bytes of `false`.
pub open spec fn false_word() -> Seq<u8> {
    seq![0x66u8, 0x61u8, 0x6Cu8, 0x73u8, 0x65u8]
}

/// The bytes of `null`.
pub open spec fn null_word() -> Seq<u8> {
    seq![0x6Eu8, 0x75u8, 0x6Cu8, 0x6Cu8]
}

/// The depth of a container's members, saturating at `usize::MAX`.
pub open spec fn child_depth(depth: usize) -> usize {
    if depth == usize::MAX {
        depth
    } else {
        (depth + 1) as usize
    }
}

/// One value at `pos` (after optional whitespace) at `depth`: a container
/// opens a frame on top of `stack`; a scalar is scanned completely.
pub open spec fn value_step(
    input: Seq<u8>,
    pos: int,
    depth: usize,
    stack: Seq<ContainerFrame>,
) -> ScanStep {
    let start = whitespace_end(input, pos);
    if !(0 <= start < input.len()) {
        (Seq::empty(), None)
    } else {
        let byte = input[start];
        let node = seq![JsonEvent::Node(depth)];
        if byte == 0x7B {
            (node, Some((start + 1, stack.push(ContainerFrame::ObjectKey { depth, entries: 0 }))))
        } else if byte == 0x5B {
            (node, Some((start + 1, stack.push(ContainerFrame::ArrayValue { depth, items: 0 }))))
        } else if byte == 0x22 {
            match string_token(input, start) {
                Some((end, bytes)) => (
                    node.push(JsonEvent::StringBytes(bytes as usize)),
                    Some((end, stack)),
                ),
                None => (node, None),
            }
        } else if byte == 0x2D || is_digit(byte) {
            match number_token(input, start) {
                Some(end) => (
                    node.push(JsonEvent::NumberBytes((end - start) as usize)),
                    Some((end, stack)),
                ),
                None => (node, None),
            }
        } else if byte == 0x74 {
            match literal_token(input, start, true_word()) {
                Some(end) => (node, Some((end, stack))),
                None => (Seq::empty(), None),
            }
        } else if byte == 0x66 {
            match literal_token(input, start, false_word()) {
                Some(end) => (node, Some((end, stack))),
                None => (Seq::empty(), None),
            }
        } else if byte == 0x6E {
            match literal_token(input, start, null_word()) {
                Some(end) => (node, Some((end, stack))),
                None => (Seq::empty(), None),
            }
        } else {
            (Seq::empty(), None)
        }
    }
}

/// `events` followed by the events of `step`.
pub open spec fn prefix_step(events: Seq<JsonEvent>, step: ScanStep) -> ScanStep {
    (events + step.0, step.1)
}

/// Resumes the open container `frame` at `pos`; `rest` are the containers
/// enclosing it.
pub open spec fn frame_step(
    input: Seq<u8>,
    pos: int,
    frame: ContainerFrame,
    rest: Seq<ContainerFrame>,
) -> ScanStep {
    let p = whitespace_end(input, pos);
    match frame {
        ContainerFrame::ArrayValue { depth, items } => if byte_at(input, p, 0x5D) {
            if items == 0 {
                (Seq::empty(), Some((p + 1, rest)))
            } else {
                (Seq::empty(), None)
            }
        } else if items == usize::MAX {
            (Seq::empty(), None)
        } else {
            let items = (items + 1) as usize;
            prefix_step(
                seq![JsonEvent::SequenceItems(items)],
                value_step(
                    input,
                    p,
                    child_depth(depth),
                    rest.push(ContainerFrame::ArrayDelimiter { depth, items }),
                ),
            )
        },
        ContainerFrame::ArrayDelimiter { depth, items } => if byte_at(input, p, 0x2C) {
            (Seq::empty(), Some((p + 1, rest.push(ContainerFrame::ArrayValue { depth, items }))))
        } else if byte_at(input, p, 0x5D) {
            (Seq::empty(), Some((p + 1, rest)))
        } else {
            (Seq::empty(), None)
        },
        ContainerFrame::ObjectKey { depth, entries } => if byte_at(input, p, 0x7D) {
            if entries == 0 {
                (Seq::empty(), Some((p + 1, rest)))
            } else {
                (Seq::empty(), None)
            }
        } else if !byte_at(input, p, 0x22) || entries == usize::MAX {
            (Seq::empty(), None)
        } else {
            let entries = (entries + 1) as usize;
            let counted = seq![JsonEvent::MapEntries(entries)];
            match string_token(input, p) {
                None => (counted, None),
                Some((end, bytes)) => {
                    let keyed = counted.push(JsonEvent::KeyBytes(bytes as usize));
                    let colon = whitespace_end(input, end);
                    if 0 <= colon < input.len() && input[colon] == 0x3A {
                        prefix_step(
                            keyed,
                            value_step(
                                input,
                                colon + 1,
                                child_depth(depth),
                                rest.push(ContainerFrame::ObjectDelimiter { depth, entries }),
                            ),
                        )
                    } else {
                        (keyed, None)
                    }
                },
            }
        },
        ContainerFrame::ObjectDelimiter { depth, entries } => if byte_at(input, p, 0x2C) {
            (Seq::empty(), Some((p + 1, rest.push(ContainerFrame::ObjectKey { depth, entries }))))
        } else if byte_at(input, p, 0x7D) {
            (Seq::empty(), Some((p + 1, rest)))
        } else {
            (Seq::empty(), None)
        },
    }
}

/// The events of the open containers `stack` resumed from `pos` until none
/// is left, and the position after the last one, or `None` when the input
/// is not valid JSON there.
pub open spec fn scan_frames(input: Seq<u8>, pos: int, stack: Seq<ContainerFrame>) -> (
    Seq<JsonEvent>,
    Option<int>,
)
    decreases input.len() - pos,
{
    if stack.len() == 0 {
        (Seq::empty(), Some(pos))
    } else {
        let step = frame_step(input, pos, stack.last(), stack.drop_last());
        match step.1 {
            None => (step.0, None),
            Some((next, rest)) => {
                proof {
                    lemma_frame_step_advances(input, pos, stack.last(), stack.drop_last());
                }
                let tail = scan_frames(input, next, rest);
                (step.0 + tail.0, tail.1)
            },
        }
    }
}

/// The events of the document `input` whose top-level value has depth
/// `root_depth`, and the position after that value, or `None` when the
/// input does not hold a valid value there.
pub open spec fn scan_value(input: Seq<u8>, root_depth: usize) -> (Seq<JsonEvent>, Option<int>) {
    let first = value_step(input, 0, root_depth, Seq::empty());
    match first.1 {
        None => (first.0, None),
        Some((next, stack)) => {
            let rest = scan_frames(input, next, stack);
            (first.0 + rest.0, rest.1)
        },
    }
}

/// Whether `input` is exactly one JSON value, surrounded by optional
/// whitespace.
pub open spec fn is_json_document(input: Seq<u8>, root_depth: usize) -> bool {
    match scan_value(input, root_depth).1 {
        Some(end) => whitespace_end(input, end) == input.len(),
        None => false,
    }
}

/// Skipping whitespace moves forward within the input and stops at a
/// non-whitespace byte or the end; skipping again stays put.
pub proof fn lemma_whitespace_end(input: Seq<u8>, pos: int)
    ensures
        pos <= whitespace_end(input, pos),
        pos <= input.len() ==> whitespace_end(input, pos) <= input.len(),
        pos < 0 ==> whitespace_end(input, pos) == pos,
        0 <= pos && whitespace_end(input, pos) < input.len() ==> !is_json_whitespace(
            input[whitespace_end(input, pos)],
        ),
        whitespace_end(input, whitespace_end(input, pos)) == whitespace_end(input, pos),
    decreases input.len() - pos,
{
    if 0 <= pos < input.len() && is_json_whitespace(input[pos]) {
        lemma_whitespace_end(input, pos + 1);
    }
}

/// A digit run moves forward within the input and stops at a non-digit or
/// the end.
pub proof fn lemma_digits_end(input: Seq<u8>, pos: int)
    ensures
        pos <= digits_end(input, pos),
        pos <= input.len() ==> digits_end(input, pos) <= input.len(),
        0 <= pos && digits_end(input, pos) < input.len() ==> !is_digit(
            input[digits_end(input, pos)],
        ),
        forall|i: int| pos <= i < digits_end(input, pos) ==> is_digit(#[trigger] input[i]),
    decreases input.len() - pos,
{
    if 0 <= pos < input.len() && is_digit(input[pos]) {
        lemma_digits_end(input, pos + 1);
    }
}

/// A string ends after its start, within the input, and decodes to no more
/// bytes than it spans.
pub proof fn lemma_string_body(input: Seq<u8>, pos: int, decoded: int)
    ensures
        match string_body(input, pos, decoded) {
            Some((end, total)) => pos < end <= input.len() && decoded <= total && total - decoded
                <= end - pos,
            None => true,
        },
    decreases input.len() - pos,
{
    if 0 <= pos < input.len() {
        let byte = input[pos];
        if byte == 0x22 {
        } else if byte == 0x5C {
            if pos + 1 >= input.len() {
            } else if is_simple_escape(input[pos + 1]) {
                lemma_string_body(input, pos + 2, decoded + 1);
            } else if input[pos + 1] == 0x75 {
                match unicode_escape(input, pos + 1) {
                    Some((end, width)) => {
                        if pos < end {
                            lemma_string_body(input, end, decoded + width);
                        }
                    },
                    None => {},
                }
            }
        } else if 0x20 <= byte <= 0x7F {
            lemma_string_body(input, pos + 1, decoded + 1);
        } else if byte >= 0x80 {
            match utf8_lead_width(byte) {
                Some(width) => {
                    if pos + width <= input.len() {
                        lemma_string_body(input, pos + width, decoded + width);
                    }
                },
                None => {},
            }
        }
    }
}

/// A number ends after its start and within the input.
pub proof fn lemma_number_token(input: Seq<u8>, pos: int)
    requires
        0 <= pos,
    ensures
        match number_token(input, pos) {
            Some(end) => pos < end <= input.len(),
            None => true,
        },
{
    let integer = if 0 <= pos < input.len() && input[pos] == 0x2D {
        pos + 1
    } else {
        pos
    };
    if 0 <= integer < input.len() {
        lemma_digits_end(input, integer + 1);
        match integer_part_end(input, integer) {
            Some(after_integer) => {
                lemma_digits_end(input, after_integer + 1);
                match fraction_end(input, after_integer) {
                    Some(after_fraction) => {
                        lemma_digits_end(input, after_fraction + 1);
                        lemma_digits_end(input, after_fraction + 2);
                    },
                    None => {},
                }
            },
            None => {},
        }
    }
}

/// A successful value step moves forward within the input.
pub proof fn lemma_value_step_advances(
    input: Seq<u8>,
    pos: int,
    depth: usize,
    stack: Seq<ContainerFrame>,
)
    ensures
        match value_step(input, pos, depth, stack).1 {
            Some((next, _)) => pos < next <= input.len(),
            None => true,
        },
{
    lemma_whitespace_end(input, pos);
    let start = whitespace_end(input, pos);
    if 0 <= start < input.len() {
        lemma_string_body(input, start + 1, 0);
        lemma_number_token(input, start);
    }
}

/// A successful container step moves forward within the input.
pub proof fn lemma_frame_step_advances(
    input: Seq<u8>,
    pos: int,
    frame: ContainerFrame,
    rest: Seq<ContainerFrame>,
)
    ensures
        match frame_step(input, pos, frame, rest).1 {
            Some((next, _)) => pos < next <= input.len(),
            None => true,
        },
{
    lemma_whitespace_end(input, pos);
    let p = whitespace_end(input, pos);
    match frame {
        ContainerFrame::ArrayValue { depth, items } => {
            if items < usize::MAX {
                lemma_value_step_advances(
                    input,
                    p,
                    child_depth(depth),
                    rest.push(ContainerFrame::ArrayDelimiter { depth, items: (items + 1) as usize }),
                );
            }
        },
        ContainerFrame::ObjectKey { depth, entries } => {
            if byte_at(input, p, 0x22) && entries < usize::MAX {
                lemma_string_body(input, p + 1, 0);
                match string_token(input, p) {
                    Some((end, bytes)) => {
                        lemma_whitespace_end(input, end);
                        let colon = whitespace_end(input, end);
                        lemma_value_step_advances(
                            input,
                            colon + 1,
                            child_depth(depth),
                            rest.push(
                                ContainerFrame::ObjectDelimiter {
                                    depth,
                                    entries: (entries + 1) as usize,
                                },
                            ),
                        );
                    },
                    None => {},
                }
            }
        },
        _ => {},
    }
}

} // verus!
