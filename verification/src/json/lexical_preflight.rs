//! Non-recursive lexical admission of one JSON document.

use vstd::prelude::*;
use vstd::slice::slice_subrange;
use vstd::utf8::valid_utf8;

use super::admission::present_event;
use super::json_serde_error::invalid_json_error;
use super::byte_at;
use super::digits_end;
use super::hex_digit_value;
use super::hex_quad_value;
use super::is_digit;
use super::is_json_whitespace;
use super::is_simple_escape;
use super::is_value_delimiter;
use super::lemma_digits_end;
use super::lemma_string_body;
use super::lemma_whitespace_end;
use super::number_token;
use super::string_body;
use super::string_token;
use super::unicode_escape;
use super::utf8_lead_width;
use super::utf8_width_of;
use super::whitespace_end;
use super::child_depth;
use super::false_word;
use super::frame_step;
use super::is_json_document;
use super::lemma_frame_step_advances;
use super::lemma_outcome_after_admitted;
use super::lemma_outcome_invalid;
use super::lemma_outcome_rejected;
use super::literal_token;
use super::null_word;
use super::scan_frames;
use super::scan_outcome;
use super::scan_value;
use super::step_outcome;
use super::true_word;
use super::value_step;
use super::ContainerFrame;
use super::JsonBudget;
use super::JsonEvent;
use super::JsonSerdeError;
use crate::resource::optional_limit_result;
use crate::structure::limit_accepts;

verus! {

/// Calls `core::str::from_utf8` and reports whether it accepted `bytes`,
/// which it does exactly when they are well-formed UTF-8.
#[verifier::external_body]
fn utf8_is_valid(bytes: &[u8]) -> (valid: bool)
    ensures
        valid == valid_utf8(bytes@),
{
    match core::str::from_utf8(bytes) {
        Ok(_) => true,
        Err(_) => false,
    }
}

/// The error for input that is not one complete JSON value.
fn invalid_json<R>() -> (error: JsonSerdeError<R>)
    ensures
        error is Json,
{
    JsonSerdeError::Json(invalid_json_error())
}

/// The value of one hexadecimal digit.
fn hex_digit_of(byte: u8) -> (digit: Option<u16>)
    ensures
        match hex_digit_value(byte) {
            Some(value) => digit == Some(value as u16),
            None => digit is None,
        },
{
    if 0x30 <= byte && byte <= 0x39 {
        Some((byte - 0x30) as u16)
    } else if 0x61 <= byte && byte <= 0x66 {
        Some((byte - 0x61 + 10) as u16)
    } else if 0x41 <= byte && byte <= 0x46 {
        Some((byte - 0x41 + 10) as u16)
    } else {
        None
    }
}

/// The UTF-8 width a leading byte announces, when it can start a
/// well-formed multi-byte sequence.
fn utf8_width(byte: u8) -> (width: Option<usize>)
    ensures
        match utf8_lead_width(byte) {
            Some(w) => width == Some(w as usize),
            None => width is None,
        },
{
    if 0xC2 <= byte && byte <= 0xDF {
        Some(2)
    } else if 0xE0 <= byte && byte <= 0xEF {
        Some(3)
    } else if 0xF0 <= byte && byte <= 0xF4 {
        Some(4)
    } else {
        None
    }
}

/// Whether `byte` is JSON whitespace.
fn is_whitespace_byte(byte: u8) -> (whitespace: bool)
    ensures
        whitespace == is_json_whitespace(byte),
{
    byte == 0x20 || byte == 0x0A || byte == 0x0D || byte == 0x09
}

/// Whether `byte` names a single-character escape.
fn is_simple_escape_byte(byte: u8) -> (simple: bool)
    ensures
        simple == is_simple_escape(byte),
{
    byte == 0x22 || byte == 0x5C || byte == 0x2F || byte == 0x62 || byte == 0x66 || byte == 0x6E
        || byte == 0x72 || byte == 0x74
}

/// Whether `byte` is an ASCII decimal digit.
fn is_digit_byte(byte: u8) -> (digit: bool)
    ensures
        digit == is_digit(byte),
{
    0x30 <= byte && byte <= 0x39
}

/// An iterative cursor over the JSON bytes being admitted.
struct JsonCursor<'a> {
    /// The complete input.
    input: &'a [u8],
    /// The current input position.
    position: usize,
}

impl<'a> JsonCursor<'a> {
    /// The position lies within the input, whose length fits in `usize`.
    spec fn within(self) -> bool {
        self.position <= self.input@.len() <= usize::MAX
    }

    /// Creates a cursor at the beginning of `input`.
    fn new(input: &'a [u8]) -> (cursor: Self)
        ensures
            cursor.input@ == input@,
            cursor.position == 0,
            cursor.within(),
    {
        let _ = input.len();
        Self { input, position: 0 }
    }

    /// Returns the current byte without advancing.
    fn peek(&self) -> (byte: Option<u8>)
        ensures
            byte == if self.position < self.input@.len() {
                Some(self.input@[self.position as int])
            } else {
                None::<u8>
            },
    {
        if self.position < self.input.len() {
            Some(self.input[self.position])
        } else {
            None
        }
    }

    /// Advances past JSON whitespace.
    fn skip_whitespace(&mut self)
        requires
            old(self).within(),
        ensures
            final(self).input@ == old(self).input@,
            final(self).within(),
            old(self).position <= final(self).position,
            final(self).position == whitespace_end(old(self).input@, old(self).position as int),
    {
        let ghost start = self.position as int;
        proof {
            lemma_whitespace_end(self.input@, start);
        }
        while self.position < self.input.len() && is_whitespace_byte(self.input[self.position])
            invariant
                self.input@ == old(self).input@,
                self.input@.len() <= usize::MAX,
                start <= self.position <= self.input@.len(),
                whitespace_end(self.input@, self.position as int) == whitespace_end(
                    self.input@,
                    start,
                ),
            decreases self.input@.len() - self.position,
        {
            self.position = self.position + 1;
        }
    }

    /// Consumes one hexadecimal digit.
    fn hex_digit<R>(&mut self) -> (result: Result<u16, JsonSerdeError<R>>)
        requires
            old(self).within(),
        ensures
            final(self).input@ == old(self).input@,
            final(self).within(),
            old(self).position <= final(self).position,
            match if old(self).position < old(self).input@.len() {
                hex_digit_value(old(self).input@[old(self).position as int])
            } else {
                None
            } {
                Some(value) => {
                    &&& result matches Ok(digit)
                    &&& digit == value
                    &&& final(self).position == old(self).position + 1
                },
                None => result matches Err(JsonSerdeError::Json(_)),
            },
    {
        match self.peek() {
            Some(byte) => match hex_digit_of(byte) {
                Some(digit) => {
                    self.position = self.position + 1;
                    Ok(digit)
                },
                None => Err(invalid_json()),
            },
            None => Err(invalid_json()),
        }
    }

    /// Consumes four hexadecimal digits of a Unicode escape.
    fn hex_quad<R>(&mut self) -> (result: Result<u16, JsonSerdeError<R>>)
        requires
            old(self).within(),
        ensures
            final(self).input@ == old(self).input@,
            final(self).within(),
            old(self).position <= final(self).position,
            match hex_quad_value(old(self).input@, old(self).position as int) {
                Some(value) => {
                    &&& result matches Ok(quad)
                    &&& quad == value
                    &&& final(self).position == old(self).position + 4
                },
                None => result matches Err(JsonSerdeError::Json(_)),
            },
    {
        let a = match self.hex_digit() {
            Ok(digit) => digit,
            Err(error) => return Err(error),
        };
        let b = match self.hex_digit() {
            Ok(digit) => digit,
            Err(error) => return Err(error),
        };
        let c = match self.hex_digit() {
            Ok(digit) => digit,
            Err(error) => return Err(error),
        };
        let d = match self.hex_digit() {
            Ok(digit) => digit,
            Err(error) => return Err(error),
        };
        Ok(((a * 16 + b) * 16 + c) * 16 + d)
    }

    /// Consumes a Unicode escape whose `u` is at the cursor and returns the
    /// UTF-8 byte length of the character it denotes.
    fn unicode_escape_bytes<R>(&mut self) -> (result: Result<usize, JsonSerdeError<R>>)
        requires
            old(self).within(),
            old(self).position < old(self).input@.len(),
            old(self).input@[old(self).position as int] == 0x75,
        ensures
            final(self).input@ == old(self).input@,
            final(self).within(),
            old(self).position <= final(self).position,
            match unicode_escape(old(self).input@, old(self).position as int) {
                Some((end, width)) => {
                    &&& result matches Ok(bytes)
                    &&& bytes == width
                    &&& final(self).position == end
                },
                None => result matches Err(JsonSerdeError::Json(_)),
            },
    {
        self.position = self.position + 1;
        let first = match self.hex_quad() {
            Ok(quad) => quad,
            Err(error) => return Err(error),
        };
        if 0xD800 <= first && first <= 0xDBFF {
            if !(self.position < self.input.len() && self.input[self.position] == 0x5C
                && self.position + 1 < self.input.len() && self.input[self.position + 1] == 0x75) {
                return Err(invalid_json());
            }
            self.position = self.position + 2;
            let second = match self.hex_quad() {
                Ok(quad) => quad,
                Err(error) => return Err(error),
            };
            if !(0xDC00 <= second && second <= 0xDFFF) {
                return Err(invalid_json());
            }
            // A surrogate pair denotes a scalar in 0x1_0000..=0x10_FFFF.
            Ok(4)
        } else {
            if 0xDC00 <= first && first <= 0xDFFF {
                return Err(invalid_json());
            }
            if first < 0x80 {
                Ok(1)
            } else if first < 0x800 {
                Ok(2)
            } else {
                Ok(3)
            }
        }
    }

    /// Consumes one JSON string whose opening quote is at the cursor and
    /// returns its decoded UTF-8 byte length.
    fn string_bytes<R>(&mut self) -> (result: Result<usize, JsonSerdeError<R>>)
        requires
            old(self).within(),
            old(self).position < old(self).input@.len(),
            old(self).input@[old(self).position as int] == 0x22,
        ensures
            final(self).input@ == old(self).input@,
            final(self).within(),
            old(self).position <= final(self).position,
            match string_token(old(self).input@, old(self).position as int) {
                Some((end, bytes)) => {
                    &&& result matches Ok(decoded)
                    &&& decoded == bytes
                    &&& final(self).position == end
                },
                None => result matches Err(JsonSerdeError::Json(_)),
            },
    {
        let ghost input = self.input@;
        let ghost start = self.position as int;
        self.position = self.position + 1;
        let mut decoded: usize = 0;
        loop
            invariant
                self.input@ == input,
                input == old(self).input@,
                start == old(self).position,
                input.len() <= usize::MAX,
                start < self.position <= input.len(),
                decoded <= self.position - start - 1,
                string_token(input, start) == string_body(input, self.position as int, decoded as int),
            decreases input.len() - self.position,
        {
            proof {
                lemma_string_body(input, self.position as int, decoded as int);
            }
            let byte = match self.peek() {
                Some(byte) => byte,
                None => return Err(invalid_json()),
            };
            if byte == 0x22 {
                self.position = self.position + 1;
                return Ok(decoded);
            } else if byte == 0x5C {
                self.position = self.position + 1;
                let escaped = match self.peek() {
                    Some(next) => next,
                    None => return Err(invalid_json()),
                };
                let bytes = if is_simple_escape_byte(escaped) {
                    self.position = self.position + 1;
                    1
                } else if escaped == 0x75 {
                    match self.unicode_escape_bytes() {
                        Ok(bytes) => bytes,
                        Err(error) => return Err(error),
                    }
                } else {
                    return Err(invalid_json());
                };
                decoded = decoded + bytes;
            } else if 0x20 <= byte && byte <= 0x7F {
                self.position = self.position + 1;
                decoded = decoded + 1;
            } else if byte >= 0x80 {
                let width = match utf8_width(byte) {
                    Some(width) => width,
                    None => return Err(invalid_json()),
                };
                if width > self.input.len() - self.position {
                    return Err(invalid_json());
                }
                let end = self.position + width;
                let text = slice_subrange(self.input, self.position, end);
                if !utf8_is_valid(text) {
                    return Err(invalid_json());
                }
                self.position = end;
                decoded = decoded + width;
            } else {
                return Err(invalid_json());
            }
        }
    }

    /// Whether the current byte is `byte`.
    fn at(&self, byte: u8) -> (here: bool)
        ensures
            here == byte_at(self.input@, self.position as int, byte),
    {
        self.position < self.input.len() && self.input[self.position] == byte
    }

    /// Advances past a run of digits.
    fn skip_digits(&mut self)
        requires
            old(self).within(),
        ensures
            final(self).input@ == old(self).input@,
            final(self).within(),
            old(self).position <= final(self).position,
            final(self).position == digits_end(old(self).input@, old(self).position as int),
    {
        let ghost start = self.position as int;
        proof {
            lemma_digits_end(self.input@, start);
        }
        while self.position < self.input.len() && is_digit_byte(self.input[self.position])
            invariant
                self.input@ == old(self).input@,
                self.input@.len() <= usize::MAX,
                start <= self.position <= self.input@.len(),
                digits_end(self.input@, self.position as int) == digits_end(self.input@, start),
            decreases self.input@.len() - self.position,
        {
            self.position = self.position + 1;
        }
    }

    /// Consumes the digits that must follow a decimal point or an exponent
    /// marker.
    fn consume_digits<R>(&mut self) -> (result: Result<(), JsonSerdeError<R>>)
        requires
            old(self).within(),
        ensures
            final(self).input@ == old(self).input@,
            final(self).within(),
            old(self).position <= final(self).position,
            if old(self).position < old(self).input@.len() && is_digit(
                old(self).input@[old(self).position as int],
            ) {
                &&& result is Ok
                &&& final(self).position == digits_end(old(self).input@, old(self).position as int)
            } else {
                result matches Err(JsonSerdeError::Json(_))
            },
    {
        match self.peek() {
            Some(byte) => if !is_digit_byte(byte) {
                return Err(invalid_json());
            },
            None => return Err(invalid_json()),
        }
        self.skip_digits();
        Ok(())
    }

    /// Consumes one JSON number and returns its lexical byte length.
    fn number_bytes<R>(&mut self) -> (result: Result<usize, JsonSerdeError<R>>)
        requires
            old(self).within(),
        ensures
            final(self).input@ == old(self).input@,
            final(self).within(),
            old(self).position <= final(self).position,
            match number_token(old(self).input@, old(self).position as int) {
                Some(end) => {
                    &&& result matches Ok(bytes)
                    &&& bytes == end - old(self).position
                    &&& final(self).position == end
                },
                None => result matches Err(JsonSerdeError::Json(_)),
            },
    {
        let ghost input = self.input@;
        let start = self.position;
        proof {
            lemma_digits_end(input, start + 1);
            lemma_digits_end(input, start + 2);
        }
        if self.at(0x2D) {
            self.position = self.position + 1;
        }
        let integer = self.position;
        proof {
            lemma_digits_end(input, integer + 1);
        }
        match self.peek() {
            Some(byte) => if byte == 0x30 {
                self.position = self.position + 1;
            } else if 0x31 <= byte && byte <= 0x39 {
                self.position = self.position + 1;
                self.skip_digits();
            } else {
                return Err(invalid_json());
            },
            None => return Err(invalid_json()),
        }
        let after_integer = self.position;
        proof {
            lemma_digits_end(input, after_integer + 1);
        }
        if self.at(0x2E) {
            self.position = self.position + 1;
            match self.consume_digits() {
                Ok(()) => {},
                Err(error) => return Err(error),
            }
        }
        let after_fraction = self.position;
        proof {
            lemma_digits_end(input, after_fraction + 1);
            lemma_digits_end(input, after_fraction + 2);
        }
        if self.at(0x65) || self.at(0x45) {
            self.position = self.position + 1;
            if self.at(0x2B) || self.at(0x2D) {
                self.position = self.position + 1;
            }
            match self.consume_digits() {
                Ok(()) => {},
                Err(error) => return Err(error),
            }
        }
        if !delimits_value(self.input, self.position) {
            return Err(invalid_json());
        }
        Ok(self.position - start)
    }
}

/// Whether `word` occurs in `input` at `pos`.
fn starts_with_at(input: &[u8], pos: usize, word: &[u8]) -> (found: bool)
    requires
        pos <= input@.len(),
    ensures
        found == (pos + word@.len() <= input@.len() && input@.subrange(
            pos as int,
            pos + word@.len(),
        ) == word@),
{
    if word.len() > input.len() - pos {
        return false;
    }
    let mut i: usize = 0;
    while i < word.len()
        invariant
            i <= word@.len(),
            pos + word@.len() <= input@.len(),
            input@.len() <= usize::MAX,
            forall|j: int| 0 <= j < i ==> input@[pos + j] == word@[j],
        decreases word@.len() - i,
    {
        if input[pos + i] != word[i] {
            proof {
                assert(input@.subrange(pos as int, pos + word@.len())[i as int] != word@[i as int]);
            }
            return false;
        }
        i = i + 1;
    }
    proof {
        assert(input@.subrange(pos as int, pos + word@.len()) =~= word@);
    }
    true
}

/// Whether position `pos` of `input` can follow a complete scalar.
fn delimits_value(input: &[u8], pos: usize) -> (delimits: bool)
    ensures
        delimits == is_value_delimiter(input@, pos as int),
{
    if pos >= input.len() {
        true
    } else {
        let byte = input[pos];
        is_whitespace_byte(byte) || byte == 0x2C || byte == 0x5D || byte == 0x7D
    }
}

impl<'a> JsonCursor<'a> {
    /// Charges and consumes one literal `word` at the cursor; the literal and
    /// the delimiter after it are checked before the value is charged.
    fn literal<R: Clone>(&mut self, depth: usize, word: &[u8], budget: &mut JsonBudget<R>) -> (result:
        Result<(), JsonSerdeError<R>>)
        requires
            old(self).within(),
        ensures
            final(self).input@ == old(self).input@,
            final(self).within(),
            old(self).position <= final(self).position,
            match literal_token(old(self).input@, old(self).position as int, word@) {
                Some(end) => {
                    &&& scan_outcome(
                        *old(budget),
                        seq![JsonEvent::Node(depth)],
                        true,
                        *final(budget),
                        result,
                    )
                    &&& result is Ok ==> final(self).position == end
                },
                None => {
                    &&& result matches Err(JsonSerdeError::Json(_))
                    &&& *final(budget) == *old(budget)
                    &&& final(self).position == old(self).position
                },
            },
    {
        if !starts_with_at(self.input, self.position, word) {
            return Err(invalid_json());
        }
        let end = self.position + word.len();
        if !delimits_value(self.input, end) {
            return Err(invalid_json());
        }
        match present_event(budget, JsonEvent::Node(depth)) {
            Ok(()) => {},
            Err(error) => return Err(error),
        }
        self.position = end;
        Ok(())
    }

    /// Admits one value at `depth` and schedules the continuation of a
    /// container on `stack`.
    fn value<R: Clone>(
        &mut self,
        depth: usize,
        stack: &mut Vec<ContainerFrame>,
        budget: &mut JsonBudget<R>,
    ) -> (result: Result<(), JsonSerdeError<R>>)
        requires
            old(self).within(),
        ensures
            final(self).input@ == old(self).input@,
            final(self).within(),
            old(self).position <= final(self).position,
            step_outcome(
                *old(budget),
                value_step(old(self).input@, old(self).position as int, depth, old(stack)@),
                *final(budget),
                final(self).position as int,
                final(stack)@,
                result,
            ),
            result is Err ==> final(stack)@ == old(stack)@,
            result is Err ==> whitespace_end(old(self).input@, old(self).position as int)
                <= final(self).position,
            result is Err && value_step(
                old(self).input@,
                old(self).position as int,
                depth,
                old(stack)@,
            ).0.len() == 0 ==> final(self).position == whitespace_end(
                old(self).input@,
                old(self).position as int,
            ),
    {
        let ghost input = self.input@;
        let ghost before = *budget;
        let ghost step = value_step(input, self.position as int, depth, stack@);
        proof {
            lemma_whitespace_end(input, self.position as int);
        }
        self.skip_whitespace();
        let byte = match self.peek() {
            Some(byte) => byte,
            None => return Err(invalid_json()),
        };
        let node = JsonEvent::Node(depth);
        if byte == 0x7B {
            match present_event(budget, node) {
                Ok(()) => {},
                Err(error) => return Err(error),
            }
            self.position = self.position + 1;
            stack.push(ContainerFrame::ObjectKey { depth, entries: 0 });
            Ok(())
        } else if byte == 0x5B {
            match present_event(budget, node) {
                Ok(()) => {},
                Err(error) => return Err(error),
            }
            self.position = self.position + 1;
            stack.push(ContainerFrame::ArrayValue { depth, items: 0 });
            Ok(())
        } else if byte == 0x22 {
            match present_event(budget, node) {
                Ok(()) => {},
                Err(error) => {
                    proof {
                        assert(step.0.take(1) =~= seq![node]);
                        lemma_outcome_rejected(before, seq![node], *budget, Err(error), step.0, step.1 is Some);
                    }
                    return Err(error);
                },
            }
            let ghost middle = *budget;
            let bytes = match self.string_bytes() {
                Ok(bytes) => bytes,
                Err(error) => {
                    proof {
                        lemma_outcome_invalid(before, seq![node], middle, Err(error));
                    }
                    return Err(error);
                },
            };
            let measured = JsonEvent::StringBytes(bytes);
            let result = present_event(budget, measured);
            proof {
                lemma_outcome_after_admitted(
                    before,
                    seq![node],
                    middle,
                    (seq![measured], Some((self.position as int, stack@))),
                    *budget,
                    self.position as int,
                    stack@,
                    result,
                );
                assert(seq![node] + seq![measured] =~= seq![node].push(measured));
            }
            result
        } else if byte == 0x2D || is_digit_byte(byte) {
            match present_event(budget, node) {
                Ok(()) => {},
                Err(error) => {
                    proof {
                        assert(step.0.take(1) =~= seq![node]);
                        lemma_outcome_rejected(before, seq![node], *budget, Err(error), step.0, step.1 is Some);
                    }
                    return Err(error);
                },
            }
            let ghost middle = *budget;
            let start = self.position;
            let bytes = match self.number_bytes() {
                Ok(bytes) => bytes,
                Err(error) => {
                    proof {
                        lemma_outcome_invalid(before, seq![node], middle, Err(error));
                    }
                    return Err(error);
                },
            };
            let measured = JsonEvent::NumberBytes(bytes);
            let result = present_event(budget, measured);
            proof {
                lemma_outcome_after_admitted(
                    before,
                    seq![node],
                    middle,
                    (seq![measured], Some((self.position as int, stack@))),
                    *budget,
                    self.position as int,
                    stack@,
                    result,
                );
                assert(seq![node] + seq![measured] =~= seq![node].push(measured));
            }
            result
        } else if byte == 0x74 {
            let word = [0x74u8, 0x72u8, 0x75u8, 0x65u8];
            proof {
                assert(word@ =~= true_word());
            }
            self.literal(depth, word.as_slice(), budget)
        } else if byte == 0x66 {
            let word = [0x66u8, 0x61u8, 0x6Cu8, 0x73u8, 0x65u8];
            proof {
                assert(word@ =~= false_word());
            }
            self.literal(depth, word.as_slice(), budget)
        } else if byte == 0x6E {
            let word = [0x6Eu8, 0x75u8, 0x6Cu8, 0x6Cu8];
            proof {
                assert(word@ =~= null_word());
            }
            self.literal(depth, word.as_slice(), budget)
        } else {
            Err(invalid_json())
        }
    }

    /// Resumes the open container `frame` after its last member; `stack`
    /// holds the containers enclosing it.
    fn resume<R: Clone>(
        &mut self,
        frame: ContainerFrame,
        stack: &mut Vec<ContainerFrame>,
        budget: &mut JsonBudget<R>,
    ) -> (result: Result<(), JsonSerdeError<R>>)
        requires
            old(self).within(),
        ensures
            final(self).input@ == old(self).input@,
            final(self).within(),
            old(self).position <= final(self).position,
            step_outcome(
                *old(budget),
                frame_step(old(self).input@, old(self).position as int, frame, old(stack)@),
                *final(budget),
                final(self).position as int,
                final(stack)@,
                result,
            ),
            result is Err ==> final(stack)@ == old(stack)@,
            result is Err ==> whitespace_end(old(self).input@, old(self).position as int)
                <= final(self).position,
            result is Err && frame_step(
                old(self).input@,
                old(self).position as int,
                frame,
                old(stack)@,
            ).0.len() == 0 ==> final(self).position == whitespace_end(
                old(self).input@,
                old(self).position as int,
            ),
    {
        let ghost input = self.input@;
        let ghost before = *budget;
        let ghost step = frame_step(input, self.position as int, frame, stack@);
        proof {
            lemma_whitespace_end(input, self.position as int);
        }
        self.skip_whitespace();
        match frame {
            ContainerFrame::ArrayValue { depth, items } => {
                if self.at(0x5D) {
                    if items == 0 {
                        self.position = self.position + 1;
                        return Ok(());
                    }
                    return Err(invalid_json());
                }
                if items == usize::MAX {
                    return Err(invalid_json());
                }
                let items = items + 1;
                let counted = JsonEvent::SequenceItems(items);
                match present_event(budget, counted) {
                    Ok(()) => {},
                    Err(error) => {
                        proof {
                            assert(step.0.take(1) =~= seq![counted]);
                            lemma_outcome_rejected(before, seq![counted], *budget, Err(error), step.0, step.1 is Some);
                        }
                        return Err(error);
                    },
                }
                let ghost middle = *budget;
                let ghost position = self.position as int;
                stack.push(ContainerFrame::ArrayDelimiter { depth, items });
                let ghost pushed = stack@;
                let result = self.value(depth.saturating_add(1), stack, budget);
                proof {
                    lemma_outcome_after_admitted(
                        before,
                        seq![counted],
                        middle,
                        value_step(input, position, child_depth(depth), pushed),
                        *budget,
                        self.position as int,
                        stack@,
                        result,
                    );
                }
                if result.is_err() {
                    // The member was refused: the container is not resumed.
                    let _ = stack.pop();
                }
                result
            },
            ContainerFrame::ArrayDelimiter { depth, items } => {
                if self.at(0x2C) {
                    self.position = self.position + 1;
                    stack.push(ContainerFrame::ArrayValue { depth, items });
                    Ok(())
                } else if self.at(0x5D) {
                    self.position = self.position + 1;
                    Ok(())
                } else {
                    Err(invalid_json())
                }
            },
            ContainerFrame::ObjectKey { depth, entries } => {
                if self.at(0x7D) {
                    if entries == 0 {
                        self.position = self.position + 1;
                        return Ok(());
                    }
                    return Err(invalid_json());
                }
                if !self.at(0x22) {
                    return Err(invalid_json());
                }
                if entries == usize::MAX {
                    return Err(invalid_json());
                }
                let entries = entries + 1;
                let counted = JsonEvent::MapEntries(entries);
                match present_event(budget, counted) {
                    Ok(()) => {},
                    Err(error) => {
                        proof {
                            assert(step.0.take(1) =~= seq![counted]);
                            lemma_outcome_rejected(before, seq![counted], *budget, Err(error), step.0, step.1 is Some);
                        }
                        return Err(error);
                    },
                }
                let ghost counted_budget = *budget;
                let bytes = match self.string_bytes() {
                    Ok(bytes) => bytes,
                    Err(error) => {
                        proof {
                            lemma_outcome_invalid(before, seq![counted], counted_budget, Err(error));
                        }
                        return Err(error);
                    },
                };
                let measured = JsonEvent::KeyBytes(bytes);
                let ghost keyed = seq![counted].push(measured);
                let measured_result = present_event(budget, measured);
                let ghost keyed_budget = *budget;
                proof {
                    assert(seq![counted] + seq![measured] =~= keyed);
                    lemma_outcome_after_admitted(
                        before,
                        seq![counted],
                        counted_budget,
                        (seq![measured], Some((0int, Seq::<ContainerFrame>::empty()))),
                        keyed_budget,
                        0int,
                        Seq::<ContainerFrame>::empty(),
                        measured_result,
                    );
                }
                match measured_result {
                    Ok(()) => {},
                    Err(error) => {
                        proof {
                            assert(step.0.take(2) =~= keyed);
                            lemma_outcome_rejected(before, keyed, keyed_budget, Err(error), step.0, step.1 is Some);
                        }
                        return Err(error);
                    },
                }
                self.skip_whitespace();
                if !self.at(0x3A) {
                    let error = invalid_json();
                    proof {
                        lemma_outcome_invalid(before, keyed, keyed_budget, Err(error));
                    }
                    return Err(error);
                }
                self.position = self.position + 1;
                let ghost position = self.position as int;
                stack.push(ContainerFrame::ObjectDelimiter { depth, entries });
                let ghost pushed = stack@;
                let result = self.value(depth.saturating_add(1), stack, budget);
                proof {
                    lemma_outcome_after_admitted(
                        before,
                        keyed,
                        keyed_budget,
                        value_step(input, position, child_depth(depth), pushed),
                        *budget,
                        self.position as int,
                        stack@,
                        result,
                    );
                }
                if result.is_err() {
                    // The member was refused: the container is not resumed.
                    let _ = stack.pop();
                }
                result
            },
            ContainerFrame::ObjectDelimiter { depth, entries } => {
                if self.at(0x2C) {
                    self.position = self.position + 1;
                    stack.push(ContainerFrame::ObjectKey { depth, entries });
                    Ok(())
                } else if self.at(0x7D) {
                    self.position = self.position + 1;
                    Ok(())
                } else {
                    Err(invalid_json())
                }
            },
        }
    }
}

/// Lexically validates and charges one JSON document without recursion.
///
/// Values are admitted in document order: each value enters a node at its
/// depth, each array item and object entry is counted against its
/// container's limit, and each key, string and number is measured against
/// its limit. The first rejection ends the scan; the nodes charged before it
/// stay charged.
pub struct JsonLexicalPreflight {
    /// Root-inclusive depth assigned to the inspected value.
    root_depth: usize,
}

impl JsonLexicalPreflight {
    /// The depth assigned to the document's top-level value.
    pub closed spec fn spec_root_depth(self) -> usize {
        self.root_depth
    }

    /// Creates a preflight whose top-level value has depth one.
    pub fn new() -> (preflight: Self)
        ensures
            preflight.spec_root_depth() == 1,
    {
        Self { root_depth: 1 }
    }

    /// Creates a preflight rooted at an enclosing serializer depth.
    pub fn at_depth(root_depth: usize) -> (preflight: Self)
        ensures
            preflight.spec_root_depth() == root_depth,
    {
        Self { root_depth }
    }

    /// Validates and charges one complete JSON document.
    ///
    /// Returns the first budget rejection among the document's events, or,
    /// when every event is admitted, success exactly when `input` is one
    /// complete JSON value and a JSON error otherwise.
    pub fn inspect<R: Clone>(&self, input: &[u8], budget: &mut JsonBudget<R>) -> (result: Result<
        (),
        JsonSerdeError<R>,
    >)
        ensures
            scan_outcome(
                *old(budget),
                scan_value(input@, self.spec_root_depth()).0,
                is_json_document(input@, self.spec_root_depth()),
                *final(budget),
                result,
            ),
    {
        let ghost before = *budget;
        let ghost document = scan_value(input@, self.root_depth);
        let ghost valid = is_json_document(input@, self.root_depth);
        let ghost first_step = value_step(input@, 0, self.root_depth, Seq::empty());
        let mut cursor = JsonCursor::new(input);
        let mut stack: Vec<ContainerFrame> = Vec::new();
        cursor.skip_whitespace();
        proof {
            lemma_whitespace_end(input@, 0);
            assert(value_step(input@, cursor.position as int, self.root_depth, stack@) == first_step);
        }
        match cursor.value(self.root_depth, &mut stack, budget) {
            Ok(()) => {},
            Err(error) => {
                proof {
                    if first_step.1 is Some {
                        let (next, open) = first_step.1->0;
                        let rest = scan_frames(input@, next, open);
                        assert(document.0 == first_step.0 + rest.0);
                        assert(document.0.take(first_step.0.len() as int) =~= first_step.0);
                        lemma_outcome_rejected(before, first_step.0, *budget, Err(error), document.0, valid);
                    }
                }
                return Err(error);
            },
        }
        let ghost mut done = first_step.0;
        while stack.len() > 0
            invariant
                cursor.input@ == input@,
                cursor.within(),
                before == *old(budget),
                scan_outcome(before, done, true, *budget, Ok(())),
                document.0 == done + scan_frames(input@, cursor.position as int, stack@).0,
                document.1 == scan_frames(input@, cursor.position as int, stack@).1,
                valid == is_json_document(input@, self.root_depth),
                document == scan_value(input@, self.root_depth),
            decreases input@.len() - cursor.position,
        {
            let ghost position = cursor.position as int;
            let ghost middle = *budget;
            let ghost open = stack@;
            let frame = stack.pop().unwrap();
            let ghost step = frame_step(input@, position, frame, stack@);
            proof {
                lemma_frame_step_advances(input@, position, frame, stack@);
                assert(frame == open.last());
                assert(stack@ == open.drop_last());
            }
            let resumed = cursor.resume(frame, &mut stack, budget);
            proof {
                lemma_outcome_after_admitted(
                    before,
                    done,
                    middle,
                    step,
                    *budget,
                    cursor.position as int,
                    stack@,
                    resumed,
                );
            }
            match resumed {
                Ok(()) => {},
                Err(error) => {
                    proof {
                        if step.1 is Some {
                            let (next, rest) = step.1->0;
                            let tail = scan_frames(input@, next, rest);
                            assert(scan_frames(input@, position, open) == (step.0 + tail.0, tail.1));
                            assert(document.0 =~= (done + step.0) + tail.0);
                            assert(document.0.take((done + step.0).len() as int) =~= done + step.0);
                            lemma_outcome_rejected(
                                before,
                                done + step.0,
                                *budget,
                                Err(error),
                                document.0,
                                valid,
                            );
                        } else {
                            assert(scan_frames(input@, position, open) == (step.0, None::<int>));
                            assert(document.0 =~= done + step.0);
                            assert(!valid);
                        }
                    }
                    return Err(error);
                },
            }
            proof {
                let tail = scan_frames(input@, cursor.position as int, stack@);
                assert(scan_frames(input@, position, open) == (step.0 + tail.0, tail.1));
                assert(document.0 =~= (done + step.0) + tail.0);
                done = done + step.0;
            }
        }
        cursor.skip_whitespace();
        proof {
            assert(document.0 =~= done);
        }
        if cursor.position == input.len() {
            Ok(())
        } else {
            Err(invalid_json())
        }
    }
}

/// Validates one JSON document and charges its structure and value sizes,
/// without checking the document's total length.
pub fn preflight_without_input_limit<R: Clone>(input: &[u8], budget: &mut JsonBudget<R>) -> (result:
    Result<(), JsonSerdeError<R>>)
    ensures
        scan_outcome(
            *old(budget),
            scan_value(input@, 1).0,
            is_json_document(input@, 1),
            *final(budget),
            result,
        ),
{
    JsonLexicalPreflight::new().inspect(input, budget)
}

/// Checks the length of one input document, then validates it and charges
/// its structure and value sizes.
///
/// An input longer than the configured maximum is refused before any byte
/// is scanned, and leaves the budget unchanged.
pub fn preflight<R: Clone>(input: &[u8], budget: &mut JsonBudget<R>) -> (result: Result<
    (),
    JsonSerdeError<R>,
>)
    ensures
        if limit_accepts(old(budget).spec_limits().spec_input_bytes(), input@.len() as usize) {
            scan_outcome(
                *old(budget),
                scan_value(input@, 1).0,
                is_json_document(input@, 1),
                *final(budget),
                result,
            )
        } else {
            &&& *final(budget) == *old(budget)
            &&& result matches Err(JsonSerdeError::Budget(error))
            &&& optional_limit_result(
                old(budget).spec_limits().spec_input_bytes(),
                input@.len() as usize,
                Err(error),
            )
        },
{
    match budget.check_input_bytes(input.len()) {
        Ok(()) => {},
        Err(error) => return Err(JsonSerdeError::Budget(error)),
    }
    preflight_without_input_limit(input, budget)
}

} // verus!
