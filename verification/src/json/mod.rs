//! Budgeted JSON processing: limits, budget sessions, and a validating
//! lexical scan that charges every value of a document.

mod admission;
mod json_budget;
mod json_limits;
mod json_serde_error;
mod laws;
mod lexical_preflight;
mod lexical_spec;
mod output_writer;

pub use admission::admits_event;
pub use admission::charged_by;
pub use admission::first_rejection;
pub use admission::lemma_charged_answers;
pub use admission::lemma_charged_by_trans;
pub use admission::lemma_first_rejection_concat;
pub use admission::lemma_first_rejection_index;
pub use admission::lemma_nodes_of_concat;
pub use admission::lemma_nodes_of_single;
pub use admission::lemma_outcome_after_admitted;
pub use admission::lemma_outcome_invalid;
pub use admission::lemma_outcome_rejected;
pub use admission::node_weight;
pub use admission::nodes_of;
pub use admission::rejection_error;
pub use admission::scan_outcome;
pub use admission::step_outcome;
pub use json_budget::JsonBudget;
pub use json_limits::JsonLimits;
pub use json_serde_error::JsonSerdeError;
pub use laws::law_digit_runs_are_documents;
pub use laws::law_unconfigured_session_accepts_documents;
pub use laws::law_unconfigured_session_admits_everything;
pub use lexical_preflight::preflight;
pub use lexical_preflight::preflight_without_input_limit;
pub use lexical_preflight::JsonLexicalPreflight;
pub use output_writer::settle_output;
pub use output_writer::JsonOutputWriter;
pub use lexical_spec::byte_at;
pub use lexical_spec::child_depth;
pub use lexical_spec::digits_end;
pub use lexical_spec::exponent_end;
pub use lexical_spec::false_word;
pub use lexical_spec::fraction_end;
pub use lexical_spec::frame_step;
pub use lexical_spec::hex_digit_value;
pub use lexical_spec::hex_quad_value;
pub use lexical_spec::integer_part_end;
pub use lexical_spec::is_digit;
pub use lexical_spec::is_json_document;
pub use lexical_spec::is_json_whitespace;
pub use lexical_spec::is_simple_escape;
pub use lexical_spec::is_value_delimiter;
pub use lexical_spec::lemma_digits_end;
pub use lexical_spec::lemma_frame_step_advances;
pub use lexical_spec::lemma_number_token;
pub use lexical_spec::lemma_string_body;
pub use lexical_spec::lemma_value_step_advances;
pub use lexical_spec::lemma_whitespace_end;
pub use lexical_spec::literal_token;
pub use lexical_spec::null_word;
pub use lexical_spec::number_token;
pub use lexical_spec::prefix_step;
pub use lexical_spec::scan_frames;
pub use lexical_spec::scan_value;
pub use lexical_spec::string_body;
pub use lexical_spec::string_token;
pub use lexical_spec::true_word;
pub use lexical_spec::unicode_escape;
pub use lexical_spec::utf8_lead_width;
pub use lexical_spec::utf8_width_of;
pub use lexical_spec::value_step;
pub use lexical_spec::whitespace_end;
pub use lexical_spec::ContainerFrame;
pub use lexical_spec::JsonEvent;
pub use lexical_spec::ScanStep;
