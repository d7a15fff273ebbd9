//! A template resolution engine: a recursive interpreter over a curly-brace
//! mini-language that substitutes data values, translation entries, pointers
//! through data into the translation table, and injected sub-templates —
//! together with a flattener that turns nested structured data into the flat
//! dot-path dictionary the interpreter consumes.

mod dictionary;
mod errors;
mod flatten;
mod generate;
mod json;
mod laws;
mod options;
mod semantics;
mod text;

pub use dictionary::map_of;
pub use dictionary::Dictionary;
pub use errors::spec_error_message;
pub use errors::SpecError;
pub use errors::StringTemplaterError;
pub use flatten::dec_str;
pub use flatten::digit_char;
pub use flatten::flatten;
pub use flatten::spec_flatten;
pub use flatten::spec_flatten_entries;
pub use flatten::spec_flatten_list;
pub use flatten::StructuredValue;
pub use generate::generate;
pub use generate::max_depth;
pub use generate::result_view;
pub use json::encode_json_to_hashmap;
pub use json::serde_error_text;
pub use json::structured_of;
pub use json::parse_to_hashmap;
pub use laws::lemma_generate_deterministic;
pub use laws::lemma_generate_from_monotonic;
pub use laws::lemma_generate_monotonic;
pub use laws::lemma_inject_directive_plain;
pub use laws::lemma_plain_directive;
pub use laws::lemma_plain_text_unchanged;
pub use laws::lemma_pointer_directive;
pub use laws::lemma_resolved_idempotent;
pub use laws::lemma_template_directive_plain;
pub use laws::lemma_unclosed_directive;
pub use laws::plain_key;
pub use options::OverrideMessage;
pub use options::SpecOptions;
pub use options::StringTemplaterOptions;
pub use options::WrapOverride;
pub use semantics::bracket_msg;
pub use semantics::closing_check;
pub use semantics::missing_key_outcome;
pub use semantics::missing_key_placeholder;
pub use semantics::missing_translation_outcome;
pub use semantics::missing_translation_placeholder;
pub use semantics::prepend_outcome;
pub use semantics::scan_flags;
pub use semantics::scan_key;
pub use semantics::spec_generate;
pub use semantics::spec_generate_from;
pub use semantics::spec_resolve;
pub use semantics::unknown_data_msg;
pub use semantics::unknown_translation_msg;
pub use semantics::SpecOutcome;
