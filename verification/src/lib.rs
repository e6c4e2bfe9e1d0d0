//! Pseudolocalization: transform a string into a visually similar but
//! non-ASCII string, to exercise internationalized-text handling (layout,
//! encoding, truncation) without a real translation.
//!
//! The library replaces each ASCII letter of the input by a look-alike
//! character (usually a letter with diacritics), optionally wraps the result
//! in a prefix and a suffix, and optionally appends a slice of a filler
//! string to simulate the length growth of real translations.

mod percent;
mod pseudolocalizer;
mod transform;

pub use percent::crop_string;
pub use percent::filler_seq;
pub use pseudolocalizer::default_config;
pub use pseudolocalizer::lemma_builder_fluent_agree;
pub use pseudolocalizer::lemma_transform_deterministic;
pub use pseudolocalizer::pseudolocalized;
pub use pseudolocalizer::LocalizerView;
pub use pseudolocalizer::Pseudolocalizer;
pub use pseudolocalizer::PseudolocalizerBuilder;
pub use transform::char_transform;
pub use transform::diacriticize;
pub use transform::is_ascii_letter;
pub use transform::lemma_map_char_outside_domain;
pub use transform::lemma_transform_preserves_char_count;
pub use transform::map_char;
pub use transform::transform_str;
pub use transform::transformed_seq;
pub use transform::CharTransform;
