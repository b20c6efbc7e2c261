//! Helpers shared by the layers.

pub mod custom_extractors;
pub mod text;

pub use custom_extractors::json_extractor::JsonExtractor;
