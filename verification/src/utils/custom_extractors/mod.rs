//! Extraction of typed values from requests.

pub mod json_extractor;
