//! Typed operations on the stored records.

pub mod post_repository;
