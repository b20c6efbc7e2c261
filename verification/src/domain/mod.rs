//! The domain: what a post is and how its failures are reported.

pub mod models;
