//! Domain entities.

pub mod post;
pub mod post_id;
