//! The core of a small posts service: the post entity, the rules for creating,
//! fetching and listing posts, the error taxonomy with its HTTP mapping, and the
//! static route table. Everything here is a function from plain values to plain
//! values; sockets, the database driver and the async runtime live outside.
//!
//! - [`routes`] says which operation a method and a path stand for.
//! - [`handlers`] holds one handler per operation, each in two forms: the
//!   pieces that a shell calls around its own store operation, and the whole
//!   operation on a table held in memory.
//! - [`infra`] holds the repository, the conditions of its statements, the
//!   meaning of `LIKE` patterns, and the table.
//! - [`domain`] holds the post, its identifier and the errors of its operations.
//! - [`errors`] and [`http`] hold the application's own errors and the shape of
//!   a response.
//! - [`config`] builds the configuration from the values of the environment.
//! - [`laws`] states what holds of all of it together.

pub mod config;
pub mod domain;
pub mod errors;
pub mod handlers;
pub mod http;
pub mod infra;
pub mod laws;
pub mod routes;
pub mod utils;
