//! The store: its error taxonomy, the patterns it matches text against, and
//! a table held in memory.

pub mod errors;
pub mod like;
pub mod table;
