//! One handler per operation: check the input, run one store operation, shape
//! the answer.

pub mod posts;
