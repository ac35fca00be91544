//! Generic positional algorithms shared by the nullable containers.

pub mod indexing;
pub mod sort;
pub mod vec_ops;
