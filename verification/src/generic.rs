//! The dynamically typed facade over the nullable containers.

pub mod array_impl;
pub mod convert;
pub mod scalar_impl;
