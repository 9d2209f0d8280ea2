//! A fixed-capacity, vector-like container backed by inline storage of a
//! compile-time size, together with the storage abstraction it is generic
//! over and machine-checked statements of the container's behaviour.

pub mod array;
pub mod container;
pub mod errors;
pub mod laws;
