//! Model data: the generic model container and the static vertex type with
//! its binary file format.

pub mod factory;
pub mod types;
