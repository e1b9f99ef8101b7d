//! Models built from layers.

pub mod sequential;
