//! Transformers: layered message processing results.
pub mod result;
