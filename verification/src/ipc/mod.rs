//! Inter-process communication helpers.
pub mod deferred;
