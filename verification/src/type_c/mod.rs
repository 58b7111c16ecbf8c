//! USB Type-C related types.
pub mod event;
