//! Power related data structures and messages.
pub mod policy;
