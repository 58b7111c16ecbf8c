//! Thermal service mocks.
pub mod mock;
