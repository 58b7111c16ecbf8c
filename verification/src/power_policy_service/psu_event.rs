//! Messages originating from a PSU.
use vstd::prelude::*;

use crate::power::policy::{ConsumerPowerCapability, Error, ProviderPowerCapability};

verus! {

/// Data for a power policy request
#[derive(Debug, Clone, Copy, PartialEq, Eq, Structural)]
pub enum EventData {
    /// Notify that a device has attached
    Attached,
    /// Notify that available power for consumption has changed
    UpdatedConsumerCapability(Option<ConsumerPowerCapability>),
    /// Request the given amount of power to provider
    RequestedProviderCapability(Option<ProviderPowerCapability>),
    /// Notify that a device cannot consume or provide power anymore
    Disconnected,
    /// Notify that a device has detached
    Detached,
}

/// Data for a power policy response
#[derive(Debug, Clone, Copy, PartialEq, Eq, Structural)]
pub enum ResponseData {
    /// The request was completed successfully
    Complete,
}

impl ResponseData {
    /// Returns an InvalidResponse error if the response is not complete
    pub fn complete_or_err(self) -> (r: Result<(), Error>)
        ensures
            r is Ok,
    {
        match self {
            ResponseData::Complete => Ok(()),
        }
    }
}

/// Response from the power policy service
#[derive(Debug, Clone, Copy, PartialEq, Eq, Structural)]
pub struct Response {
    /// Response data
    pub data: ResponseData,
}

} // verus!
