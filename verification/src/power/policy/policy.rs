//! Requests and responses between power devices and a power policy implementation.
use vstd::prelude::*;

use super::{ConsumerPowerCapability, DeviceId, Error, ProviderPowerCapability};

verus! {

/// Data for a power policy request
#[derive(Debug, Clone, Copy, PartialEq, Eq, Structural)]
pub enum RequestData {
    /// Notify that a device has attached
    Attached,
    /// Notify that available power for consumption has changed
    UpdatedConsumerCapability(Option<ConsumerPowerCapability>),
    /// Request the given amount of power to provider
    RequestedProviderCapability(Option<ProviderPowerCapability>),
    /// Notify that a device cannot consume or provide power anymore
    Disconnected,
    /// Notify that a device has detached
    Detached,
}

/// Request to the power policy service
#[derive(Debug, Clone, Copy, PartialEq, Eq, Structural)]
pub struct Request {
    /// Device that sent this request
    pub id: DeviceId,
    /// Request data
    pub data: RequestData,
}

/// Data for a power policy response
#[derive(Debug, Clone, Copy, PartialEq, Eq, Structural)]
pub enum ResponseData {
    /// The request was completed successfully
    Complete,
}

impl ResponseData {
    /// Returns an InvalidResponse error if the response is not complete
    pub fn complete_or_err(self) -> (r: Result<(), Error>)
        ensures
            r is Ok,
    {
        match self {
            ResponseData::Complete => Ok(()),
        }
    }
}

/// Response from the power policy service
#[derive(Debug, Clone, Copy, PartialEq, Eq, Structural)]
pub struct Response {
    /// Target device
    pub id: DeviceId,
    /// Response data
    pub data: ResponseData,
}

/// Trait used by devices to send events to a power policy implementation.
///
/// Only the non-blocking half of the trait is here; the waiting forms are async and are
/// provided next to the executor.
pub trait EventSender {
    /// Whether trying to send `event` from this sender may return `result` and leave the sender
    /// as `after`. A sender may say this of itself; one that does not (such as a sender on a
    /// channel that others share) may end either way.
    open spec fn sends(&self, event: RequestData, result: Option<()>, after: &Self) -> bool {
        true
    }

    /// Try to send an event
    fn try_send(&mut self, event: RequestData) -> (r: Option<()>)
        ensures
            old(self).sends(event, r, final(self)),
    ;

    /// Wrapper to simplify attempting to send this event
    fn try_on_update_consumer_capability(&mut self, cap: Option<ConsumerPowerCapability>) -> (r: Option<()>)
        ensures
            old(self).sends(RequestData::UpdatedConsumerCapability(cap), r, final(self)),
    {
        self.try_send(RequestData::UpdatedConsumerCapability(cap))
    }

    /// Wrapper to simplify attempting to send this event
    fn try_on_request_provider_capability(&mut self, cap: Option<ProviderPowerCapability>) -> (r: Option<()>)
        ensures
            old(self).sends(RequestData::RequestedProviderCapability(cap), r, final(self)),
    {
        self.try_send(RequestData::RequestedProviderCapability(cap))
    }

    /// Wrapper to simplify attempting to send this event
    fn try_on_disconnect(&mut self) -> (r: Option<()>)
        ensures
            old(self).sends(RequestData::Disconnected, r, final(self)),
    {
        self.try_send(RequestData::Disconnected)
    }

    /// Wrapper to simplify attempting to send this event
    fn try_on_detach(&mut self) -> (r: Option<()>)
        ensures
            old(self).sends(RequestData::Detached, r, final(self)),
    {
        self.try_send(RequestData::Detached)
    }
}

/// Receiver trait used by a policy implementation.
///
/// Only the non-blocking half of the trait is here; waiting for an event is async and is
/// provided next to the executor.
pub trait EventReceiver {
    /// Attempt to get a pending event
    fn try_next(&self) -> Option<RequestData>;
}

} // verus!
