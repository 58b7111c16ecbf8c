//! Device states, commands and responses.
use vstd::prelude::*;

use super::{ConsumerPowerCapability, DeviceId, Error, ProviderPowerCapability};

verus! {

/// Most basic device states
#[derive(Debug, Clone, Copy, PartialEq, Eq, Structural)]
pub enum StateKind {
    /// No device attached
    Detached,
    /// Device is attached
    Idle,
    /// Device is actively providing power, USB PD source mode
    ConnectedProvider,
    /// Device is actively consuming power, USB PD sink mode
    ConnectedConsumer,
}

/// Current state of the power device
#[derive(Debug, Clone, Copy, PartialEq, Eq, Structural)]
pub enum State {
    /// Device is attached, but is not currently providing or consuming power
    Idle,
    /// Device is attached and is currently providing power
    ConnectedProvider(ProviderPowerCapability),
    /// Device is attached and is currently consuming power
    ConnectedConsumer(ConsumerPowerCapability),
    /// No device attached
    Detached,
}

impl State {
    /// The kind of a state.
    pub open spec fn spec_kind(self) -> StateKind {
        match self {
            State::Idle => StateKind::Idle,
            State::ConnectedProvider(_) => StateKind::ConnectedProvider,
            State::ConnectedConsumer(_) => StateKind::ConnectedConsumer,
            State::Detached => StateKind::Detached,
        }
    }

    /// Returns the corresponding state kind
    pub fn kind(&self) -> (r: StateKind)
        ensures
            r == self.spec_kind(),
    {
        match self {
            State::Idle => StateKind::Idle,
            State::ConnectedProvider(_) => StateKind::ConnectedProvider,
            State::ConnectedConsumer(_) => StateKind::ConnectedConsumer,
            State::Detached => StateKind::Detached,
        }
    }
}

/// Internal device state for power policy
#[derive(Debug, Clone, Copy, PartialEq, Eq, Structural)]
pub struct InternalState {
    /// Current state of the device
    pub state: State,
    /// Current consumer capability
    pub consumer_capability: Option<ConsumerPowerCapability>,
    /// Current requested provider capability
    pub requested_provider_capability: Option<ProviderPowerCapability>,
}

impl InternalState {
    /// The state of a newly created device: detached, with nothing offered or requested.
    pub fn new() -> (r: Self)
        ensures
            r.state == State::Detached,
            r.consumer_capability is None,
            r.requested_provider_capability is None,
    {
        InternalState { state: State::Detached, consumer_capability: None, requested_provider_capability: None }
    }
}

/// Data for a device request
#[derive(Debug, Clone, Copy, PartialEq, Eq, Structural)]
pub enum CommandData {
    /// Start consuming on this device
    ConnectAsConsumer(ConsumerPowerCapability),
    /// Start providing power to port partner on this device
    ConnectAsProvider(ProviderPowerCapability),
    /// Stop providing or consuming on this device
    Disconnect,
}

/// Request from power policy service to a device
#[derive(Debug, Clone, Copy, PartialEq, Eq, Structural)]
pub struct Command {
    /// Target device
    pub id: DeviceId,
    /// Request data
    pub data: CommandData,
}

/// Data for a device response
#[derive(Debug, Clone, Copy, PartialEq, Eq, Structural)]
pub enum ResponseData {
    /// The request was successful
    Complete,
}

impl ResponseData {
    /// Returns an InvalidResponse error if the response is not complete
    pub fn complete_or_err(self) -> (r: Result<(), Error>)
        ensures
            r is Ok,
    {
        match self {
            ResponseData::Complete => Ok(()),
        }
    }
}

/// Response from a device to the power policy service
pub struct Response {
    /// Target device
    pub id: DeviceId,
    /// Response data
    pub data: ResponseData,
}

} // verus!
