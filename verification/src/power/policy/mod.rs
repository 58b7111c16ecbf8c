//! Power policy related data structures and messages.
pub mod context;
pub mod device;
pub mod policy;

use vstd::prelude::*;

verus! {

/// Error type
#[derive(Debug, Clone, Copy, PartialEq, Eq, Structural)]
pub enum Error {
    /// The requested device does not exist
    InvalidDevice,
    /// The source request was denied, contains maximum available power
    CannotSource(Option<PowerCapability>),
    /// The sink request was denied, contains maximum available power
    CannotSink(Option<PowerCapability>),
    /// The provide request was denied, contains maximum available power
    CannotProvide(Option<PowerCapability>),
    /// The device is not in the correct state
    InvalidState,
    /// Invalid response
    InvalidResponse,
    /// Bus error
    Bus,
    /// Generic failure
    Failed,
}

/// Device ID new type
#[derive(Debug, Clone, Copy, PartialEq, Eq, Structural)]
pub struct DeviceId(pub u8);

/// Amount of power that a device can source or sink
#[derive(Debug, Clone, Copy, PartialEq, Eq, Structural)]
pub struct PowerCapability {
    /// Available voltage in mV
    pub voltage_mv: u16,
    /// Max available current in mA
    pub current_ma: u16,
}

impl PowerCapability {
    /// Maximum power in mW: voltage times current, divided by 1000 and rounded down.
    pub open spec fn spec_max_power_mw(self) -> int {
        (self.voltage_mv as int * self.current_ma as int) / 1000
    }

    /// Calculate maximum power
    pub fn max_power_mw(&self) -> (r: u32)
        ensures
            r == self.spec_max_power_mw(),
    {
        proof {
            vstd::arithmetic::mul::lemma_mul_upper_bound(
                self.voltage_mv as int,
                0xffff,
                self.current_ma as int,
                0xffff,
            );
        }
        self.voltage_mv as u32 * self.current_ma as u32 / 1000
    }
}

/// Flags that come with a consumer power capability.
#[derive(Debug, Clone, Copy, PartialEq, Eq, Structural)]
pub struct ConsumerFlags(pub u32);

impl ConsumerFlags {
    /// No flags set.
    pub fn none() -> (r: Self)
        ensures
            r.0 == 0,
    {
        ConsumerFlags(0)
    }
}

/// Flags that come with a provider power capability.
#[derive(Debug, Clone, Copy, PartialEq, Eq, Structural)]
pub struct ProviderFlags(pub u32);

impl ProviderFlags {
    /// No flags set.
    pub fn none() -> (r: Self)
        ensures
            r.0 == 0,
    {
        ProviderFlags(0)
    }
}

/// Power that a device can consume from its port partner.
#[derive(Debug, Clone, Copy, PartialEq, Eq, Structural)]
pub struct ConsumerPowerCapability {
    /// Power capability
    pub capability: PowerCapability,
    /// Consumer flags
    pub flags: ConsumerFlags,
}

/// Power that a device provides, or asks to provide, to its port partner.
#[derive(Debug, Clone, Copy, PartialEq, Eq, Structural)]
pub struct ProviderPowerCapability {
    /// Power capability
    pub capability: PowerCapability,
    /// Provider flags
    pub flags: ProviderFlags,
}

/// Current state of the attached power device
#[derive(Debug, Clone, Copy, PartialEq, Eq, Structural)]
pub enum DeviceState {
    /// Device is attached, but is not currently sourcing or sinking power
    Attached,
    /// Device is attached and is currently sourcing power
    Source,
    /// Device is attached and is currently sinking power
    Sink,
    /// No device attached
    Detached,
}

/// Data for a device response
pub enum DeviceResponseData {
    /// The request was successful
    Complete,
}

/// Response from a device to the power policy service
pub struct DeviceResponse {
    /// Target device
    pub id: DeviceId,
    /// Response data
    pub data: DeviceResponseData,
}

/// Channel size for device requests
pub const DEVICE_CHANNEL_SIZE: usize = 1;

/// Internal state for a device
#[derive(Debug, Clone, Copy, PartialEq, Eq, Structural)]
pub struct InternalDeviceState {
    /// Current device state
    pub state: DeviceState,
    /// Source capability of the device
    pub source_capability: Option<PowerCapability>,
    /// Sink capability of the device
    pub sink_capability: Option<PowerCapability>,
}

impl InternalDeviceState {
    /// The state of a device that was just registered: detached, with no capabilities.
    pub fn new() -> (r: Self)
        ensures
            r.state == DeviceState::Detached,
            r.source_capability is None,
            r.sink_capability is None,
    {
        InternalDeviceState { state: DeviceState::Detached, source_capability: None, sink_capability: None }
    }
}

} // verus!
