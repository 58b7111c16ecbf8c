//! How a device's power policy state moves with the events the device reports.
//!
//! Each function takes the device's state before the event and returns its state after, what
//! the service must do to the device hardware, and what must follow in the service.
use vstd::prelude::*;

use crate::power::policy::device::{InternalState, State};
use crate::power::policy::policy::RequestData;
use crate::power::policy::{ConsumerPowerCapability, Error, ProviderPowerCapability};

verus! {

/// What the service does after a device's state has changed.
#[derive(Debug, Clone, Copy, PartialEq, Eq, Structural)]
pub enum FollowUp {
    /// Nothing more
    Nothing,
    /// Re-evaluate which device consumes power
    UpdateCurrentConsumer,
    /// Attempt to connect the device as a provider
    ConnectProvider,
}

/// The result of processing one device event.
#[derive(Debug, Clone, Copy, PartialEq, Eq, Structural)]
pub struct Transition {
    /// The device's state after the event
    pub state: InternalState,
    /// The event came in a state where it is invalid: the device is reset
    pub reset_device: bool,
    /// The device was the current consumer and stopped consuming: the chargers are disconnected
    /// and the loss is broadcast
    pub consumer_lost: bool,
    /// What the service does next
    pub follow_up: FollowUp,
}

/// The state after an event that is invalid in the device's current state: detached and reset.
pub open spec fn invalid_event(s: InternalState) -> Transition {
    Transition {
        state: InternalState { state: State::Detached, ..s },
        reset_device: true,
        consumer_lost: false,
        follow_up: FollowUp::Nothing,
    }
}

/// Attach is valid only from the detached state, and makes the device idle.
pub open spec fn spec_attach(s: InternalState) -> Transition {
    if s.state != State::Detached {
        invalid_event(s)
    } else {
        Transition {
            state: InternalState { state: State::Idle, ..s },
            reset_device: false,
            consumer_lost: false,
            follow_up: FollowUp::Nothing,
        }
    }
}

/// Detach is valid in any state; it forgets the device's capabilities.
pub open spec fn spec_detach(s: InternalState) -> Transition {
    Transition {
        state: InternalState {
            state: State::Detached,
            consumer_capability: None,
            requested_provider_capability: None,
        },
        reset_device: false,
        consumer_lost: false,
        follow_up: FollowUp::UpdateCurrentConsumer,
    }
}

/// A consumer capability update is valid when idle or consuming.
pub open spec fn spec_consumer_capability(s: InternalState, cap: Option<ConsumerPowerCapability>) -> Transition {
    if s.state is Idle || s.state is ConnectedConsumer {
        Transition {
            state: InternalState { consumer_capability: cap, ..s },
            reset_device: false,
            consumer_lost: false,
            follow_up: FollowUp::UpdateCurrentConsumer,
        }
    } else {
        invalid_event(s)
    }
}

/// A provider capability request is valid when idle or providing.
pub open spec fn spec_provider_request(s: InternalState, cap: Option<ProviderPowerCapability>) -> Transition {
    if s.state is Idle || s.state is ConnectedProvider {
        Transition {
            state: InternalState { requested_provider_capability: cap, ..s },
            reset_device: false,
            consumer_lost: false,
            follow_up: FollowUp::ConnectProvider,
        }
    } else {
        invalid_event(s)
    }
}

/// A disconnect is valid when consuming or providing, and makes the device idle. In any case
/// the current consumer is re-evaluated, and if the device was the current consumer its loss is
/// reported.
pub open spec fn spec_disconnect(s: InternalState, is_current_consumer: bool) -> Transition {
    if s.state is ConnectedConsumer || s.state is ConnectedProvider {
        Transition {
            state: InternalState { state: State::Idle, ..s },
            reset_device: false,
            consumer_lost: is_current_consumer,
            follow_up: FollowUp::UpdateCurrentConsumer,
        }
    } else {
        Transition {
            state: InternalState { state: State::Detached, ..s },
            reset_device: true,
            consumer_lost: is_current_consumer,
            follow_up: FollowUp::UpdateCurrentConsumer,
        }
    }
}

/// The transition for any request.
pub open spec fn spec_process_request(s: InternalState, data: RequestData, is_current_consumer: bool) -> Transition {
    match data {
        RequestData::Attached => spec_attach(s),
        RequestData::Detached => spec_detach(s),
        RequestData::UpdatedConsumerCapability(cap) => spec_consumer_capability(s, cap),
        RequestData::RequestedProviderCapability(cap) => spec_provider_request(s, cap),
        RequestData::Disconnected => spec_disconnect(s, is_current_consumer),
    }
}

/// Detach is accepted in every state: the device ends detached with no capabilities and is never
/// reset; an attach that follows is then always accepted and makes the device idle.
pub proof fn law_detach_then_attach(s: InternalState)
    ensures
        spec_detach(s).state.state == State::Detached,
        spec_detach(s).state.consumer_capability is None,
        spec_detach(s).state.requested_provider_capability is None,
        !spec_detach(s).reset_device,
        spec_attach(spec_detach(s).state).state.state == State::Idle,
        !spec_attach(spec_detach(s).state).reset_device,
{
}

/// Every event that a device's state does not allow leaves it detached and resets it, keeping
/// its capabilities, and nothing follows; every allowed event keeps the device attached-or-idle
/// as its kind says and never resets it.
pub proof fn law_invalid_events_reset(s: InternalState, data: RequestData, is_current_consumer: bool)
    ensures
        spec_process_request(s, data, is_current_consumer).reset_device ==> spec_process_request(
            s,
            data,
            is_current_consumer,
        ).state.state == State::Detached,
        spec_process_request(s, data, is_current_consumer).reset_device ==> spec_process_request(
            s,
            data,
            is_current_consumer,
        ).state.consumer_capability == s.consumer_capability,
        spec_process_request(s, data, is_current_consumer).reset_device ==> match data {
            RequestData::Attached => s.state != State::Detached,
            RequestData::UpdatedConsumerCapability(_) => !(s.state is Idle || s.state is ConnectedConsumer),
            RequestData::RequestedProviderCapability(_) => !(s.state is Idle || s.state is ConnectedProvider),
            RequestData::Disconnected => !(s.state is ConnectedConsumer || s.state is ConnectedProvider),
            RequestData::Detached => false,
        },
        spec_process_request(s, data, is_current_consumer).consumer_lost ==> data is Disconnected && is_current_consumer,
{
}

/// The transition for a request under the service's rules: an event that the device's state
/// does not allow is refused, and the device keeps its state, but processing goes on as it does
/// for an allowed event (the consumer is re-evaluated, a provider connection is attempted, the
/// loss of the current consumer is reported); the device is never reset.
pub open spec fn spec_service_request(s: InternalState, data: RequestData, is_current_consumer: bool) -> Transition {
    match data {
        RequestData::Attached => Transition {
            state: if s.state == State::Detached {
                InternalState { state: State::Idle, ..s }
            } else {
                s
            },
            reset_device: false,
            consumer_lost: false,
            follow_up: FollowUp::Nothing,
        },
        RequestData::Detached => spec_detach(s),
        RequestData::UpdatedConsumerCapability(cap) => Transition {
            state: if s.state is Idle || s.state is ConnectedConsumer {
                InternalState { consumer_capability: cap, ..s }
            } else {
                s
            },
            reset_device: false,
            consumer_lost: false,
            follow_up: FollowUp::UpdateCurrentConsumer,
        },
        RequestData::RequestedProviderCapability(cap) => Transition {
            state: if s.state is Idle || s.state is ConnectedProvider {
                InternalState { requested_provider_capability: cap, ..s }
            } else {
                s
            },
            reset_device: false,
            consumer_lost: false,
            follow_up: FollowUp::ConnectProvider,
        },
        RequestData::Disconnected => Transition {
            state: if s.state is ConnectedConsumer || s.state is ConnectedProvider {
                InternalState { state: State::Idle, ..s }
            } else {
                s
            },
            reset_device: false,
            consumer_lost: is_current_consumer,
            follow_up: FollowUp::UpdateCurrentConsumer,
        },
    }
}

/// Under the service's rules no event resets the device, a refused event leaves the device's
/// state as it was, and the loss of a consumer is reported only on a disconnect of the current
/// consumer.
pub proof fn law_service_refusals_keep_state(s: InternalState, data: RequestData, is_current_consumer: bool)
    ensures
        !spec_service_request(s, data, is_current_consumer).reset_device,
        spec_service_request(s, data, is_current_consumer).consumer_lost ==> data is Disconnected && is_current_consumer,
        spec_process_request(s, data, is_current_consumer).reset_device ==> spec_service_request(
            s,
            data,
            is_current_consumer,
        ).state == s,
        spec_service_request(s, data, is_current_consumer).follow_up == match data {
            RequestData::Attached => FollowUp::Nothing,
            RequestData::RequestedProviderCapability(_) => FollowUp::ConnectProvider,
            _ => FollowUp::UpdateCurrentConsumer,
        },
{
}

/// Under the power policy's rules an event resets the device exactly when the device's state
/// does not allow it: an attach unless detached, a consumer capability update unless idle or
/// consuming, a provider request unless idle or providing, a disconnect unless consuming or
/// providing; a detach never. A reset leaves the device detached with its capabilities kept. An
/// allowed provider request records the requested capability, keeps the rest of the state and
/// is followed by a provider connection attempt; a refused one is followed by nothing. An
/// allowed event moves the state as its kind says (an attach makes the device idle, a detach
/// detaches it and forgets its capabilities, a capability update or request records it, a
/// disconnect makes it idle), and the service's rules then give the very same transition.
pub proof fn law_policy_resets_exactly_disallowed(s: InternalState, data: RequestData, is_current_consumer: bool)
    ensures
        spec_process_request(s, data, is_current_consumer).reset_device <==> match data {
            RequestData::Attached => !(s.state is Detached),
            RequestData::Detached => false,
            RequestData::UpdatedConsumerCapability(_) => !(s.state is Idle || s.state is ConnectedConsumer),
            RequestData::RequestedProviderCapability(_) => !(s.state is Idle || s.state is ConnectedProvider),
            RequestData::Disconnected => !(s.state is ConnectedConsumer || s.state is ConnectedProvider),
        },
        spec_process_request(s, data, is_current_consumer).reset_device ==> spec_process_request(
            s,
            data,
            is_current_consumer,
        ).state == (InternalState { state: State::Detached, ..s }),
        !spec_process_request(s, data, is_current_consumer).reset_device ==> spec_process_request(
            s,
            data,
            is_current_consumer,
        ).state == match data {
            RequestData::Attached => InternalState { state: State::Idle, ..s },
            RequestData::Detached => InternalState {
                state: State::Detached,
                consumer_capability: None,
                requested_provider_capability: None,
            },
            RequestData::UpdatedConsumerCapability(cap) => InternalState { consumer_capability: cap, ..s },
            RequestData::RequestedProviderCapability(cap) => InternalState { requested_provider_capability: cap, ..s },
            RequestData::Disconnected => InternalState { state: State::Idle, ..s },
        },
        spec_process_request(s, data, is_current_consumer).follow_up == match data {
            RequestData::Attached => FollowUp::Nothing,
            RequestData::Detached | RequestData::Disconnected => FollowUp::UpdateCurrentConsumer,
            RequestData::UpdatedConsumerCapability(_) => if spec_process_request(
                s,
                data,
                is_current_consumer,
            ).reset_device {
                FollowUp::Nothing
            } else {
                FollowUp::UpdateCurrentConsumer
            },
            RequestData::RequestedProviderCapability(_) => if spec_process_request(
                s,
                data,
                is_current_consumer,
            ).reset_device {
                FollowUp::Nothing
            } else {
                FollowUp::ConnectProvider
            },
        },
        spec_process_request(s, data, is_current_consumer).consumer_lost == (data is Disconnected
            && is_current_consumer),
        !spec_process_request(s, data, is_current_consumer).reset_device ==> spec_service_request(
            s,
            data,
            is_current_consumer,
        ) == spec_process_request(s, data, is_current_consumer),
        data matches RequestData::RequestedProviderCapability(cap) ==> spec_process_request(
            s,
            data,
            is_current_consumer,
        ) == if s.state is Idle || s.state is ConnectedProvider {
            Transition {
                state: InternalState { requested_provider_capability: cap, ..s },
                reset_device: false,
                consumer_lost: false,
                follow_up: FollowUp::ConnectProvider,
            }
        } else {
            Transition {
                state: InternalState { state: State::Detached, ..s },
                reset_device: true,
                consumer_lost: false,
                follow_up: FollowUp::Nothing,
            }
        },
{
}

/// A disconnect of a device that is consuming or providing makes it idle, under the service's
/// rules and under the power policy's alike, keeping its offered and requested capabilities and
/// without a reset.
pub proof fn law_disconnect_makes_idle(s: InternalState, is_current_consumer: bool)
    requires
        s.state is ConnectedConsumer || s.state is ConnectedProvider,
    ensures
        spec_service_request(s, RequestData::Disconnected, is_current_consumer).state == (InternalState {
            state: State::Idle,
            ..s
        }),
        spec_process_request(s, RequestData::Disconnected, is_current_consumer).state == (InternalState {
            state: State::Idle,
            ..s
        }),
        !spec_process_request(s, RequestData::Disconnected, is_current_consumer).reset_device,
{
}

/// Processes a request from a device under the service's rules.
pub fn process_service_request(s: InternalState, data: RequestData, is_current_consumer: bool) -> (r: Transition)
    ensures
        r == spec_service_request(s, data, is_current_consumer),
{
    match data {
        RequestData::Attached => {
            let state = match s.state {
                State::Detached => InternalState { state: State::Idle, ..s },
                _ => s,
            };
            Transition { state, reset_device: false, consumer_lost: false, follow_up: FollowUp::Nothing }
        },
        RequestData::Detached => process_notify_detach(s),
        RequestData::UpdatedConsumerCapability(cap) => {
            let state = match s.state {
                State::Idle | State::ConnectedConsumer(_) => InternalState { consumer_capability: cap, ..s },
                _ => s,
            };
            Transition { state, reset_device: false, consumer_lost: false, follow_up: FollowUp::UpdateCurrentConsumer }
        },
        RequestData::RequestedProviderCapability(cap) => {
            let state = match s.state {
                State::Idle | State::ConnectedProvider(_) => InternalState {
                    requested_provider_capability: cap,
                    ..s
                },
                _ => s,
            };
            Transition { state, reset_device: false, consumer_lost: false, follow_up: FollowUp::ConnectProvider }
        },
        RequestData::Disconnected => {
            let state = match s.state {
                State::ConnectedConsumer(_) | State::ConnectedProvider(_) => InternalState { state: State::Idle, ..s },
                _ => s,
            };
            Transition {
                state,
                reset_device: false,
                consumer_lost: is_current_consumer,
                follow_up: FollowUp::UpdateCurrentConsumer,
            }
        },
    }
}

fn invalid(s: InternalState) -> (r: Transition)
    ensures
        r == invalid_event(s),
{
    Transition {
        state: InternalState { state: State::Detached, ..s },
        reset_device: true,
        consumer_lost: false,
        follow_up: FollowUp::Nothing,
    }
}

/// Processes an attach notification.
pub fn process_notify_attach(s: InternalState) -> (r: Transition)
    ensures
        r == spec_attach(s),
{
    if s.state != State::Detached {
        invalid(s)
    } else {
        Transition {
            state: InternalState { state: State::Idle, ..s },
            reset_device: false,
            consumer_lost: false,
            follow_up: FollowUp::Nothing,
        }
    }
}

/// Processes a detach notification.
pub fn process_notify_detach(s: InternalState) -> (r: Transition)
    ensures
        r == spec_detach(s),
{
    Transition {
        state: InternalState {
            state: State::Detached,
            consumer_capability: None,
            requested_provider_capability: None,
        },
        reset_device: false,
        consumer_lost: false,
        follow_up: FollowUp::UpdateCurrentConsumer,
    }
}

/// Processes an updated consumer capability.
pub fn process_notify_consumer_power_capability(
    s: InternalState,
    capability: Option<ConsumerPowerCapability>,
) -> (r: Transition)
    ensures
        r == spec_consumer_capability(s, capability),
{
    match s.state {
        State::Idle | State::ConnectedConsumer(_) => Transition {
            state: InternalState { consumer_capability: capability, ..s },
            reset_device: false,
            consumer_lost: false,
            follow_up: FollowUp::UpdateCurrentConsumer,
        },
        _ => invalid(s),
    }
}

/// Processes a requested provider capability.
pub fn process_request_provider_power_capabilities(
    s: InternalState,
    capability: Option<ProviderPowerCapability>,
) -> (r: Transition)
    ensures
        r == spec_provider_request(s, capability),
{
    match s.state {
        State::Idle | State::ConnectedProvider(_) => Transition {
            state: InternalState { requested_provider_capability: capability, ..s },
            reset_device: false,
            consumer_lost: false,
            follow_up: FollowUp::ConnectProvider,
        },
        _ => invalid(s),
    }
}

/// Processes a disconnect notification.
pub fn process_notify_disconnect(s: InternalState, is_current_consumer: bool) -> (r: Transition)
    ensures
        r == spec_disconnect(s, is_current_consumer),
{
    let (state, reset_device) = match s.state {
        State::ConnectedConsumer(_) | State::ConnectedProvider(_) => (State::Idle, false),
        _ => (State::Detached, true),
    };
    Transition {
        state: InternalState { state, ..s },
        reset_device,
        consumer_lost: is_current_consumer,
        follow_up: FollowUp::UpdateCurrentConsumer,
    }
}

/// Processes a request from a device.
pub fn process_request(s: InternalState, data: RequestData, is_current_consumer: bool) -> (r: Transition)
    ensures
        r == spec_process_request(s, data, is_current_consumer),
{
    match data {
        RequestData::Attached => process_notify_attach(s),
        RequestData::Detached => process_notify_detach(s),
        RequestData::UpdatedConsumerCapability(capability) => process_notify_consumer_power_capability(
            s,
            capability,
        ),
        RequestData::RequestedProviderCapability(capability) => process_request_provider_power_capabilities(
            s,
            capability,
        ),
        RequestData::Disconnected => process_notify_disconnect(s, is_current_consumer),
    }
}

/// What a device reset, asked for by an event the device's state did not allow, makes of the
/// event's outcome: the reset's own result, except on a disconnect, where a failed reset is only
/// recorded and the disconnect is processed on.
pub fn reset_outcome(data: RequestData, reset: Result<(), Error>) -> (r: Result<(), Error>)
    ensures
        r == (if data is Disconnected {
            Ok::<(), Error>(())
        } else {
            reset
        }),
{
    match data {
        RequestData::Disconnected => Ok(()),
        _ => reset,
    }
}

/// The device's state once the service has connected it as a consumer of `capability`; its
/// offered and requested capabilities stay.
pub fn after_connect_consumer(s: InternalState, capability: ConsumerPowerCapability) -> (r: InternalState)
    ensures
        r == (InternalState { state: State::ConnectedConsumer(capability), ..s }),
{
    InternalState { state: State::ConnectedConsumer(capability), ..s }
}

/// The device's state once the service has connected it as a provider of `capability`; its
/// offered and requested capabilities stay.
pub fn after_connect_provider(s: InternalState, capability: ProviderPowerCapability) -> (r: InternalState)
    ensures
        r == (InternalState { state: State::ConnectedProvider(capability), ..s }),
{
    InternalState { state: State::ConnectedProvider(capability), ..s }
}

/// The device's state once the service has disconnected it: idle, its capabilities kept.
pub fn after_disconnect(s: InternalState) -> (r: InternalState)
    ensures
        r == (InternalState { state: State::Idle, ..s }),
{
    InternalState { state: State::Idle, ..s }
}

} // verus!
