//! Which device consumes power.
//!
//! The device offering the most power is chosen; a device is a candidate while it is idle or
//! consuming and offers a consumer capability. Among devices offering equal power the first is
//! chosen.
use vstd::prelude::*;

use super::DeviceSnapshot;
use crate::power::policy::device::State;
use crate::power::policy::{ConsumerPowerCapability, DeviceId};

verus! {

/// A device that can consume power, with the capability it offers.
#[derive(Debug, Clone, Copy, PartialEq, Eq, Structural)]
pub struct AvailableConsumer {
    /// Device ID
    pub device_id: DeviceId,
    /// Capability offered by the device
    pub consumer_power_capability: ConsumerPowerCapability,
}

/// Whether the device can be chosen to consume power.
pub open spec fn is_candidate(d: DeviceSnapshot) -> bool {
    &&& d.state.consumer_capability is Some
    &&& (d.state.state is Idle || d.state.state is ConnectedConsumer)
}

/// The power a candidate offers.
pub open spec fn offered_power(d: DeviceSnapshot) -> int {
    d.state.consumer_capability->0.capability.spec_max_power_mw()
}

/// Whether device `i` is the best candidate: it offers the most power, and strictly more than
/// every candidate before it.
pub open spec fn is_best_candidate(devices: Seq<DeviceSnapshot>, i: int) -> bool {
    &&& 0 <= i < devices.len()
    &&& is_candidate(devices[i])
    &&& forall|j: int| 0 <= j < devices.len() && is_candidate(devices[j]) ==> offered_power(devices[j]) <= offered_power(devices[i])
    &&& forall|j: int| 0 <= j < i && is_candidate(devices[j]) ==> offered_power(devices[j]) < offered_power(devices[i])
}

/// The consumer that a device stands for.
pub open spec fn consumer_of(d: DeviceSnapshot) -> AvailableConsumer {
    AvailableConsumer { device_id: d.id, consumer_power_capability: d.state.consumer_capability->0 }
}

/// Finds the best available consumer among the devices.
pub fn find_best_consumer(devices: &[DeviceSnapshot]) -> (r: Option<AvailableConsumer>)
    ensures
        r is None <==> forall|j: int| 0 <= j < devices.len() ==> !is_candidate(#[trigger] devices[j]),
        r matches Some(c) ==> exists|i: int| is_best_candidate(devices@, i) && c == consumer_of(#[trigger] devices[i]),
{
    let mut best: Option<usize> = None;
    let mut best_power: u32 = 0;
    let mut i: usize = 0;
    while i < devices.len()
        invariant
            i <= devices.len(),
            best is None ==> forall|j: int| 0 <= j < i ==> !is_candidate(#[trigger] devices[j]),
            best matches Some(b) ==> {
                &&& b < i
                &&& is_candidate(devices[b as int])
                &&& best_power == offered_power(devices[b as int])
                &&& forall|j: int| 0 <= j < i && is_candidate(devices[j]) ==> offered_power(devices[j]) <= best_power
                &&& forall|j: int| 0 <= j < b && is_candidate(devices[j]) ==> offered_power(devices[j]) < best_power
            },
        decreases devices.len() - i,
    {
        let d = devices[i];
        match d.state.consumer_capability {
            Some(cap) => {
                match d.state.state {
                    State::Idle | State::ConnectedConsumer(_) => {
                        let power = cap.capability.max_power_mw();
                        let better = match best {
                            None => true,
                            Some(_) => power > best_power,
                        };
                        if better {
                            best = Some(i);
                            best_power = power;
                        }
                    },
                    _ => {},
                }
            },
            None => {},
        }
        i = i + 1;
    }
    match best {
        None => None,
        Some(b) => {
            let d = devices[b];
            proof {
                assert(is_best_candidate(devices@, b as int));
            }
            match d.state.consumer_capability {
                Some(cap) => Some(AvailableConsumer { device_id: d.id, consumer_power_capability: cap }),
                None => None,
            }
        },
    }
}

/// What to do when the best consumer may have changed.
#[derive(Debug, Clone, Copy, PartialEq, Eq, Structural)]
pub struct ConsumerUpdate {
    /// Device to stop consuming on, if any
    pub disconnect: Option<DeviceId>,
    /// Consumer to start, if any
    pub connect: Option<AvailableConsumer>,
    /// The current consumer afterwards
    pub current: Option<AvailableConsumer>,
}

/// Whether the device with the given ID is among the devices and not detached.
pub open spec fn is_attached(devices: Seq<DeviceSnapshot>, id: DeviceId) -> bool {
    exists|j: int| 0 <= j < devices.len() && devices[j].id == id && !(#[trigger] devices[j].state.state is Detached)
}

/// The update from the current consumer to the best one.
///
/// Nothing happens when the best consumer is the current one. Otherwise the best consumer
/// becomes current and is connected; the old consumer is disconnected first when it is another
/// device that is still attached.
pub open spec fn spec_update_consumer(
    current: Option<AvailableConsumer>,
    best: Option<AvailableConsumer>,
    devices: Seq<DeviceSnapshot>,
) -> ConsumerUpdate {
    if best == current {
        ConsumerUpdate { disconnect: None, connect: None, current }
    } else {
        let disconnect = match current {
            Some(c) => if is_attached(devices, c.device_id) && (best is None || best->0.device_id
                != c.device_id) {
                Some(c.device_id)
            } else {
                None
            },
            None => None,
        };
        ConsumerUpdate { disconnect, connect: best, current: best }
    }
}

/// A consumer switch never calls a device that is detached or that stays the consumer, and it
/// always ends with the best consumer as the current one; when the best consumer is already
/// current nothing is called.
pub proof fn law_consumer_update(
    current: Option<AvailableConsumer>,
    best: Option<AvailableConsumer>,
    devices: Seq<DeviceSnapshot>,
)
    ensures
        spec_update_consumer(current, best, devices).current == best,
        spec_update_consumer(current, best, devices).disconnect matches Some(id) ==> {
            &&& is_attached(devices, id)
            &&& current is Some && current->0.device_id == id
            &&& !(best is Some && best->0.device_id == id)
        },
        best == current ==> spec_update_consumer(current, best, devices).disconnect is None
            && spec_update_consumer(current, best, devices).connect is None,
        best != current ==> spec_update_consumer(current, best, devices).connect == best,
{
}

/// A switch disconnects the old consumer exactly when the best consumer is another device (or
/// there is none) and the old consumer's device is still among the devices, found by its ID
/// wherever it stands, and not detached; only the old consumer is ever disconnected.
pub proof fn law_switch_disconnects_old_consumer(
    current: Option<AvailableConsumer>,
    best: Option<AvailableConsumer>,
    devices: Seq<DeviceSnapshot>,
)
    ensures
        spec_update_consumer(current, best, devices).disconnect is Some <==> (current matches Some(c) && !(best
            matches Some(b) && b.device_id == c.device_id) && exists|j: int|
            #![trigger devices[j]]
            0 <= j < devices.len() && devices[j].id == c.device_id && !(devices[j].state.state is Detached)),
        spec_update_consumer(current, best, devices).disconnect matches Some(id) ==> current matches Some(c)
            && id == c.device_id,
{
    if let Some(c) = current {
        if exists|j: int|
            #![trigger devices[j]]
            0 <= j < devices.len() && devices[j].id == c.device_id && !(devices[j].state.state is Detached) {
            let j = choose|j: int|
                #![trigger devices[j]]
                0 <= j < devices.len() && devices[j].id == c.device_id && !(devices[j].state.state is Detached);
            assert(is_attached(devices, c.device_id));
        }
    }
}

fn device_is_attached(devices: &[DeviceSnapshot], id: DeviceId) -> (r: bool)
    ensures
        r == is_attached(devices@, id),
{
    let mut i: usize = 0;
    while i < devices.len()
        invariant
            i <= devices.len(),
            forall|j: int| 0 <= j < i ==> !(devices[j].id == id && !(#[trigger] devices[j].state.state is Detached)),
        decreases devices.len() - i,
    {
        if devices[i].id == id {
            match devices[i].state.state {
                State::Detached => {},
                _ => {
                    return true;
                },
            }
        }
        i = i + 1;
    }
    false
}

/// Plans the switch to the best available consumer.
pub fn update_current_consumer(current: Option<AvailableConsumer>, devices: &[DeviceSnapshot]) -> (r: (
    Option<AvailableConsumer>,
    ConsumerUpdate,
))
    ensures
        r.0 is None <==> forall|j: int| 0 <= j < devices.len() ==> !is_candidate(#[trigger] devices[j]),
        r.0 matches Some(c) ==> exists|i: int| is_best_candidate(devices@, i) && c == consumer_of(#[trigger] devices[i]),
        r.1 == spec_update_consumer(current, r.0, devices@),
{
    let best = find_best_consumer(devices);
    if best == current {
        return (best, ConsumerUpdate { disconnect: None, connect: None, current });
    }
    let disconnect = match current {
        Some(c) => {
            let other = match best {
                None => true,
                Some(b) => b.device_id != c.device_id,
            };
            if other && device_is_attached(devices, c.device_id) {
                Some(c.device_id)
            } else {
                None
            }
        },
        None => None,
    };
    (best, ConsumerUpdate { disconnect, connect: best, current: best })
}

} // verus!
