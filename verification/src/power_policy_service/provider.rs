//! How much power to provide to each connected device.
//!
//! The total provided power is what the requester asks for plus what every other device
//! currently provides. When it is at or below the configured limited power threshold the system
//! is in the unlimited power state, and each device is given up to `provider_unlimited`. Above
//! the threshold the system is in the limited power state, and each device is given
//! `provider_limited`.
use vstd::prelude::*;

use super::{connected_provider_power, total_provider_power, Config, DeviceSnapshot};
use crate::power::policy::device::State;
use crate::power::policy::{DeviceId, Error, ProviderPowerCapability};

verus! {

/// Current system provider power state
#[derive(Clone, Copy, Debug, PartialEq, Eq, Structural)]
pub enum PowerState {
    /// System is capable of providing high power
    Unlimited,
    /// System can only provide limited power
    Limited,
}

impl Default for PowerState {
    fn default() -> (r: Self)
        ensures
            r == PowerState::Unlimited,
    {
        PowerState::Unlimited
    }
}

/// Power policy provider global state
#[derive(Clone, Copy, Debug, PartialEq, Eq, Structural)]
pub struct ProviderState {
    /// Current power state
    pub state: PowerState,
}

impl Default for ProviderState {
    /// The unlimited power state.
    fn default() -> (r: Self)
        ensures
            r.state == PowerState::Unlimited,
    {
        ProviderState { state: PowerState::Unlimited }
    }
}

/// Power that a device counts for when `requester` asks for `requested`: the request itself for
/// the requester, and for every other device the power it currently provides (0 unless it is a
/// connected provider).
pub open spec fn counted_power(d: DeviceSnapshot, requester: DeviceId, requested: ProviderPowerCapability) -> int {
    if d.id == requester {
        requested.capability.spec_max_power_mw()
    } else {
        connected_provider_power(d)
    }
}

/// Total power that would be provided if `requester` got `requested` and every other device kept
/// providing what it provides now.
pub open spec fn total_requested_power(
    devices: Seq<DeviceSnapshot>,
    requester: DeviceId,
    requested: ProviderPowerCapability,
) -> int
    decreases devices.len(),
{
    if devices.len() == 0 {
        0
    } else {
        total_requested_power(devices.drop_last(), requester, requested) + counted_power(
            devices.last(),
            requester,
            requested,
        )
    }
}

/// Every prefix of the devices counts for at most the power of all of them.
pub proof fn lemma_total_requested_power_monotone(
    devices: Seq<DeviceSnapshot>,
    requester: DeviceId,
    requested: ProviderPowerCapability,
)
    ensures
        forall|k: int|
            0 <= k <= devices.len() ==> #[trigger] total_requested_power(devices.take(k), requester, requested)
                <= total_requested_power(devices, requester, requested),
    decreases devices.len(),
{
    if devices.len() > 0 {
        lemma_total_requested_power_monotone(devices.drop_last(), requester, requested);
        assert forall|k: int| 0 <= k <= devices.len() implies #[trigger] total_requested_power(
            devices.take(k),
            requester,
            requested,
        ) <= total_requested_power(devices, requester, requested) by {
            if k < devices.len() {
                assert(devices.drop_last().take(k) == devices.take(k));
            } else {
                assert(devices.take(k) == devices);
            }
        }
    }
}

/// The power state for a total provided power.
pub open spec fn power_state_for(config: Config, total_mw: int) -> PowerState {
    if total_mw > config.limited_power_threshold_mw {
        PowerState::Limited
    } else {
        PowerState::Unlimited
    }
}

/// The power given to a provider that asked for `requested` while the system is in `state`.
pub open spec fn target_power(config: Config, state: PowerState, requested: ProviderPowerCapability) -> ProviderPowerCapability {
    match state {
        PowerState::Limited => ProviderPowerCapability { capability: config.provider_limited, flags: requested.flags },
        PowerState::Unlimited => if requested.capability.spec_max_power_mw()
            < config.provider_unlimited.spec_max_power_mw() {
            requested
        } else {
            ProviderPowerCapability { capability: config.provider_unlimited, flags: requested.flags }
        },
    }
}

/// The index of the first device with the given ID.
pub open spec fn find_device(devices: Seq<DeviceSnapshot>, id: DeviceId) -> Option<int> {
    if exists|i: int| 0 <= i < devices.len() && devices[i].id == id {
        Some(
            choose|i: int|
                0 <= i < devices.len() && devices[i].id == id && forall|j: int|
                    0 <= j < i ==> devices[j].id != id,
        )
    } else {
        None
    }
}

/// Looks up the first device with the given ID.
pub fn get_device_index(devices: &[DeviceSnapshot], id: DeviceId) -> (r: Option<usize>)
    ensures
        match r {
            Some(i) => i < devices.len() && devices[i as int].id == id && forall|j: int|
                0 <= j < i ==> devices[j].id != id,
            None => forall|j: int| 0 <= j < devices.len() ==> devices[j].id != id,
        },
        r matches Some(i) ==> find_device(devices@, id) == Some(i as int),
        r is None ==> find_device(devices@, id) is None,
{
    let mut i: usize = 0;
    while i < devices.len()
        invariant
            i <= devices.len(),
            forall|j: int| 0 <= j < i ==> devices[j].id != id,
        decreases devices.len() - i,
    {
        if devices[i].id == id {
            proof {
                let w = choose|w: int|
                    0 <= w < devices@.len() && devices@[w].id == id && forall|j: int|
                        0 <= j < w ==> devices@[j].id != id;
                assert(devices@[i as int].id == id);
                if w < i {
                } else if w > i {
                    assert(devices@[i as int].id != id);
                }
            }
            return Some(i);
        }
        i = i + 1;
    }
    None
}

/// Whether a device in this state may be connected as a provider.
pub open spec fn can_provide(state: State) -> bool {
    state is Idle || state is ConnectedProvider
}

/// The outcome of a provider connection attempt by `requester` over `devices`.
pub open spec fn spec_connect_provider(
    config: Config,
    devices: Seq<DeviceSnapshot>,
    requester: DeviceId,
) -> Result<Option<ProviderPowerCapability>, Error> {
    match find_device(devices, requester) {
        None => Err(Error::InvalidDevice),
        Some(i) => match devices[i].state.requested_provider_capability {
            None => Ok(None),
            Some(requested) => {
                let state = power_state_for(
                    config,
                    total_requested_power(devices, requester, requested),
                );
                if can_provide(devices[i].state.state) {
                    Ok(Some(target_power(config, state, requested)))
                } else {
                    Err(Error::InvalidState)
                }
            },
        },
    }
}

/// The outcome of a provider connection attempt under the power policy's rules, where a device
/// that no longer requests power cannot be provided for.
pub open spec fn spec_connect_requested_provider(
    config: Config,
    devices: Seq<DeviceSnapshot>,
    requester: DeviceId,
) -> Result<ProviderPowerCapability, Error> {
    match spec_connect_provider(config, devices, requester) {
        Ok(Some(target)) => Ok(target),
        Ok(None) => Err(Error::CannotProvide(None)),
        Err(e) => Err(e),
    }
}

/// The provider power state after a provider connection attempt, `None` when it is unchanged.
pub open spec fn spec_connect_provider_state(
    config: Config,
    devices: Seq<DeviceSnapshot>,
    requester: DeviceId,
) -> Option<PowerState> {
    match find_device(devices, requester) {
        Some(i) => match devices[i].state.requested_provider_capability {
            Some(requested) => Some(
                power_state_for(config, total_requested_power(devices, requester, requested)),
            ),
            None => None,
        },
        None => None,
    }
}

/// Whether the total power of every possible request fits a `u32`, as the power sum needs.
pub open spec fn provider_power_fits(devices: Seq<DeviceSnapshot>, requester: DeviceId) -> bool {
    match find_device(devices, requester) {
        Some(i) => match devices[i].state.requested_provider_capability {
            Some(requested) => total_requested_power(devices, requester, requested) <= u32::MAX,
            None => true,
        },
        None => true,
    }
}

/// Tells whether the total power of a provider request by `requester` fits a `u32`: the
/// condition under which [`ProviderState::connect_provider`] can sum it.
pub fn requested_power_fits(devices: &[DeviceSnapshot], requester: DeviceId) -> (r: bool)
    ensures
        r == provider_power_fits(devices@, requester),
{
    let index = match get_device_index(devices, requester) {
        Some(i) => i,
        None => return true,
    };
    let requested = match devices[index].state.requested_provider_capability {
        Some(cap) => cap,
        None => return true,
    };
    let mut total: u32 = 0;
    let mut i: usize = 0;
    proof {
        lemma_total_requested_power_monotone(devices@, requester, requested);
    }
    while i < devices.len()
        invariant
            i <= devices.len(),
            find_device(devices@, requester) == Some(index as int),
            devices@[index as int].state.requested_provider_capability == Some(requested),
            total == total_requested_power(devices@.take(i as int), requester, requested),
            forall|k: int|
                0 <= k <= devices.len() ==> #[trigger] total_requested_power(devices@.take(k), requester, requested)
                    <= total_requested_power(devices@, requester, requested),
        decreases devices.len() - i,
    {
        proof {
            assert(devices@.take(i as int + 1).drop_last() == devices@.take(i as int));
            assert(total_requested_power(devices@.take(i as int + 1), requester, requested)
                <= total_requested_power(devices@, requester, requested));
        }
        let power: u32 = if devices[i].id == requester {
            requested.capability.max_power_mw()
        } else {
            match devices[i].state.state {
                State::ConnectedProvider(c) => c.capability.max_power_mw(),
                _ => 0,
            }
        };
        match total.checked_add(power) {
            Some(t) => {
                total = t;
            },
            None => {
                proof {
                    assert(devices@.take(i as int + 1).last() == devices@[i as int]);
                    assert(total_requested_power(devices@.take(i as int + 1), requester, requested) == total + power);
                }
                return false;
            },
        }
        i = i + 1;
    }
    proof {
        assert(devices@.take(devices.len() as int) == devices@);
    }
    true
}

/// The system is in the limited power state exactly when the total power exceeds the threshold.
/// In the limited state every provider gets the configured limited capability. In the unlimited
/// state a provider gets the smaller of what it asked for and the configured unlimited
/// capability: it is never upgraded past its own request. Either way its flags are kept.
pub proof fn law_provider_target_power(config: Config, total_mw: int, requested: ProviderPowerCapability)
    ensures
        (power_state_for(config, total_mw) == PowerState::Limited) == (total_mw > config.limited_power_threshold_mw),
        target_power(config, PowerState::Limited, requested).capability == config.provider_limited,
        target_power(config, PowerState::Unlimited, requested).capability.spec_max_power_mw() == if requested.capability.spec_max_power_mw()
            < config.provider_unlimited.spec_max_power_mw() {
            requested.capability.spec_max_power_mw()
        } else {
            config.provider_unlimited.spec_max_power_mw()
        },
        target_power(config, PowerState::Unlimited, requested).capability.spec_max_power_mw()
            <= requested.capability.spec_max_power_mw(),
        target_power(config, PowerState::Unlimited, requested).capability.spec_max_power_mw()
            <= config.provider_unlimited.spec_max_power_mw(),
        target_power(config, power_state_for(config, total_mw), requested).flags == requested.flags,
{
}

/// A device that is not registered is refused, and a device that is neither idle nor providing
/// is in the wrong state. A device that asks for nothing gets nothing: the service does nothing
/// and succeeds, the power policy refuses it as one that cannot be provided for; neither changes
/// the power state.
pub proof fn law_connect_provider_requests(config: Config, devices: Seq<DeviceSnapshot>, requester: DeviceId)
    ensures
        find_device(devices, requester) is None ==> spec_connect_provider(config, devices, requester) == Err::<
            Option<ProviderPowerCapability>,
            Error,
        >(Error::InvalidDevice),
        find_device(devices, requester) matches Some(i) && devices[i].state.requested_provider_capability is None
            ==> spec_connect_provider(config, devices, requester) == Ok::<Option<ProviderPowerCapability>, Error>(None)
            && spec_connect_requested_provider(config, devices, requester) == Err::<ProviderPowerCapability, Error>(
            Error::CannotProvide(None),
        ) && spec_connect_provider_state(config, devices, requester) is None,
        find_device(devices, requester) matches Some(i) && devices[i].state.requested_provider_capability is Some
            && !can_provide(devices[i].state.state) ==> spec_connect_provider(config, devices, requester) == Err::<
            Option<ProviderPowerCapability>,
            Error,
        >(Error::InvalidState),
{
}

/// Where no device has the requester's ID, every device counts for the power it currently
/// provides.
pub proof fn lemma_total_requested_absent(
    devices: Seq<DeviceSnapshot>,
    requester: DeviceId,
    requested: ProviderPowerCapability,
)
    requires
        forall|j: int| 0 <= j < devices.len() ==> #[trigger] devices[j].id != requester,
    ensures
        total_requested_power(devices, requester, requested) == total_provider_power(devices),
    decreases devices.len(),
{
    if devices.len() > 0 {
        let rest = devices.drop_last();
        assert forall|j: int| 0 <= j < rest.len() implies #[trigger] rest[j].id != requester by {
            assert(rest[j] == devices[j]);
        }
        lemma_total_requested_absent(rest, requester, requested);
        assert(devices[devices.len() - 1].id != requester);
    }
}

/// No devices count for nothing. A device added with the requester's ID counts for the requested power, whatever state it is
/// in (a provider asking for an upgrade included); any other device counts for the power it
/// currently provides: the max power of `c` in state `ConnectedProvider(c)`, else nothing.
pub proof fn law_requested_power_push(
    devices: Seq<DeviceSnapshot>,
    d: DeviceSnapshot,
    requester: DeviceId,
    requested: ProviderPowerCapability,
)
    ensures
        total_requested_power(Seq::<DeviceSnapshot>::empty(), requester, requested) == 0,
        d.id == requester ==> total_requested_power(devices.push(d), requester, requested)
            == total_requested_power(devices, requester, requested) + requested.capability.spec_max_power_mw(),
        d.id != requester ==> total_requested_power(devices.push(d), requester, requested)
            == total_requested_power(devices, requester, requested) + match d.state.state {
            State::ConnectedProvider(c) => c.capability.spec_max_power_mw(),
            _ => 0,
        },
{
    assert(devices.push(d).drop_last() =~= devices);
}

/// With the requester registered once, at index `i`, the total power of its request is what all
/// the devices provide now, less what the requester itself provides now, plus its request.
pub proof fn law_total_with_request(
    devices: Seq<DeviceSnapshot>,
    requester: DeviceId,
    requested: ProviderPowerCapability,
    i: int,
)
    requires
        0 <= i < devices.len(),
        devices[i].id == requester,
        forall|j: int| 0 <= j < devices.len() && j != i ==> #[trigger] devices[j].id != requester,
    ensures
        total_requested_power(devices, requester, requested) == total_provider_power(devices)
            - connected_provider_power(devices[i]) + requested.capability.spec_max_power_mw(),
    decreases devices.len(),
{
    let rest = devices.drop_last();
    if i == devices.len() - 1 {
        assert forall|j: int| 0 <= j < rest.len() implies #[trigger] rest[j].id != requester by {
            assert(rest[j] == devices[j]);
        }
        lemma_total_requested_absent(rest, requester, requested);
    } else {
        assert forall|j: int| 0 <= j < rest.len() && j != i implies #[trigger] rest[j].id != requester by {
            assert(rest[j] == devices[j]);
        }
        assert(rest[i] == devices[i]);
        law_total_with_request(rest, requester, requested, i);
        assert(devices[devices.len() - 1].id != requester);
    }
}

/// With the requester registered once, at index `i`, and requesting `requested`, a provider
/// connection attempt sets the limited power state exactly when the requested power plus what
/// the other devices provide now exceeds the threshold. A requester that is idle or already
/// providing is then granted the limited capability in the limited state, and in the unlimited
/// state the smaller of its request and the unlimited capability.
pub proof fn law_connect_provider_counts_request(
    config: Config,
    devices: Seq<DeviceSnapshot>,
    requester: DeviceId,
    i: int,
    requested: ProviderPowerCapability,
)
    requires
        0 <= i < devices.len(),
        devices[i].id == requester,
        forall|j: int| 0 <= j < devices.len() && j != i ==> #[trigger] devices[j].id != requester,
        devices[i].state.requested_provider_capability == Some(requested),
    ensures
        ({
            let total = total_provider_power(devices) - connected_provider_power(devices[i])
                + requested.capability.spec_max_power_mw();
            let limited = total > config.limited_power_threshold_mw;
            &&& spec_connect_provider_state(config, devices, requester) == Some(
                if limited {
                    PowerState::Limited
                } else {
                    PowerState::Unlimited
                },
            )
            &&& (devices[i].state.state is Idle || devices[i].state.state is ConnectedProvider)
                ==> spec_connect_provider(config, devices, requester) == Ok::<Option<ProviderPowerCapability>, Error>(
                Some(
                    if limited {
                        ProviderPowerCapability { capability: config.provider_limited, flags: requested.flags }
                    } else if requested.capability.spec_max_power_mw()
                        < config.provider_unlimited.spec_max_power_mw() {
                        requested
                    } else {
                        ProviderPowerCapability { capability: config.provider_unlimited, flags: requested.flags }
                    },
                ),
            )
        }),
{
    law_total_with_request(devices, requester, requested, i);
    assert(forall|j: int| 0 <= j < i ==> devices[j].id != requester);
    let w = choose|w: int|
        0 <= w < devices.len() && devices[w].id == requester && forall|j: int| 0 <= j < w ==> devices[j].id != requester;
    assert(0 <= i < devices.len() && devices[i].id == requester);
    assert(find_device(devices, requester) == Some(w));
    if w != i {
        assert(devices[w].id != requester);
    }
}

impl ProviderState {
    /// Attempts to connect the requester as a provider.
    ///
    /// Fails with `InvalidDevice` when the requester is not among the devices, and does nothing
    /// (`Ok(None)`) when it no longer requests power. Otherwise the total power (the
    /// requester counted with its request, every other device with the power it currently
    /// provides) sets the power state, and the requester is granted the target power of that
    /// state, provided it is idle or already providing; in any other state this fails with
    /// `InvalidState` after the power state is updated.
    pub fn connect_provider(
        &mut self,
        config: &Config,
        devices: &[DeviceSnapshot],
        requester_id: DeviceId,
    ) -> (r: Result<Option<ProviderPowerCapability>, Error>)
        requires
            provider_power_fits(devices@, requester_id),
        ensures
            r == spec_connect_provider(*config, devices@, requester_id),
            final(self).state == match spec_connect_provider_state(*config, devices@, requester_id) {
                Some(s) => s,
                None => old(self).state,
            },
    {
        let index = match get_device_index(devices, requester_id) {
            Some(i) => i,
            None => return Err(Error::InvalidDevice),
        };
        let requested_power_capability = match devices[index].state.requested_provider_capability {
            Some(cap) => cap,
            None => return Ok(None),
        };
        let mut total_power_mw: u32 = 0;
        let mut i: usize = 0;
        proof {
            lemma_total_requested_power_monotone(devices@, requester_id, requested_power_capability);
        }
        while i < devices.len()
            invariant
                i <= devices.len(),
                total_power_mw == total_requested_power(devices@.take(i as int), requester_id, requested_power_capability),
                forall|k: int|
                    0 <= k <= devices.len() ==> #[trigger] total_requested_power(
                        devices@.take(k),
                        requester_id,
                        requested_power_capability,
                    ) <= total_requested_power(devices@, requester_id, requested_power_capability),
                total_requested_power(devices@, requester_id, requested_power_capability) <= u32::MAX,
            decreases devices.len() - i,
        {
            proof {
                assert(devices@.take(i as int + 1).drop_last() == devices@.take(i as int));
                assert(total_requested_power(devices@.take(i as int + 1), requester_id, requested_power_capability)
                    <= total_requested_power(devices@, requester_id, requested_power_capability));
            }
            let power: u32 = if devices[i].id == requester_id {
                requested_power_capability.capability.max_power_mw()
            } else {
                match devices[i].state.state {
                    State::ConnectedProvider(c) => c.capability.max_power_mw(),
                    _ => 0,
                }
            };
            total_power_mw = total_power_mw + power;
            i = i + 1;
        }
        proof {
            assert(devices@.take(devices.len() as int) == devices@);
        }
        if total_power_mw > config.limited_power_threshold_mw {
            self.state = PowerState::Limited;
        } else {
            self.state = PowerState::Unlimited;
        }
        let target_power = match self.state {
            PowerState::Limited => ProviderPowerCapability {
                capability: config.provider_limited,
                flags: requested_power_capability.flags,
            },
            PowerState::Unlimited => {
                if requested_power_capability.capability.max_power_mw()
                    < config.provider_unlimited.max_power_mw() {
                    requested_power_capability
                } else {
                    ProviderPowerCapability {
                        capability: config.provider_unlimited,
                        flags: requested_power_capability.flags,
                    }
                }
            },
        };
        match devices[index].state.state {
            State::Idle | State::ConnectedProvider(_) => Ok(Some(target_power)),
            _ => Err(Error::InvalidState),
        }
    }

    /// Attempts to connect the requester as a provider under the power policy's rules: as
    /// [`Self::connect_provider`], except that a requester that no longer requests power is
    /// refused with `CannotProvide(None)`.
    pub fn connect_requested_provider(
        &mut self,
        config: &Config,
        devices: &[DeviceSnapshot],
        requester_id: DeviceId,
    ) -> (r: Result<ProviderPowerCapability, Error>)
        requires
            provider_power_fits(devices@, requester_id),
        ensures
            r == spec_connect_requested_provider(*config, devices@, requester_id),
            final(self).state == match spec_connect_provider_state(*config, devices@, requester_id) {
                Some(s) => s,
                None => old(self).state,
            },
    {
        match self.connect_provider(config, devices, requester_id) {
            Ok(Some(target)) => Ok(target),
            Ok(None) => Err(Error::CannotProvide(None)),
            Err(e) => Err(e),
        }
    }
}

} // verus!
