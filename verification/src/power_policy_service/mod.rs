//! Power policy service: decides which device consumes power, how much power each provider
//! gets, and how each device's state moves with the events it reports.
//!
//! [`Service`] follows the service's rules: an event that the device's state does not allow is
//! refused, the device keeps its state, and processing goes on; a device that no longer requests
//! power is simply not provided for. The stricter power policy rules, where such an event resets
//! and detaches the device and such a request is refused with `CannotProvide`, are
//! [`policy::process_request`], [`policy::reset_outcome`] and
//! [`provider::ProviderState::connect_requested_provider`]. Either way the power given to
//! providers is limited by the total power provided: the request plus what the other devices
//! currently provide. The service also keeps the set of connected providers and broadcasts their
//! connection and disconnection.
pub mod consumer;
pub mod policy;
pub mod provider;
pub mod psu_event;

use vstd::prelude::*;

use crate::power::policy::device::{InternalState as DeviceState, State};
use crate::power::policy::policy::{Request, RequestData};
use crate::power::policy::{DeviceId, Error, PowerCapability, ProviderPowerCapability};
use consumer::{consumer_of, is_best_candidate, is_candidate, spec_update_consumer, AvailableConsumer, ConsumerUpdate};
use policy::{spec_service_request, FollowUp, Transition};
use provider::{
    find_device, provider_power_fits, spec_connect_provider, spec_connect_provider_state, PowerState, ProviderState,
};

verus! {

/// Power policy configuration.
#[derive(Debug, Clone, Copy, PartialEq, Eq, Structural)]
pub struct Config {
    /// Total provided power above which the system is in the limited power state, in mW
    pub limited_power_threshold_mw: u32,
    /// Power given to each provider in the limited power state
    pub provider_limited: PowerCapability,
    /// Most power given to each provider in the unlimited power state
    pub provider_unlimited: PowerCapability,
}

/// Unconstrained state information
#[derive(Debug, Clone, Copy, PartialEq, Eq, Structural)]
pub struct UnconstrainedState {
    /// Unconstrained state
    pub unconstrained: bool,
    /// Available unconstrained devices
    pub available: usize,
}

impl UnconstrainedState {
    /// Create a new unconstrained state
    pub fn new(unconstrained: bool, available: usize) -> (r: Self)
        ensures
            r.unconstrained == unconstrained,
            r.available == available,
    {
        Self { unconstrained, available }
    }
}

impl Default for UnconstrainedState {
    /// Not unconstrained, with no unconstrained device available.
    fn default() -> (r: Self)
        ensures
            !r.unconstrained,
            r.available == 0,
    {
        Self::new(false, 0)
    }
}

/// Snapshot of one registered power device, as the policy sees it.
#[derive(Debug, Clone, Copy, PartialEq, Eq, Structural)]
pub struct DeviceSnapshot {
    /// Device ID
    pub id: DeviceId,
    /// The device's power policy state
    pub state: DeviceState,
}

impl crate::power::policy::context::Identified for DeviceSnapshot {
    open spec fn spec_id(&self) -> DeviceId {
        self.id
    }

    fn id(&self) -> (r: DeviceId) {
        self.id
    }
}

/// Data of a power policy broadcast message.
#[derive(Debug, Clone, Copy, PartialEq, Eq, Structural)]
pub enum CommsData {
    /// The device that was consuming power stopped consuming
    ConsumerDisconnected(DeviceId),
    /// The device started providing power with the given capability
    ProviderConnected(DeviceId, ProviderPowerCapability),
    /// The device stopped providing power
    ProviderDisconnected(DeviceId),
}

/// Power policy broadcast message.
#[derive(Debug, Clone, Copy, PartialEq, Eq, Structural)]
pub struct CommsMessage {
    /// Message data
    pub data: CommsData,
}

/// Largest number of providers connected at once.
pub const MAX_CONNECTED_PROVIDERS: usize = 4;

/// `heapless::IndexSet`, a fixed-capacity hash set; only its contents are read, through the
/// items below.
#[verifier::external_type_specification]
#[verifier::external_body]
#[verifier::reject_recursive_types(T)]
#[verifier::reject_recursive_types(S)]
pub struct ExIndexSet<T, S, const N: usize>(heapless::IndexSet<T, S, N>);

/// `hash32::BuildHasherDefault`, the hasher builder of heapless's `FnvIndexSet`.
#[verifier::external_type_specification]
#[verifier::external_body]
#[verifier::reject_recursive_types(H)]
pub struct ExBuildHasherDefault<H>(hash32::BuildHasherDefault<H>);

/// `hash32::FnvHasher`, the hasher of heapless's `FnvIndexSet`.
#[verifier::external_type_specification]
#[verifier::external_body]
pub struct ExFnvHasher(hash32::FnvHasher);

/// The device numbers held by a set of connected providers.
pub uninterp spec fn connected_ids(set: heapless::FnvIndexSet<u8, 4>) -> Set<u8>;

/// `IndexSet::new`: an empty set.
#[verifier::external_body]
fn providers_new() -> (r: heapless::FnvIndexSet<u8, 4>)
    ensures
        connected_ids(r) == Set::<u8>::empty(),
{
    heapless::FnvIndexSet::new()
}

/// `IndexSet::insert`: `Ok(true)` when the value was added, `Ok(false)` when it was already held
/// (nothing changes), `Err` with the value when it was not held and the set is full (nothing
/// changes).
#[verifier::external_body]
fn providers_insert(set: &mut heapless::FnvIndexSet<u8, 4>, id: u8) -> (r: Result<bool, u8>)
    requires
        connected_ids(*old(set)).finite(),
        connected_ids(*old(set)).len() <= 4,
    ensures
        connected_ids(*final(set)).finite(),
        connected_ids(*final(set)).len() <= 4,
        connected_ids(*old(set)).contains(id) ==> r matches Ok(false),
        !connected_ids(*old(set)).contains(id) && connected_ids(*old(set)).len() < 4 ==> r matches Ok(true),
        r matches Ok(true) ==> connected_ids(*final(set)) == connected_ids(*old(set)).insert(id),
        !(r matches Ok(true)) ==> connected_ids(*final(set)) == connected_ids(*old(set)),
        r matches Err(v) ==> v == id && !connected_ids(*old(set)).contains(id) && connected_ids(*old(set)).len() == 4,
{
    set.insert(id)
}

/// `IndexSet::remove`: removes the value and tells whether it was held.
#[verifier::external_body]
fn providers_remove(set: &mut heapless::FnvIndexSet<u8, 4>, id: u8) -> (r: bool)
    requires
        connected_ids(*old(set)).finite(),
    ensures
        r == connected_ids(*old(set)).contains(id),
        connected_ids(*final(set)) == connected_ids(*old(set)).remove(id),
        connected_ids(*final(set)).finite(),
{
    set.remove(&id)
}

/// Power that a device is currently providing, 0 unless it is a connected provider.
pub open spec fn connected_provider_power(d: DeviceSnapshot) -> int {
    match d.state.state {
        State::ConnectedProvider(c) => c.capability.spec_max_power_mw(),
        _ => 0,
    }
}

/// Total power that the devices are providing to external devices.
pub open spec fn total_provider_power(devices: Seq<DeviceSnapshot>) -> int
    decreases devices.len(),
{
    if devices.len() == 0 {
        0
    } else {
        total_provider_power(devices.drop_last()) + connected_provider_power(devices.last())
    }
}

/// Returns the total amount of power that is being supplied to external devices.
pub fn compute_total_provider_power_mw(devices: &[DeviceSnapshot]) -> (r: u32)
    requires
        total_provider_power(devices@) <= u32::MAX,
    ensures
        r == total_provider_power(devices@),
{
    let mut total: u32 = 0;
    let mut i: usize = 0;
    proof {
        lemma_total_provider_power_monotone(devices@);
    }
    while i < devices.len()
        invariant
            i <= devices.len(),
            total == total_provider_power(devices@.take(i as int)),
            forall|k: int| 0 <= k <= devices.len() ==> #[trigger] total_provider_power(devices@.take(k))
                <= total_provider_power(devices@),
            total_provider_power(devices@) <= u32::MAX,
        decreases devices.len() - i,
    {
        proof {
            assert(devices@.take(i as int + 1).drop_last() == devices@.take(i as int));
            assert(total_provider_power(devices@.take(i as int + 1)) <= total_provider_power(devices@));
        }
        let power: u32 = match devices[i].state.state {
            State::ConnectedProvider(c) => c.capability.max_power_mw(),
            _ => 0,
        };
        total = total + power;
        i = i + 1;
    }
    proof {
        assert(devices@.take(devices.len() as int) == devices@);
    }
    total
}

/// Every prefix of the devices provides at most the power of all of them.
pub proof fn lemma_total_provider_power_monotone(devices: Seq<DeviceSnapshot>)
    ensures
        forall|k: int| 0 <= k <= devices.len() ==> #[trigger] total_provider_power(devices.take(k))
            <= total_provider_power(devices),
    decreases devices.len(),
{
    if devices.len() > 0 {
        lemma_total_provider_power_monotone(devices.drop_last());
        assert forall|k: int| 0 <= k <= devices.len() implies #[trigger] total_provider_power(devices.take(k))
            <= total_provider_power(devices) by {
            if k < devices.len() {
                assert(devices.drop_last().take(k) == devices.take(k));
            } else {
                assert(devices.take(k) == devices);
            }
        }
    }
}

/// The total provided power is the sum of what the connected providers provide: no devices
/// provide nothing, a device added in state `ConnectedProvider(c)` adds the max power of `c`,
/// and a device added in any other state adds nothing, whatever it requests.
pub proof fn law_total_provider_power_sums_connected(devices: Seq<DeviceSnapshot>, d: DeviceSnapshot)
    ensures
        total_provider_power(Seq::<DeviceSnapshot>::empty()) == 0,
        total_provider_power(devices.push(d)) == total_provider_power(devices) + match d.state.state {
            State::ConnectedProvider(c) => c.capability.spec_max_power_mw(),
            _ => 0,
        },
        !(d.state.state is ConnectedProvider) ==> total_provider_power(devices.push(d)) == total_provider_power(
            devices,
        ),
{
    assert(devices.push(d).drop_last() =~= devices);
}

/// Where no device is a connected provider, no power is provided, whatever the devices request.
pub proof fn law_no_connected_provider_no_power(devices: Seq<DeviceSnapshot>)
    requires
        forall|j: int| 0 <= j < devices.len() ==> !(#[trigger] devices[j].state.state is ConnectedProvider),
    ensures
        total_provider_power(devices) == 0,
    decreases devices.len(),
{
    if devices.len() > 0 {
        let rest = devices.drop_last();
        assert forall|j: int| 0 <= j < rest.len() implies !(#[trigger] rest[j].state.state is ConnectedProvider) by {
            assert(rest[j] == devices[j]);
        }
        law_no_connected_provider_no_power(rest);
        assert(!(devices[devices.len() - 1].state.state is ConnectedProvider));
    }
}

/// Replacing one device changes the total provided power by what the new snapshot provides
/// less what the old one provided.
pub proof fn law_total_provider_power_update(devices: Seq<DeviceSnapshot>, i: int, d: DeviceSnapshot)
    requires
        0 <= i < devices.len(),
    ensures
        total_provider_power(devices.update(i, d)) == total_provider_power(devices) - connected_provider_power(
            devices[i],
        ) + connected_provider_power(d),
    decreases devices.len(),
{
    let after = devices.update(i, d);
    if i == devices.len() - 1 {
        assert(after.drop_last() =~= devices.drop_last());
    } else {
        law_total_provider_power_update(devices.drop_last(), i, d);
        assert(after.drop_last() =~= devices.drop_last().update(i, d));
    }
}

/// A disconnect of a registered device that is consuming or providing, under the service's
/// rules, leaves it idle, and the total provided power loses exactly what it provided: nothing
/// for a consumer, the max power of `c` for a provider in state `ConnectedProvider(c)`.
pub proof fn law_disconnect_releases_power(devices: Seq<DeviceSnapshot>, i: int, is_current_consumer: bool)
    requires
        0 <= i < devices.len(),
        devices[i].state.state is ConnectedConsumer || devices[i].state.state is ConnectedProvider,
    ensures
        ({
            let after = devices.update(
                i,
                DeviceSnapshot {
                    id: devices[i].id,
                    state: spec_service_request(devices[i].state, RequestData::Disconnected, is_current_consumer).state,
                },
            );
            &&& after[i].state.state == State::Idle
            &&& total_provider_power(after) == total_provider_power(devices) - match devices[i].state.state {
                State::ConnectedProvider(c) => c.capability.spec_max_power_mw(),
                _ => 0,
            }
        }),
{
    let d = DeviceSnapshot {
        id: devices[i].id,
        state: spec_service_request(devices[i].state, RequestData::Disconnected, is_current_consumer).state,
    };
    law_total_provider_power_update(devices, i, d);
}

/// Power policy service state.
pub struct InternalState {
    /// Current consumer state, if any
    pub current_consumer_state: Option<AvailableConsumer>,
    /// Current provider global state
    pub current_provider_state: ProviderState,
    /// System unconstrained power
    pub unconstrained: UnconstrainedState,
    /// Connected providers, by device number, at most [`MAX_CONNECTED_PROVIDERS`] of them
    pub connected_providers: heapless::FnvIndexSet<u8, 4>,
}

impl InternalState {
    /// Well-formed: the connected providers fit their capacity.
    pub open spec fn wf(&self) -> bool {
        &&& connected_ids(self.connected_providers).finite()
        &&& connected_ids(self.connected_providers).len() <= MAX_CONNECTED_PROVIDERS
    }
}

impl Default for InternalState {
    /// No consumer, no provider, unlimited power, not unconstrained.
    fn default() -> (r: Self)
        ensures
            r.wf(),
            r.current_consumer_state is None,
            r.current_provider_state.state == PowerState::Unlimited,
            r.unconstrained == (UnconstrainedState { unconstrained: false, available: 0 }),
            connected_ids(r.connected_providers) == Set::<u8>::empty(),
    {
        InternalState {
            current_consumer_state: None,
            current_provider_state: ProviderState { state: PowerState::Unlimited },
            unconstrained: UnconstrainedState::new(false, 0),
            connected_providers: providers_new(),
        }
    }
}

/// Power policy service.
pub struct Service {
    /// State
    pub state: InternalState,
    /// Config
    pub config: Config,
}

/// What the service carries out first after a PSU event has moved the device's state.
#[derive(Debug, Clone, Copy, PartialEq, Eq, Structural)]
pub struct EventPlan {
    /// The current consumer stopped consuming: the chargers are disconnected and this is broadcast
    pub consumer_lost: Option<CommsMessage>,
    /// The device disconnected: it is forgotten as a provider, once the chargers are disconnected
    pub forget_provider: bool,
    /// What follows: the consumer is re-evaluated or a provider connection is attempted
    pub follow_up: FollowUp,
}

/// What completing a PSU event gave.
#[derive(Debug, Clone, Copy, PartialEq, Eq)]
pub struct EventOutcome {
    /// The device stopped providing: this is broadcast
    pub provider_removed: Option<CommsMessage>,
    /// The switch to the best consumer, when the consumer was re-evaluated
    pub consumer_update: Option<ConsumerUpdate>,
    /// The outcome of the provider connection attempt, when one was made; `Ok(None)` when the
    /// device no longer requests power
    pub provider_grant: Option<Result<Option<ProviderPowerCapability>, Error>>,
}

/// Whether completing an event with this plan can sum the power it asks for: a provider
/// connection attempt sums the power of every device, and that sum must fit a `u32`.
pub open spec fn plan_fits(devices: Seq<DeviceSnapshot>, id: DeviceId, plan: EventPlan) -> bool {
    plan.follow_up == FollowUp::ConnectProvider ==> provider_power_fits(devices, id)
}

/// Tells whether [`Service::complete_psu_event`] can complete an event with this plan over
/// `devices`: whether the power it would sum fits a `u32`.
pub fn event_fits(devices: &[DeviceSnapshot], id: DeviceId, plan: EventPlan) -> (r: bool)
    ensures
        r == plan_fits(devices@, id, plan),
{
    match plan.follow_up {
        FollowUp::ConnectProvider => provider::requested_power_fits(devices, id),
        _ => true,
    }
}

/// The current consumer's device, if any.
pub open spec fn is_current_consumer(current: Option<AvailableConsumer>, id: DeviceId) -> bool {
    match current {
        Some(c) => c.device_id == id,
        None => false,
    }
}

impl Service {
    /// Creates a new power policy with no consumer, no provider and unlimited power.
    pub fn new(config: Config) -> (r: Self)
        ensures
            r.config == config,
            r.state.wf(),
            r.state.current_consumer_state is None,
            r.state.current_provider_state.state == PowerState::Unlimited,
            r.state.unconstrained == (UnconstrainedState { unconstrained: false, available: 0 }),
            connected_ids(r.state.connected_providers) == Set::<u8>::empty(),
    {
        Service { state: InternalState::default(), config }
    }

    /// Common logic for when a provider is disconnected: forgets it, and returns the message to
    /// broadcast when it was operating as a provider.
    pub fn remove_connected_provider(&mut self, device_id: DeviceId) -> (r: Option<CommsMessage>)
        requires
            old(self).state.wf(),
        ensures
            final(self).state.wf(),
            r is Some <==> connected_ids(old(self).state.connected_providers).contains(device_id.0),
            r matches Some(m) ==> m == (CommsMessage { data: CommsData::ProviderDisconnected(device_id) }),
            connected_ids(final(self).state.connected_providers) == connected_ids(
                old(self).state.connected_providers,
            ).remove(device_id.0),
            final(self).state.current_consumer_state == old(self).state.current_consumer_state,
            final(self).state.current_provider_state == old(self).state.current_provider_state,
            final(self).state.unconstrained == old(self).state.unconstrained,
            final(self).config == old(self).config,
    {
        proof {
            vstd::set_lib::lemma_len_subset(
                connected_ids(self.state.connected_providers).remove(device_id.0),
                connected_ids(self.state.connected_providers),
            );
        }
        if providers_remove(&mut self.state.connected_providers, device_id.0) {
            Some(CommsMessage { data: CommsData::ProviderDisconnected(device_id) })
        } else {
            None
        }
    }

    /// Common logic for after a provider has successfully connected: records it (when there is
    /// room) and returns the message to broadcast.
    pub fn post_provider_connected(&mut self, provider_id: DeviceId, target_power: ProviderPowerCapability) -> (r:
        CommsMessage)
        requires
            old(self).state.wf(),
        ensures
            final(self).state.wf(),
            r == (CommsMessage { data: CommsData::ProviderConnected(provider_id, target_power) }),
            connected_ids(old(self).state.connected_providers).len() < MAX_CONNECTED_PROVIDERS
                || connected_ids(old(self).state.connected_providers).contains(provider_id.0) ==> connected_ids(
                final(self).state.connected_providers,
            ) == connected_ids(old(self).state.connected_providers).insert(provider_id.0),
            connected_ids(final(self).state.connected_providers) == connected_ids(old(self).state.connected_providers)
                || connected_ids(final(self).state.connected_providers) == connected_ids(
                old(self).state.connected_providers,
            ).insert(provider_id.0),
            final(self).state.current_consumer_state == old(self).state.current_consumer_state,
            final(self).state.current_provider_state == old(self).state.current_provider_state,
            final(self).state.unconstrained == old(self).state.unconstrained,
            final(self).config == old(self).config,
    {
        let _ = providers_insert(&mut self.state.connected_providers, provider_id.0);
        proof {
            let s = connected_ids(old(self).state.connected_providers);
            if s.contains(provider_id.0) {
                assert(s.insert(provider_id.0) == s);
            }
        }
        CommsMessage { data: CommsData::ProviderConnected(provider_id, target_power) }
    }

    /// Processes an event reported by a PSU, under the service's rules.
    ///
    /// Fails with `InvalidDevice` when the device is not registered, changing nothing. Otherwise
    /// the device's state moves as [`spec_service_request`] says, and the plan tells what comes
    /// next: the chargers are disconnected when the current consumer was lost, then
    /// [`Self::complete_psu_event`] does the rest. The service's own state does not change here.
    pub fn process_psu_event(&self, devices: &mut Vec<DeviceSnapshot>, request: Request) -> (r: Result<
        EventPlan,
        Error,
    >)
        ensures
            find_device(old(devices)@, request.id) is None ==> r == Err::<EventPlan, Error>(Error::InvalidDevice)
                && final(devices)@ == old(devices)@,
            find_device(old(devices)@, request.id) matches Some(i) ==> {
                let t = spec_service_request(
                    old(devices)@[i].state,
                    request.data,
                    is_current_consumer(self.state.current_consumer_state, request.id),
                );
                &&& final(devices)@ == old(devices)@.update(i, DeviceSnapshot { id: request.id, state: t.state })
                &&& r == Ok::<EventPlan, Error>(
                    EventPlan {
                        consumer_lost: if t.consumer_lost {
                            Some(CommsMessage { data: CommsData::ConsumerDisconnected(request.id) })
                        } else {
                            None
                        },
                        forget_provider: request.data is Disconnected,
                        follow_up: t.follow_up,
                    },
                )
            },
    {
        let index = match provider::get_device_index(devices.as_slice(), request.id) {
            Some(i) => i,
            None => return Err(Error::InvalidDevice),
        };
        let is_current = match self.state.current_consumer_state {
            Some(c) => c.device_id == request.id,
            None => false,
        };
        let t: Transition = policy::process_service_request(devices[index].state, request.data, is_current);
        devices.set(index, DeviceSnapshot { id: request.id, state: t.state });
        let consumer_lost = if t.consumer_lost {
            Some(CommsMessage { data: CommsData::ConsumerDisconnected(request.id) })
        } else {
            None
        };
        let forget_provider = match request.data {
            crate::power::policy::policy::RequestData::Disconnected => true,
            _ => false,
        };
        Ok(EventPlan { consumer_lost, forget_provider, follow_up: t.follow_up })
    }

    /// Completes a PSU event of device `id` after its plan's first steps: forgets the device as
    /// a provider when the plan says so, then re-evaluates the current consumer or attempts a
    /// provider connection, as the plan asks.
    pub fn complete_psu_event(&mut self, devices: &[DeviceSnapshot], id: DeviceId, plan: EventPlan) -> (r:
        EventOutcome)
        requires
            old(self).state.wf(),
            plan_fits(devices@, id, plan),
        ensures
            final(self).state.wf(),
            final(self).config == old(self).config,
            final(self).state.unconstrained == old(self).state.unconstrained,
            plan.forget_provider ==> {
                &&& (r.provider_removed is Some <==> connected_ids(old(self).state.connected_providers).contains(id.0))
                &&& r.provider_removed matches Some(m) ==> m == (CommsMessage {
                    data: CommsData::ProviderDisconnected(id),
                })
                &&& connected_ids(final(self).state.connected_providers) == connected_ids(
                    old(self).state.connected_providers,
                ).remove(id.0)
            },
            !plan.forget_provider ==> r.provider_removed is None && connected_ids(final(self).state.connected_providers)
                == connected_ids(old(self).state.connected_providers),
            plan.follow_up == FollowUp::UpdateCurrentConsumer ==> {
                &&& (final(self).state.current_consumer_state is None <==> forall|j: int|
                    0 <= j < devices.len() ==> !is_candidate(#[trigger] devices@[j]))
                &&& (final(self).state.current_consumer_state matches Some(c) ==> exists|k: int|
                    is_best_candidate(devices@, k) && c == consumer_of(#[trigger] devices@[k]))
                &&& r.consumer_update == Some(
                    spec_update_consumer(
                        old(self).state.current_consumer_state,
                        final(self).state.current_consumer_state,
                        devices@,
                    ),
                )
                &&& r.provider_grant is None
                &&& final(self).state.current_provider_state == old(self).state.current_provider_state
            },
            plan.follow_up == FollowUp::ConnectProvider ==> {
                &&& r.provider_grant == Some(spec_connect_provider(old(self).config, devices@, id))
                &&& final(self).state.current_provider_state.state == match spec_connect_provider_state(
                    old(self).config,
                    devices@,
                    id,
                ) {
                    Some(s) => s,
                    None => old(self).state.current_provider_state.state,
                }
                &&& r.consumer_update is None
                &&& final(self).state.current_consumer_state == old(self).state.current_consumer_state
            },
            plan.follow_up == FollowUp::Nothing ==> {
                &&& r.consumer_update is None
                &&& r.provider_grant is None
                &&& final(self).state.current_consumer_state == old(self).state.current_consumer_state
                &&& final(self).state.current_provider_state == old(self).state.current_provider_state
            },
    {
        let provider_removed = if plan.forget_provider {
            self.remove_connected_provider(id)
        } else {
            None
        };
        let mut outcome = EventOutcome { provider_removed, consumer_update: None, provider_grant: None };
        match plan.follow_up {
            FollowUp::UpdateCurrentConsumer => {
                let (best, update) = consumer::update_current_consumer(self.state.current_consumer_state, devices);
                self.state.current_consumer_state = best;
                outcome.consumer_update = Some(update);
            },
            FollowUp::ConnectProvider => {
                let grant = self.state.current_provider_state.connect_provider(&self.config, devices, id);
                outcome.provider_grant = Some(grant);
            },
            FollowUp::Nothing => {},
        }
        outcome
    }
}

/// Default policy hooks: the best consumer is the one offering the most power.
#[derive(Debug, Clone, Copy, Default)]
pub struct DefaultHooks;

/// Init power policy service; the service keeps no global state, so there is nothing to do.
pub fn init() {
}

} // verus!
