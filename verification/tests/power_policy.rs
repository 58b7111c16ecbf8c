use embedded_services::power::policy::{device, policy};
use embedded_services::power_policy_service::psu_event;
use embedded_services::power::policy::device::{InternalState, State, StateKind};
use embedded_services::power::policy::policy::{Request, RequestData};
use embedded_services::power::policy::{
    ConsumerFlags, ConsumerPowerCapability, DeviceId, Error, PowerCapability, ProviderFlags,
    ProviderPowerCapability,
};
use embedded_services::power_policy_service::consumer::{find_best_consumer, AvailableConsumer};
use embedded_services::power_policy_service::policy::{
    after_connect_consumer, after_connect_provider, after_disconnect, process_request, reset_outcome, FollowUp,
};
use embedded_services::power_policy_service::provider::{requested_power_fits, PowerState, ProviderState};
use embedded_services::power_policy_service::{
    compute_total_provider_power_mw, event_fits, CommsData, CommsMessage, Config, DeviceSnapshot, EventOutcome, EventPlan,
    Service,
    UnconstrainedState,
};

const LOW_POWER: PowerCapability = PowerCapability { voltage_mv: 5000, current_ma: 1500 };
const HIGH_POWER: PowerCapability = PowerCapability { voltage_mv: 5000, current_ma: 3000 };

fn consumer(cap: PowerCapability) -> ConsumerPowerCapability {
    ConsumerPowerCapability { capability: cap, flags: ConsumerFlags::none() }
}

fn provider(cap: PowerCapability) -> ProviderPowerCapability {
    ProviderPowerCapability { capability: cap, flags: ProviderFlags::none() }
}

fn config() -> Config {
    Config {
        limited_power_threshold_mw: 20000,
        provider_limited: LOW_POWER,
        provider_unlimited: HIGH_POWER,
    }
}

fn devices(n: u8) -> Vec<DeviceSnapshot> {
    (0..n).map(|i| DeviceSnapshot { id: DeviceId(i), state: InternalState::new() }).collect()
}

fn event(service: &mut Service, devices: &mut Vec<DeviceSnapshot>, id: u8, data: RequestData) -> EventOutcome {
    let plan = service.process_psu_event(devices, Request { id: DeviceId(id), data }).unwrap();
    service.complete_psu_event(devices, DeviceId(id), plan)
}

#[test]
fn max_power_formula() {
    assert_eq!(LOW_POWER.max_power_mw(), 7500);
    assert_eq!(HIGH_POWER.max_power_mw(), 15000);
    assert_eq!(PowerCapability { voltage_mv: 3300, current_ma: 333 }.max_power_mw(), 1098);
    assert_eq!(PowerCapability { voltage_mv: u16::MAX, current_ma: u16::MAX }.max_power_mw(), 4294836);
}

#[test]
fn state_kind() {
    assert_eq!(State::Idle.kind(), StateKind::Idle);
    assert_eq!(State::Detached.kind(), StateKind::Detached);
    assert_eq!(State::ConnectedConsumer(consumer(LOW_POWER)).kind(), StateKind::ConnectedConsumer);
    assert_eq!(State::ConnectedProvider(provider(LOW_POWER)).kind(), StateKind::ConnectedProvider);
}

#[test]
fn single_consumer_connect_and_detach() {
    let mut service = Service::new(config());
    let mut devs = devices(2);
    let plan = event(&mut service, &mut devs, 0, RequestData::Attached);
    assert_eq!(devs[0].state.state, State::Idle);
    let plan = event(&mut service, &mut devs, 0, RequestData::UpdatedConsumerCapability(Some(consumer(LOW_POWER))));
    let update = plan.consumer_update.unwrap();
    let expected = AvailableConsumer { device_id: DeviceId(0), consumer_power_capability: consumer(LOW_POWER) };
    assert_eq!(update.connect, Some(expected));
    assert_eq!(update.disconnect, None);
    assert_eq!(service.state.current_consumer_state, Some(expected));

    let plan = event(&mut service, &mut devs, 0, RequestData::Detached);
    let update = plan.consumer_update.unwrap();
    // The detached device is not called.
    assert_eq!(update.disconnect, None);
    assert_eq!(update.connect, None);
    assert_eq!(service.state.current_consumer_state, None);
    assert_eq!(devs[0].state, InternalState::new());
}

#[test]
fn swap_to_higher_consumer_and_back() {
    let mut service = Service::new(config());
    let mut devs = devices(2);
    event(&mut service, &mut devs, 0, RequestData::Attached);
    event(&mut service, &mut devs, 0, RequestData::UpdatedConsumerCapability(Some(consumer(LOW_POWER))));
    event(&mut service, &mut devs, 1, RequestData::Attached);
    let plan = event(&mut service, &mut devs, 1, RequestData::UpdatedConsumerCapability(Some(consumer(HIGH_POWER))));
    let update = plan.consumer_update.unwrap();
    assert_eq!(update.disconnect, Some(DeviceId(0)));
    assert_eq!(
        update.connect,
        Some(AvailableConsumer { device_id: DeviceId(1), consumer_power_capability: consumer(HIGH_POWER) })
    );
    let plan = event(&mut service, &mut devs, 1, RequestData::Detached);
    let update = plan.consumer_update.unwrap();
    assert_eq!(update.disconnect, None);
    assert_eq!(
        update.connect,
        Some(AvailableConsumer { device_id: DeviceId(0), consumer_power_capability: consumer(LOW_POWER) })
    );
}

#[test]
fn best_consumer_prefers_first_of_equal_power() {
    let mut devs = devices(3);
    for d in devs.iter_mut() {
        d.state.state = State::Idle;
        d.state.consumer_capability = Some(consumer(LOW_POWER));
    }
    devs[0].state.state = State::Detached;
    assert_eq!(find_best_consumer(&devs).unwrap().device_id, DeviceId(1));
    devs[2].state.consumer_capability = Some(consumer(HIGH_POWER));
    assert_eq!(find_best_consumer(&devs).unwrap().device_id, DeviceId(2));
    assert_eq!(find_best_consumer(&devices(2)), None);
}

#[test]
fn invalid_events_reset_device() {
    let s = InternalState::new();
    let t = process_request(s, RequestData::Disconnected, false);
    assert!(t.reset_device);
    assert_eq!(t.state.state, State::Detached);
    let mut idle = s;
    idle.state = State::Idle;
    let t = process_request(idle, RequestData::Attached, false);
    assert!(t.reset_device);
    assert_eq!(t.follow_up, FollowUp::Nothing);
    let mut providing = idle;
    providing.state = State::ConnectedProvider(provider(LOW_POWER));
    let t = process_request(providing, RequestData::UpdatedConsumerCapability(None), false);
    assert!(t.reset_device);
    let t = process_request(providing, RequestData::Disconnected, true);
    assert!(!t.reset_device);
    assert!(t.consumer_lost);
    assert_eq!(t.state.state, State::Idle);
}

#[test]
fn provider_power_limited_and_unlimited() {
    let mut service = Service::new(config());
    let mut devs = devices(2);
    event(&mut service, &mut devs, 0, RequestData::Attached);
    let plan = event(&mut service, &mut devs, 0, RequestData::RequestedProviderCapability(Some(provider(HIGH_POWER))));
    assert_eq!(plan.provider_grant, Some(Ok(Some(provider(HIGH_POWER)))));
    assert_eq!(service.state.current_provider_state.state, PowerState::Unlimited);
    let msg = service.post_provider_connected(DeviceId(0), provider(HIGH_POWER));
    devs[0].state = after_connect_provider(devs[0].state, provider(HIGH_POWER));
    assert_eq!(msg, CommsMessage { data: CommsData::ProviderConnected(DeviceId(0), provider(HIGH_POWER)) });

    event(&mut service, &mut devs, 1, RequestData::Attached);
    let medium = PowerCapability { voltage_mv: 5000, current_ma: 1800 };
    let plan = event(&mut service, &mut devs, 1, RequestData::RequestedProviderCapability(Some(provider(medium))));
    // 15000 mW provided by device 0 and the 9000 mW request exceed the 20000 mW threshold.
    assert_eq!(plan.provider_grant, Some(Ok(Some(provider(LOW_POWER)))));
    assert_eq!(service.state.current_provider_state.state, PowerState::Limited);

    // A small request in the unlimited state is not upgraded.
    let mut small_service = Service::new(config());
    let mut one = devices(1);
    event(&mut small_service, &mut one, 0, RequestData::Attached);
    let plan = event(&mut small_service, &mut one, 0, RequestData::RequestedProviderCapability(Some(provider(LOW_POWER))));
    assert_eq!(plan.provider_grant, Some(Ok(Some(provider(LOW_POWER)))));

    // Disconnecting the provider forgets it.
    let plan = event(&mut service, &mut devs, 0, RequestData::Disconnected);
    assert_eq!(plan.provider_removed, Some(CommsMessage { data: CommsData::ProviderDisconnected(DeviceId(0)) }));
    assert_eq!(service.remove_connected_provider(DeviceId(0)), None);
}

#[test]
fn provider_request_errors() {
    let mut state = ProviderState { state: PowerState::Unlimited };
    let devs = devices(1);
    assert_eq!(state.connect_provider(&config(), &devs, DeviceId(7)), Err(Error::InvalidDevice));
    assert_eq!(state.connect_provider(&config(), &devs, DeviceId(0)), Ok(None));
    let mut detached = devices(1);
    detached[0].state.requested_provider_capability = Some(provider(LOW_POWER));
    assert_eq!(state.connect_provider(&config(), &detached, DeviceId(0)), Err(Error::InvalidState));

    let mut service = Service::new(config());
    let mut devs = devices(1);
    assert_eq!(
        service.process_psu_event(&mut devs, Request { id: DeviceId(3), data: RequestData::Attached }),
        Err(Error::InvalidDevice)
    );
}

#[test]
fn total_provider_power() {
    let mut devs = devices(3);
    devs[0].state.state = State::ConnectedProvider(provider(LOW_POWER));
    devs[2].state.state = State::ConnectedProvider(provider(HIGH_POWER));
    devs[1].state.state = State::ConnectedConsumer(consumer(HIGH_POWER));
    assert_eq!(compute_total_provider_power_mw(&devs), 22500);
    assert_eq!(compute_total_provider_power_mw(&[]), 0);
}

#[test]
fn unconstrained_state_new() {
    let s = UnconstrainedState::new(true, 2);
    assert!(s.unconstrained);
    assert_eq!(s.available, 2);
}

#[test]
fn default_states() {
    assert_eq!(UnconstrainedState::default(), UnconstrainedState::new(false, 0));
    assert_eq!(ProviderState::default().state, PowerState::Unlimited);
    assert_eq!(PowerState::default(), PowerState::Unlimited);
    let service = Service::new(config());
    assert_eq!(service.state.current_consumer_state, None);
    assert_eq!(service.state.current_provider_state.state, PowerState::Unlimited);
}

#[test]
fn complete_or_err_is_ok() {
    assert!(device::ResponseData::Complete.complete_or_err().is_ok());
    assert!(policy::ResponseData::Complete.complete_or_err().is_ok());
    assert!(psu_event::ResponseData::Complete.complete_or_err().is_ok());
}

/// A call the service makes on a device.
#[derive(Debug, Clone, Copy, PartialEq, Eq)]
enum FnCall {
    ConnectConsumer(ConsumerPowerCapability),
    Disconnect,
}

/// The calls an event's plan makes on the given device.
fn calls_on(plan: &EventOutcome, id: u8) -> Vec<FnCall> {
    let mut calls = Vec::new();
    if let Some(update) = plan.consumer_update {
        if update.disconnect == Some(DeviceId(id)) {
            calls.push(FnCall::Disconnect);
        }
        if let Some(c) = update.connect {
            if c.device_id == DeviceId(id) {
                calls.push(FnCall::ConnectConsumer(c.consumer_power_capability));
            }
        }
    }
    calls
}

/// A device attaches and reports the power it can consume.
fn simulate_consumer_connection(
    service: &mut Service,
    devs: &mut Vec<DeviceSnapshot>,
    id: u8,
    cap: PowerCapability,
) -> Vec<(u8, Vec<FnCall>)> {
    let mut all = Vec::new();
    for data in [RequestData::Attached, RequestData::UpdatedConsumerCapability(Some(consumer(cap)))] {
        let plan = event(service, devs, id, data);
        for d in 0..devs.len() as u8 {
            all.push((d, calls_on(&plan, d)));
        }
    }
    all
}

fn calls_for(all: &[(u8, Vec<FnCall>)], id: u8) -> Vec<FnCall> {
    all.iter().filter(|(d, _)| *d == id).flat_map(|(_, c)| c.clone()).collect()
}

#[test]
fn run_all_tests() {
    let mut service = Service::new(config());
    let mut devs = devices(2);

    // a single device: connects as consumer, then detaches with no call on it
    let all = simulate_consumer_connection(&mut service, &mut devs, 0, LOW_POWER);
    assert_eq!(calls_for(&all, 0), vec![FnCall::ConnectConsumer(consumer(LOW_POWER))]);
    let plan = event(&mut service, &mut devs, 0, RequestData::Detached);
    assert_eq!(calls_on(&plan, 0), vec![]);

    // swapping to a higher powered device, and back when it detaches
    let all = simulate_consumer_connection(&mut service, &mut devs, 0, LOW_POWER);
    assert_eq!(calls_for(&all, 0), vec![FnCall::ConnectConsumer(consumer(LOW_POWER))]);
    let all = simulate_consumer_connection(&mut service, &mut devs, 1, HIGH_POWER);
    assert_eq!(calls_for(&all, 0), vec![FnCall::Disconnect]);
    assert_eq!(calls_for(&all, 1), vec![FnCall::ConnectConsumer(consumer(HIGH_POWER))]);
    let plan = event(&mut service, &mut devs, 1, RequestData::Detached);
    assert_eq!(calls_on(&plan, 1), vec![]);
    assert_eq!(calls_on(&plan, 0), vec![FnCall::ConnectConsumer(consumer(LOW_POWER))]);
}

const MAX_POWER: PowerCapability = PowerCapability { voltage_mv: u16::MAX, current_ma: u16::MAX };

fn requesting_devices(n: usize) -> Vec<DeviceSnapshot> {
    (0..n)
        .map(|i| {
            let mut state = InternalState::new();
            state.state = State::ConnectedProvider(provider(MAX_POWER));
            state.requested_provider_capability = Some(provider(MAX_POWER));
            DeviceSnapshot { id: DeviceId((i % 256) as u8), state }
        })
        .collect()
}

#[test]
fn requested_power_fits_a_u32_up_to_a_thousand_maximal_requests() {
    // 4294836 mW provided or requested by each: 1000 of them fit a u32, 1001 do not
    assert!(requested_power_fits(&requesting_devices(1000), DeviceId(0)));
    assert!(!requested_power_fits(&requesting_devices(1001), DeviceId(0)));
    // nothing is summed for an unknown device or one that requests nothing
    assert!(requested_power_fits(&devices(3), DeviceId(1)));
    assert!(requested_power_fits(&devices(3), DeviceId(9)));
}

#[test]
fn event_fits_only_checks_provider_requests() {
    let devs = requesting_devices(1001);
    let plan = |follow_up| EventPlan { consumer_lost: None, forget_provider: false, follow_up };
    assert!(!event_fits(&devs, DeviceId(0), plan(FollowUp::ConnectProvider)));
    assert!(event_fits(&devs, DeviceId(0), plan(FollowUp::UpdateCurrentConsumer)));
    assert!(event_fits(&devs, DeviceId(0), plan(FollowUp::Nothing)));
    assert!(event_fits(&requesting_devices(2), DeviceId(0), plan(FollowUp::ConnectProvider)));
}

#[test]
fn service_refusals_keep_the_state_and_go_on() {
    let mut service = Service::new(config());
    let mut devs = devices(2);
    // a consumer capability from a detached device is refused but the consumer is re-evaluated
    let plan = service
        .process_psu_event(&mut devs, Request { id: DeviceId(0), data: RequestData::UpdatedConsumerCapability(Some(consumer(LOW_POWER))) })
        .unwrap();
    assert_eq!(plan.follow_up, FollowUp::UpdateCurrentConsumer);
    assert_eq!(devs[0].state, InternalState::new());
    // an attach of an attached device changes nothing and succeeds
    event(&mut service, &mut devs, 0, RequestData::Attached);
    let before = devs[0].state;
    let plan = service.process_psu_event(&mut devs, Request { id: DeviceId(0), data: RequestData::Attached }).unwrap();
    assert_eq!(plan, EventPlan { consumer_lost: None, forget_provider: false, follow_up: FollowUp::Nothing });
    assert_eq!(devs[0].state, before);
    // a disconnect of an idle device is refused but still processed on
    let plan = service.process_psu_event(&mut devs, Request { id: DeviceId(0), data: RequestData::Disconnected }).unwrap();
    assert!(plan.forget_provider);
    assert_eq!(plan.follow_up, FollowUp::UpdateCurrentConsumer);
    assert_eq!(devs[0].state, before);
}

#[test]
fn a_device_that_no_longer_requests_power_gets_nothing() {
    let mut service = Service::new(config());
    let mut devs = devices(1);
    event(&mut service, &mut devs, 0, RequestData::Attached);
    let outcome = event(&mut service, &mut devs, 0, RequestData::RequestedProviderCapability(None));
    assert_eq!(outcome.provider_grant, Some(Ok(None)));
    assert_eq!(service.state.current_provider_state.state, PowerState::Unlimited);
    let mut state = ProviderState::default();
    assert_eq!(state.connect_requested_provider(&config(), &devs, DeviceId(0)), Err(Error::CannotProvide(None)));
}

#[test]
fn other_devices_count_by_the_power_they_provide() {
    // a 25000 mW threshold; device 1 provides 7500 mW while still asking for 15000 mW
    let cfg = Config { limited_power_threshold_mw: 25000, provider_limited: LOW_POWER, provider_unlimited: HIGH_POWER };
    let mut devs = devices(2);
    devs[0].state.state = State::Idle;
    devs[0].state.requested_provider_capability = Some(provider(HIGH_POWER));
    devs[1].state.state = State::ConnectedProvider(provider(LOW_POWER));
    devs[1].state.requested_provider_capability = Some(provider(HIGH_POWER));
    let mut state = ProviderState::default();
    // 15000 + 7500 mW stay under the threshold: the full request is granted
    assert_eq!(state.connect_provider(&cfg, &devs, DeviceId(0)), Ok(Some(provider(HIGH_POWER))));
    assert_eq!(state.state, PowerState::Unlimited);
    // a device that is not providing counts for nothing, whatever it requests
    devs[1].state.state = State::Idle;
    assert_eq!(state.connect_provider(&cfg, &devs, DeviceId(0)), Ok(Some(provider(HIGH_POWER))));
    // providing 15000 mW as well crosses the threshold
    devs[1].state.state = State::ConnectedProvider(provider(HIGH_POWER));
    assert_eq!(state.connect_provider(&cfg, &devs, DeviceId(0)), Ok(Some(provider(LOW_POWER))));
    assert_eq!(state.state, PowerState::Limited);
}

#[test]
fn a_failed_reset_ends_an_event_except_a_disconnect() {
    assert_eq!(reset_outcome(RequestData::Attached, Err(Error::Failed)), Err(Error::Failed));
    assert_eq!(reset_outcome(RequestData::UpdatedConsumerCapability(None), Err(Error::Bus)), Err(Error::Bus));
    assert_eq!(reset_outcome(RequestData::Attached, Ok(())), Ok(()));
    assert_eq!(reset_outcome(RequestData::Disconnected, Err(Error::Failed)), Ok(()));
}

#[test]
fn device_states_after_the_service_calls() {
    let mut s = InternalState::new();
    s.state = State::Idle;
    s.consumer_capability = Some(consumer(LOW_POWER));
    let c = after_connect_consumer(s, consumer(LOW_POWER));
    assert_eq!(c.state, State::ConnectedConsumer(consumer(LOW_POWER)));
    assert_eq!(c.consumer_capability, s.consumer_capability);
    let p = after_connect_provider(s, provider(HIGH_POWER));
    assert_eq!(p.state, State::ConnectedProvider(provider(HIGH_POWER)));
    assert_eq!(after_disconnect(p).state, State::Idle);
}
