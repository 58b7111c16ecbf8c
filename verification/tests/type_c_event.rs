use embedded_services::type_c::event::{
    PortEvent, PortNotification, PortNotificationSingle, PortPending, PortStatusChanged,
};

#[test]
fn test_port_event_flags_iter() {
    let mut pending = PortPending::none();

    pending.pend_port(0);
    pending.pend_port(1);
    pending.pend_port(2);
    pending.pend_port(10);
    pending.pend_port(23);
    pending.pend_port(31);

    let mut iter = pending.into_iter();
    assert_eq!(iter.next(), Some(0));
    assert_eq!(iter.next(), Some(1));
    assert_eq!(iter.next(), Some(2));
    assert_eq!(iter.next(), Some(10));
    assert_eq!(iter.next(), Some(23));
    assert_eq!(iter.next(), Some(31));
    assert_eq!(iter.next(), None);
}

#[test]
fn test_port_notification_iter_all() {
    let mut notification = PortNotification::none();
    notification.set_alert(true);
    notification.set_vdm(true);

    assert_eq!(notification.next(), Some(PortNotificationSingle::Alert));
    assert_eq!(notification.next(), Some(PortNotificationSingle::Vdm));
    assert_eq!(notification.next(), None);
}

#[test]
fn test_port_notification_iter_alert() {
    let mut notification = PortNotification::none();
    notification.set_alert(true);

    assert_eq!(notification.next(), Some(PortNotificationSingle::Alert));
    assert_eq!(notification.next(), None);
}

#[test]
fn test_port_notification_iter_vdm() {
    let mut notification = PortNotification::none();
    notification.set_vdm(true);

    assert_eq!(notification.next(), Some(PortNotificationSingle::Vdm));
    assert_eq!(notification.next(), None);
}

#[test]
fn status_flags_set_and_clear_independently() {
    let mut status = PortStatusChanged::none();
    assert!(!status.plug_inserted_or_removed());
    status.set_plug_inserted_or_removed(true);
    status.set_sink_ready(true);
    assert!(status.plug_inserted_or_removed());
    assert!(status.sink_ready());
    assert!(!status.new_power_contract_as_provider());
    assert!(!status.new_power_contract_as_consumer());
    assert!(!status.source_caps_received());
    status.set_plug_inserted_or_removed(false);
    assert!(!status.plug_inserted_or_removed());
    assert!(status.sink_ready());
}

#[test]
fn status_union_is_bitwise_or() {
    let mut a = PortStatusChanged::none();
    a.set_new_power_contract_as_provider(true);
    let mut b = PortStatusChanged::none();
    b.set_new_power_contract_as_consumer(true);
    b.set_source_caps_received(true);
    let u = a.union(b);
    assert!(u.new_power_contract_as_provider());
    assert!(u.new_power_contract_as_consumer());
    assert!(u.source_caps_received());
    assert!(!u.plug_inserted_or_removed());
    assert_eq!(a.union(b), b.union(a));
    assert_eq!(a.union(PortStatusChanged::none()), a);
}

#[test]
fn port_event_union_and_from() {
    let mut status = PortStatusChanged::none();
    status.set_sink_ready(true);
    let mut notification = PortNotification::none();
    notification.set_vdm(true);
    let a: PortEvent = status.into();
    let b: PortEvent = notification.into();
    assert_eq!(a.notification, PortNotification::none());
    assert_eq!(b.status, PortStatusChanged::none());
    let u = a.union(b);
    assert!(u.status.sink_ready());
    assert!(u.notification.vdm());
    assert!(!u.notification.alert());
    assert_eq!(PortEvent::none().union(u), u);
}

#[test]
fn port_pending_union_clear_and_word() {
    let mut a = PortPending::none();
    assert!(a.is_none());
    assert_eq!(a.len(), 32);
    a.pend_port(3);
    assert!(!a.is_none());
    assert!(a.is_pending(3));
    assert!(!a.is_pending(4));
    let b = PortPending::from_ports(&[4, 31]);
    let u = a.union(b);
    assert!(u.is_pending(3) && u.is_pending(4) && u.is_pending(31));
    assert_eq!(u.to_u32(), (1u32 << 3) | (1u32 << 4) | (1u32 << 31));
    let mut c = u;
    c.clear_port(4);
    assert!(!c.is_pending(4));
    assert_eq!(c.to_u32(), (1u32 << 3) | (1u32 << 31));
    let mut pend = PortPending::none();
    pend.pend_ports(&[5, 5, 7]);
    assert_eq!(pend.to_u32(), (1u32 << 5) | (1u32 << 7));
    let copy = pend.clone();
    assert!(copy == pend);
    assert!(copy != PortPending::none());
}

#[test]
fn port_pending_iter_empty() {
    let mut iter = PortPending::none().into_iter();
    assert_eq!(iter.next(), None);
    assert_eq!(iter.next(), None);
}

#[test]
fn vdm_only_notification_drains_to_none() {
    let mut n = PortNotification::none();
    n.set_vdm(true);
    assert_eq!(n.next(), Some(PortNotificationSingle::Vdm));
    assert_eq!(n, PortNotification::none());
    assert_eq!(n.next(), None);
}

#[test]
fn status_union_laws_on_values() {
    let mut a = PortStatusChanged::none();
    a.set_sink_ready(true);
    let mut b = PortStatusChanged::none();
    b.set_plug_inserted_or_removed(true);
    assert_eq!(a.union(b), b.union(a));
    assert_eq!(a.union(a), a);
    assert_eq!(a.union(PortStatusChanged::none()), a);
}
