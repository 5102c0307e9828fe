use easytier_ios::events::{
    listen_for_changes, listen_for_stop, register_running_info_callback, register_stop_callback,
    subscribe_current, Change, Listen, Received, SubscribeAction, SubscribeEvent,
};
use easytier_ios::fault::Fault;
use uuid::Uuid;

fn calls(listener: fn(Received) -> Listen, all: Vec<Received>) -> usize {
    let mut n: usize = 0;
    for r in all {
        let l = listener(r);
        if l.call {
            n += 1;
        }
        if !l.wait {
            break;
        }
    }
    n
}

#[test]
fn stop_is_called_once() {
    let all = vec![
        Received::Event(Change::Other),
        Received::Lagged,
        Received::Event(Change::ConfigPatched),
        Received::Closed,
        Received::Closed,
    ];
    assert_eq!(calls(listen_for_stop, all), 1);
}

#[test]
fn stop_is_not_called_before_the_stop() {
    let all = vec![Received::Event(Change::DhcpIpv4Changed), Received::Lagged];
    assert_eq!(calls(listen_for_stop, all), 0);
}

#[test]
fn each_change_is_called() {
    let all = vec![
        Received::Event(Change::DhcpIpv4Changed),
        Received::Event(Change::Other),
        Received::Event(Change::ProxyCidrsUpdated),
        Received::Lagged,
        Received::Event(Change::ConfigPatched),
        Received::Closed,
        Received::Event(Change::ConfigPatched),
    ];
    assert_eq!(calls(listen_for_changes, all), 4);
}

#[test]
fn missed_events_may_be_changes() {
    let l = listen_for_changes(Received::Lagged);
    assert!(l.call);
    assert!(l.wait);
    assert_eq!(calls(listen_for_changes, vec![Received::Lagged, Received::Closed]), 1);
    assert_eq!(calls(listen_for_changes, vec![Received::Closed, Received::Lagged]), 0);
}

#[test]
fn callbacks_are_for_the_running_instance() {
    assert!(matches!(register_stop_callback(false, Ok(None)), Err(Fault::NoInstance)));
    assert!(matches!(register_running_info_callback(false, Ok(None)), Err(Fault::NoInstance)));
    let u = Uuid::from_u128(3);
    assert!(matches!(register_stop_callback(false, Ok(Some(u))), Ok(v) if v == u));
    assert!(matches!(register_running_info_callback(false, Ok(Some(u))), Ok(v) if v == u));
}

#[test]
fn missing_callback_is_refused_first() {
    let r = register_stop_callback(true, Err("p".to_owned()));
    assert!(matches!(r, Err(Fault::NullCallback)));
    let r = register_running_info_callback(true, Err("p".to_owned()));
    assert!(matches!(r, Err(Fault::NullCallback)));
    let r = register_stop_callback(false, Err("p".to_owned()));
    assert!(matches!(r, Err(Fault::Outside(e)) if e == "p"));
    let r = register_running_info_callback(false, Err("p".to_owned()));
    assert!(matches!(r, Err(Fault::Outside(e)) if e == "p"));
}

#[test]
fn subscription_goes_step_by_step() {
    let r = subscribe_current(SubscribeEvent::LookedUp { found: true });
    assert!(matches!(r, Ok(SubscribeAction::Ask)));
    let r = subscribe_current(SubscribeEvent::LookedUp { found: false });
    assert!(matches!(r, Err(Fault::InstanceNotFound)));
    let r = subscribe_current(SubscribeEvent::Asked { subscribed: true });
    assert!(matches!(r, Ok(SubscribeAction::Listen)));
    let r = subscribe_current(SubscribeEvent::Asked { subscribed: false });
    assert!(matches!(r, Err(Fault::NoSubscriber)));
}

fn registration(
    callback_is_null: bool,
    current: Result<Option<Uuid>, String>,
    found: bool,
    subscribed: bool,
) -> Result<(), Fault> {
    register_running_info_callback(callback_is_null, current)?;
    let mut event = SubscribeEvent::LookedUp { found };
    loop {
        event = match subscribe_current(event)? {
            SubscribeAction::Ask => SubscribeEvent::Asked { subscribed },
            SubscribeAction::Listen => return Ok(()),
        };
    }
}

#[test]
fn registration_fails_as_its_first_step() {
    let running = Ok(Some(Uuid::from_u128(3)));
    assert!(registration(false, running.clone(), true, true).is_ok());
    let r = registration(true, Ok(None), false, false);
    assert!(matches!(r, Err(Fault::NullCallback)));
    let r = registration(false, Err("p".to_owned()), false, false);
    assert!(matches!(r, Err(Fault::Outside(e)) if e == "p"));
    let r = registration(false, Ok(None), false, false);
    assert!(matches!(r, Err(Fault::NoInstance)));
    let r = registration(false, running.clone(), false, false);
    assert!(matches!(r, Err(Fault::InstanceNotFound)));
    let r = registration(false, running, true, false);
    assert!(matches!(r, Err(Fault::NoSubscriber)));
}
