//! Callbacks on the events of the running instance.

use vstd::prelude::*;

use uuid::Uuid;

use crate::fault::Fault;
use crate::session;

verus! {

/// What an event of an instance is about.
pub enum Change {
    DhcpIpv4Changed,
    ProxyCidrsUpdated,
    ConfigPatched,
    Other,
}

/// What came of waiting for the next event.
pub enum Received {
    /// An event.
    Event(Change),
    /// The instance stopped: there will be no more events.
    Closed,
    /// Events were missed.
    Lagged,
}

/// What a listener does after a wait.
pub struct Listen {
    /// Whether the callback is called.
    pub call: bool,
    /// Whether the listener waits on.
    pub wait: bool,
}

/// What has happened in a call that registers a callback.
pub enum SubscribeEvent {
    /// The instance manager was asked for the running instance.
    LookedUp { found: bool },
    /// The instance was asked for its events.
    Asked { subscribed: bool },
}

/// What a call that registers a callback does next.
pub enum SubscribeAction {
    /// Ask the instance for its events.
    Ask,
    /// Listen in the background.
    Listen,
}

/// What follows each event of a call that registers a callback.
pub open spec fn subscribe_next(event: SubscribeEvent) -> Result<SubscribeAction, Fault> {
    match event {
        SubscribeEvent::LookedUp { found } => if found {
            Ok(SubscribeAction::Ask)
        } else {
            Err(Fault::InstanceNotFound)
        },
        SubscribeEvent::Asked { subscribed } => if subscribed {
            Ok(SubscribeAction::Listen)
        } else {
            Err(Fault::NoSubscriber)
        },
    }
}

/// What a call that registers a callback does after `event`, or how it fails.
pub fn subscribe_current(event: SubscribeEvent) -> (r: Result<SubscribeAction, Fault>)
    ensures
        r == subscribe_next(event),
{
    match event {
        SubscribeEvent::LookedUp { found } => if found {
            Ok(SubscribeAction::Ask)
        } else {
            Err(Fault::InstanceNotFound)
        },
        SubscribeEvent::Asked { subscribed } => if subscribed {
            Ok(SubscribeAction::Listen)
        } else {
            Err(Fault::NoSubscriber)
        },
    }
}

/// The instance whose events a callback is registered for.
pub open spec fn listened_to(
    callback_is_null: bool,
    current: Result<Option<Uuid>, String>,
) -> Result<Uuid, Fault> {
    if callback_is_null {
        Err(Fault::NullCallback)
    } else {
        session::instance_of(current)
    }
}

/// The instance whose stop calls the callback: the running one.
pub fn register_stop_callback(
    callback_is_null: bool,
    current: Result<Option<Uuid>, String>,
) -> (r: Result<Uuid, Fault>)
    ensures
        r == listened_to(callback_is_null, current),
{
    if callback_is_null {
        Err(Fault::NullCallback)
    } else {
        session::current_uuid(current)
    }
}

/// The instance whose changes call the callback: the running one.
pub fn register_running_info_callback(
    callback_is_null: bool,
    current: Result<Option<Uuid>, String>,
) -> (r: Result<Uuid, Fault>)
    ensures
        r == listened_to(callback_is_null, current),
{
    if callback_is_null {
        Err(Fault::NullCallback)
    } else {
        session::current_uuid(current)
    }
}

/// What comes of each step of a call that registers a callback.
pub struct RegisterOutcomes {
    pub callback_is_null: bool,
    pub current: Result<Option<Uuid>, String>,
    pub found: bool,
    pub subscribed: bool,
}

impl RegisterOutcomes {
    /// The event that ends a step; none ends the last one.
    pub open spec fn after(self, action: SubscribeAction) -> Option<SubscribeEvent> {
        match action {
            SubscribeAction::Ask => Some(SubscribeEvent::Asked { subscribed: self.subscribed }),
            SubscribeAction::Listen => None,
        }
    }

    /// How a call ends that has come to `event` and goes on step by step.
    pub open spec fn end_from(self, event: SubscribeEvent) -> Result<(), Fault>
        decreases
                (match event {
                    SubscribeEvent::LookedUp { .. } => 1nat,
                    SubscribeEvent::Asked { .. } => 0nat,
                }),
    {
        match subscribe_next(event) {
            Ok(action) => match self.after(action) {
                Some(next) => self.end_from(next),
                None => Ok(()),
            },
            Err(e) => Err(e),
        }
    }

    /// How a call ends.
    pub open spec fn end(self) -> Result<(), Fault> {
        match listened_to(self.callback_is_null, self.current) {
            Ok(_) => self.end_from(SubscribeEvent::LookedUp { found: self.found }),
            Err(e) => Err(e),
        }
    }
}

/// A call that registers a callback ends well if and only if there is a callback, an
/// instance runs, it is found, and it gives a subscriber; it fails as the first of
/// these that does not hold.
pub proof fn law_registration_ends_as_its_steps(o: RegisterOutcomes)
    ensures
        o.end() is Ok <==> {
            &&& !o.callback_is_null
            &&& o.current matches Ok(Some(_))
            &&& o.found
            &&& o.subscribed
        },
        o.callback_is_null ==> o.end() == Err::<(), Fault>(Fault::NullCallback),
        !o.callback_is_null ==> match o.current {
            Err(e) => o.end() == Err::<(), Fault>(Fault::Outside(e)),
            Ok(None) => o.end() == Err::<(), Fault>(Fault::NoInstance),
            Ok(Some(_)) => {
                &&& !o.found ==> o.end() == Err::<(), Fault>(Fault::InstanceNotFound)
                &&& o.found && !o.subscribed ==> o.end() == Err::<(), Fault>(Fault::NoSubscriber)
            },
        },
{
    reveal_with_fuel(RegisterOutcomes::end_from, 2);
}

/// The listener for the stop calls back when there will be no more events, and
/// only then; it waits until then.
pub open spec fn on_stop(received: Received) -> Listen {
    Listen { call: received is Closed, wait: !(received is Closed) }
}

/// What was received means that the running info may have changed: an event of a
/// change, or that events were missed, for a change may be among them.
pub open spec fn may_change_info(received: Received) -> bool {
    match received {
        Received::Event(change) => !(change is Other),
        Received::Lagged => true,
        Received::Closed => false,
    }
}

/// The listener for changes calls back whenever the running info may have changed,
/// and waits until there will be no more events.
pub open spec fn on_change(received: Received) -> Listen {
    Listen { call: may_change_info(received), wait: !(received is Closed) }
}

/// What the listener for the stop does after a wait.
pub fn listen_for_stop(received: Received) -> (r: Listen)
    ensures
        r == on_stop(received),
        r.call == (received == Received::Closed),
        r.wait == (received != Received::Closed),
{
    match received {
        Received::Event(_) => Listen { call: false, wait: true },
        Received::Closed => Listen { call: true, wait: false },
        Received::Lagged => Listen { call: false, wait: true },
    }
}

/// What the listener for changes does after a wait.
pub fn listen_for_changes(received: Received) -> (r: Listen)
    ensures
        r == on_change(received),
        r.call == {
            ||| received == Received::Event(Change::DhcpIpv4Changed)
            ||| received == Received::Event(Change::ProxyCidrsUpdated)
            ||| received == Received::Event(Change::ConfigPatched)
            ||| received == Received::Lagged
        },
        r.wait == (received != Received::Closed),
{
    match received {
        Received::Event(change) => match change {
            Change::DhcpIpv4Changed | Change::ProxyCidrsUpdated | Change::ConfigPatched => Listen {
                call: true,
                wait: true,
            },
            Change::Other => Listen { call: false, wait: true },
        },
        Received::Closed => Listen { call: false, wait: false },
        Received::Lagged => Listen { call: true, wait: true },
    }
}

/// How often a listener calls back while it receives `all`, one after the other,
/// for as long as it waits.
pub open spec fn calls(listener: spec_fn(Received) -> Listen, all: Seq<Received>) -> nat
    decreases all.len(),
{
    if all.len() == 0 {
        0
    } else {
        let first = listener(all[0]);
        let now: nat = if first.call {
            1
        } else {
            0
        };
        if first.wait {
            now + calls(listener, all.drop_first())
        } else {
            now
        }
    }
}

/// What is received before there will be no more events.
pub open spec fn until_closed(all: Seq<Received>) -> Seq<Received>
    decreases all.len(),
{
    if all.len() == 0 || all[0] is Closed {
        Seq::empty()
    } else {
        seq![all[0]] + until_closed(all.drop_first())
    }
}

/// The stop callback is called once when the instance has stopped, and never
/// before, whatever was received.
pub proof fn law_stop_is_called_once(all: Seq<Received>)
    ensures
        calls(|r: Received| on_stop(r), all) == (if all.contains(Received::Closed) {
            1nat
        } else {
            0nat
        }),
    decreases all.len(),
{
    if all.len() > 0 {
        let rest = all.drop_first();
        law_stop_is_called_once(rest);
        if all[0] is Closed {
            assert(all.contains(Received::Closed));
        } else if all.contains(Received::Closed) {
            let i = choose|i: int| 0 <= i < all.len() && all[i] == Received::Closed;
            assert(rest[i - 1] == Received::Closed);
        } else if rest.contains(Received::Closed) {
            let i = choose|i: int| 0 <= i < rest.len() && rest[i] == Received::Closed;
            assert(all[i + 1] == Received::Closed);
        }
    }
}

/// The listener for changes calls back on a changed DHCP address, on updated proxy
/// routes, on a patched configuration and when events were missed, on nothing else,
/// and waits on after each of them; it waits no longer once the instance stopped. The
/// listener for the stop calls back on the stop and on nothing else.
pub proof fn law_listeners_by_event(received: Received)
    ensures
        on_change(Received::Event(Change::DhcpIpv4Changed)) == (Listen { call: true, wait: true }),
        on_change(Received::Event(Change::ProxyCidrsUpdated)) == (Listen {
            call: true,
            wait: true,
        }),
        on_change(Received::Event(Change::ConfigPatched)) == (Listen { call: true, wait: true }),
        on_change(Received::Lagged) == (Listen { call: true, wait: true }),
        on_change(Received::Event(Change::Other)) == (Listen { call: false, wait: true }),
        on_change(Received::Closed) == (Listen { call: false, wait: false }),
        on_stop(received) == if received == Received::Closed {
            Listen { call: true, wait: false }
        } else {
            Listen { call: false, wait: true }
        },
{
}

/// The callback for changes is called exactly once for each changed DHCP address, each
/// update of proxy routes, each patch of the configuration and each time that events
/// were missed, before the instance stopped.
pub proof fn law_changes_are_called(all: Seq<Received>)
    ensures
        calls(|r: Received| on_change(r), all) == until_closed(all).filter(
            |r: Received|
                {
                    ||| r == Received::Event(Change::DhcpIpv4Changed)
                    ||| r == Received::Event(Change::ProxyCidrsUpdated)
                    ||| r == Received::Event(Change::ConfigPatched)
                    ||| r == Received::Lagged
                },
        ).len(),
    decreases all.len(),
{
    let p = |r: Received|
        {
            ||| r == Received::Event(Change::DhcpIpv4Changed)
            ||| r == Received::Event(Change::ProxyCidrsUpdated)
            ||| r == Received::Event(Change::ConfigPatched)
            ||| r == Received::Lagged
        };
    reveal(Seq::filter);
    if all.len() > 0 {
        let rest = all.drop_first();
        law_changes_are_called(rest);
        if !(all[0] is Closed) {
            Seq::filter_distributes_over_add(seq![all[0]], until_closed(rest), p);
            let first = seq![all[0]];
            assert(first.drop_last() =~= Seq::empty());
            assert(first.drop_last().filter(p) =~= Seq::empty());
            assert(first.filter(p).len() == if p(all[0]) {
                1nat
            } else {
                0nat
            });
            assert(until_closed(all).filter(p) == first.filter(p) + until_closed(rest).filter(p));
        }
    }
}

/// A callback is registered for the very instance that runs, and the steps of it go in
/// order: an instance is asked only once it is found, and listened to only once it gave
/// a subscriber.
pub proof fn law_registration_goes_in_order(uuid: Uuid, event: SubscribeEvent)
    ensures
        listened_to(false, Ok(Some(uuid))) == Ok::<Uuid, Fault>(uuid),
        subscribe_next(event) == Ok::<SubscribeAction, Fault>(SubscribeAction::Ask) <==> event == (
        SubscribeEvent::LookedUp { found: true }),
        subscribe_next(event) == Ok::<SubscribeAction, Fault>(SubscribeAction::Listen) <==> event
            == (SubscribeEvent::Asked { subscribed: true }),
{
}

} // verus!
