//! One-to-many delivery of the shutdown notification.
//!
//! A broadcaster is a flag and a list of subscribers. Firing sets the flag
//! and names the subscribers to wake. A subscriber that arrives after the
//! flag was set finds it set, so no ordering of `subscribe` and `fire` lets a
//! subscriber miss the notification.

use vstd::prelude::*;

verus! {

/// The shutdown event. It carries nothing.
#[derive(Clone, Copy, Debug, PartialEq, Eq, Structural)]
pub struct ShutdownSignal {}

/// A subscription to a broadcaster, named by its position among the
/// subscriptions of that broadcaster.
#[derive(Clone, Copy, Debug, PartialEq, Eq, Hash, Structural)]
pub struct Receiver {
    pub id: usize,
}

/// What a broadcaster is: whether it has fired, and for each subscriber
/// whether the event was already handed to it.
#[verifier::ext_equal]
pub struct BroadcasterState {
    pub fired: bool,
    pub delivered: Seq<bool>,
}

impl BroadcasterState {
    /// A broadcaster that has not fired and has no subscriber.
    pub open spec fn initial() -> Self {
        BroadcasterState { fired: false, delivered: Seq::empty() }
    }

    /// Whether `id` names a subscriber.
    pub open spec fn knows(self, id: int) -> bool {
        0 <= id < self.delivered.len()
    }

    /// The state after one more subscription.
    pub open spec fn subscribe(self) -> Self {
        BroadcasterState { fired: self.fired, delivered: self.delivered.push(false) }
    }

    /// The state after firing.
    pub open spec fn fire(self) -> Self {
        BroadcasterState { fired: true, delivered: self.delivered }
    }

    /// The subscribers that a call of `fire` wakes: all of them at the first
    /// call, none afterwards.
    pub open spec fn woken_by_fire(self) -> Seq<Receiver> {
        if self.fired {
            Seq::empty()
        } else {
            Seq::new(self.delivered.len(), |i: int| Receiver { id: i as usize })
        }
    }

    /// Whether subscriber `id` sees the shutdown as having happened.
    pub open spec fn resolved(self, id: int) -> bool {
        self.fired && self.knows(id)
    }

    /// Whether the event can still be handed to subscriber `id`.
    pub open spec fn deliverable(self, id: int) -> bool {
        self.resolved(id) && !self.delivered[id]
    }

    /// The state after subscriber `id` asked for the event.
    pub open spec fn take(self, id: int) -> Self {
        if self.deliverable(id) {
            BroadcasterState { fired: self.fired, delivered: self.delivered.update(id, true) }
        } else {
            self
        }
    }
}

/// Fans one shutdown notification out to any number of subscribers.
pub struct ShutdownBroadcaster {
    fired: bool,
    delivered: Vec<bool>,
}

impl View for ShutdownBroadcaster {
    type V = BroadcasterState;

    closed spec fn view(&self) -> BroadcasterState {
        BroadcasterState { fired: self.fired, delivered: self.delivered@ }
    }
}

impl ShutdownBroadcaster {
    /// A broadcaster that has not fired and has no subscriber.
    pub fn new() -> (b: Self)
        ensures
            b@ == BroadcasterState::initial(),
    {
        ShutdownBroadcaster { fired: false, delivered: Vec::new() }
    }

    /// Adds a subscriber. Allowed before and after firing.
    pub fn subscribe(&mut self) -> (rx: Receiver)
        ensures
            final(self)@ == old(self)@.subscribe(),
            rx.id == old(self)@.delivered.len(),
    {
        let id: usize = self.delivered.len();
        self.delivered.push(false);
        Receiver { id }
    }

    /// Fires the shutdown and returns the subscribers to wake. Only the first
    /// call wakes anyone; a later call changes nothing.
    pub fn fire(&mut self) -> (woken: Vec<Receiver>)
        ensures
            final(self)@ == old(self)@.fire(),
            woken@ == old(self)@.woken_by_fire(),
    {
        let mut woken: Vec<Receiver> = Vec::new();
        if !self.fired {
            let n: usize = self.delivered.len();
            let mut i: usize = 0;
            while i < n
                invariant
                    i <= n,
                    n == self.delivered@.len(),
                    woken@ == Seq::new(i as nat, |k: int| Receiver { id: k as usize }),
                decreases n - i,
            {
                woken.push(Receiver { id: i });
                i += 1;
            }
            self.fired = true;
        }
        woken
    }

    /// Whether the shutdown has been fired.
    pub fn is_fired(&self) -> (fired: bool)
        ensures
            fired == self@.fired,
    {
        self.fired
    }

    /// The number of subscribers so far.
    pub fn subscriber_count(&self) -> (n: usize)
        ensures
            n == self@.delivered.len(),
    {
        self.delivered.len()
    }

    /// Whether `rx` sees the shutdown as having happened. This holds from the
    /// moment of firing on, also for a receiver that subscribed later.
    pub fn is_resolved(&self, rx: &Receiver) -> (resolved: bool)
        ensures
            resolved == self@.resolved(rx.id as int),
    {
        self.fired && rx.id < self.delivered.len()
    }

    /// Hands the event to `rx`: `Some` the first time after firing, `None`
    /// before firing, on every later call, and for an unknown receiver.
    pub fn take(&mut self, rx: &Receiver) -> (signal: Option<ShutdownSignal>)
        ensures
            signal.is_some() == old(self)@.deliverable(rx.id as int),
            final(self)@ == old(self)@.take(rx.id as int),
    {
        if self.fired && rx.id < self.delivered.len() && !self.delivered[rx.id] {
            self.delivered.set(rx.id, true);
            Some(ShutdownSignal {})
        } else {
            None
        }
    }
}

/// Firing is idempotent: a second call leaves the state as the first left it
/// and wakes nobody. More generally, on a broadcaster that has fired, firing
/// does nothing at all, so of any number of calls, in whatever order they
/// take effect among other operations, only the first has an effect.
pub proof fn law_fire_idempotent(s: BroadcasterState)
    ensures
        s.fire().fire() == s.fire(),
        s.fire().woken_by_fire() == Seq::<Receiver>::empty(),
        s.fired ==> s.fire() == s && s.woken_by_fire() == Seq::<Receiver>::empty(),
{
}

/// A receiver that subscribes after the shutdown was fired sees it at once,
/// and the event can be handed to it.
pub proof fn law_late_subscriber_resolves(s: BroadcasterState)
    ensures
        s.fire().subscribe().resolved(s.delivered.len() as int),
        s.fire().subscribe().deliverable(s.delivered.len() as int),
{
}

/// The order of a subscription and a firing does not matter to the state
/// they leave behind.
pub proof fn law_subscribe_fire_commute(s: BroadcasterState)
    ensures
        s.subscribe().fire() == s.fire().subscribe(),
{
}

/// Once fired, a broadcaster stays fired, and every subscriber stays
/// resolved, whatever is done next.
pub proof fn law_resolved_is_stable(s: BroadcasterState, id: int, other: int)
    requires
        s.resolved(id),
    ensures
        s.fire().resolved(id),
        s.subscribe().resolved(id),
        s.take(other).resolved(id),
{
}

/// Every subscriber present at the first firing is among those woken.
pub proof fn law_fire_wakes_every_subscriber(s: BroadcasterState, id: int)
    requires
        !s.fired,
        s.knows(id),
        id <= usize::MAX,
    ensures
        s.woken_by_fire().len() == s.delivered.len(),
        s.woken_by_fire()[id] == (Receiver { id: id as usize }),
{
}

/// The event is handed to a subscriber at most once.
pub proof fn law_delivery_at_most_once(s: BroadcasterState, id: int)
    ensures
        !s.take(id).deliverable(id),
        s.take(id).take(id) == s.take(id),
{
}

} // verus!
