//! The dispatcher: owns the receiving end of the inbound queue and three
//! ordered consumer lists, one per event kind. Its sole operation after
//! construction is an unbounded blocking loop that receives one event at a
//! time and fans it out, in list order, to the consumers of the event's kind.

use vstd::prelude::*;

use crate::event::ActionEvent;
use crate::event::ActionEventReceiver;
use crate::event::Event;
use crate::event::KeyEvent;
use crate::event::KeyEventReceiver;
use crate::event::SystemEvent;
use crate::event::SystemEventReceiver;
use crate::event::action_payloads;
use crate::event::key_payloads;
use crate::event::lemma_payloads_singleton;
use crate::event::system_payloads;

verus! {

#[verifier::external_type_specification]
#[verifier::external_body]
#[verifier::reject_recursive_types(T)]
pub struct ExReceiver<T>(std::sync::mpsc::Receiver<T>);

/// The one failure this component can report: the inbound queue is empty and
/// every sending handle has been dropped, so no event can ever arrive again.
/// The dispatch loop returns this value instead of spinning or exiting
/// silently; the calling layer chooses how to terminate.
#[derive(Clone, Copy, Debug)]
pub struct ChannelClosed;

impl ChannelClosed {
    /// A diagnostic message identifying the broken channel.
    pub fn diagnostic(&self) -> (message: &'static str)
        ensures
            message@ == "broken event channel: all sending handles were dropped"@,
    {
        "broken event channel: all sending handles were dropped"
    }
}

/// Relies on std::sync::mpsc::Receiver::recv: it blocks until an event is
/// available (Ok) and returns Err only once the channel is empty and every
/// sending handle has been dropped. Which event arrives, if any, depends on
/// the producer threads, so nothing is stated of the result.
#[verifier::external_body]
fn recv_event(channel: &std::sync::mpsc::Receiver<Event>) -> Result<Event, ChannelClosed> {
    match channel.recv() {
        Ok(event) => Ok(event),
        Err(_) => Err(ChannelClosed),
    }
}

/// The sole operation a dispatcher offers after construction: an unbounded
/// blocking receive-and-fan-out loop. It runs until the process ends or the
/// queue becomes permanently closed, which it must treat as fatal; since such
/// a loop never terminates on its own, its implementers belong with the
/// process scaffolding around this library, built on
/// `DefaultEventManager::receive_and_dispatch`.
pub trait EventManager {
    fn eventloop(&mut self) -> ChannelClosed;
}

/// A dispatcher over one inbound queue and three ordered consumer lists. The
/// configuration is fixed at construction: no consumer is added, removed or
/// reordered afterwards.
pub struct DefaultEventManager<K, A, S> {
    receive_channel: std::sync::mpsc::Receiver<Event>,
    key_receivers: Vec<K>,
    action_receivers: Vec<A>,
    system_receivers: Vec<S>,
}

impl<K: KeyEventReceiver, A: ActionEventReceiver, S: SystemEventReceiver> DefaultEventManager<
    K,
    A,
    S,
> {
    /// The configured key consumer list, in registration order.
    pub closed spec fn key_list(self) -> Seq<K> {
        self.key_receivers@
    }

    /// The configured action consumer list, in registration order.
    pub closed spec fn action_list(self) -> Seq<A> {
        self.action_receivers@
    }

    /// The configured system consumer list, in registration order.
    pub closed spec fn system_list(self) -> Seq<S> {
        self.system_receivers@
    }

    /// The queue handle the dispatcher receives on.
    pub closed spec fn channel(self) -> std::sync::mpsc::Receiver<Event> {
        self.receive_channel
    }

    /// The configured key consumer list, for reading observations back
    /// after dispatch.
    pub fn key_receivers(&self) -> (receivers: &Vec<K>)
        ensures
            receivers@ == self.key_list(),
    {
        &self.key_receivers
    }

    /// The configured action consumer list.
    pub fn action_receivers(&self) -> (receivers: &Vec<A>)
        ensures
            receivers@ == self.action_list(),
    {
        &self.action_receivers
    }

    /// The configured system consumer list.
    pub fn system_receivers(&self) -> (receivers: &Vec<S>)
        ensures
            receivers@ == self.system_list(),
    {
        &self.system_receivers
    }

    /// Constructs a dispatcher from its full configuration. No validation is
    /// performed; duplicate entries in a consumer list are permitted, and
    /// each list may be empty.
    pub fn new(
        receive_channel: std::sync::mpsc::Receiver<Event>,
        key_receivers: Vec<K>,
        action_receivers: Vec<A>,
        system_receivers: Vec<S>,
    ) -> (manager: DefaultEventManager<K, A, S>)
        ensures
            manager.key_list() == key_receivers@,
            manager.action_list() == action_receivers@,
            manager.system_list() == system_receivers@,
            manager.channel() == receive_channel,
    {
        DefaultEventManager { receive_channel, key_receivers, action_receivers, system_receivers }
    }
}

/// Dispatching the trace `events` turned the dispatcher `pre` into `post`:
/// the configuration (list lengths and queue handle) is unchanged, and every
/// consumer's observation history has grown by exactly the payloads of its
/// own kind, in trace order — and by nothing else.
pub open spec fn dispatched<
    K: KeyEventReceiver,
    A: ActionEventReceiver,
    S: SystemEventReceiver,
>(
    pre: DefaultEventManager<K, A, S>,
    post: DefaultEventManager<K, A, S>,
    events: Seq<Event>,
) -> bool {
    &&& post.key_list().len() == pre.key_list().len()
    &&& forall|i: int|
        0 <= i < pre.key_list().len() ==> (#[trigger] post.key_list()[i]).received_keys()
            == pre.key_list()[i].received_keys() + key_payloads(events)
    &&& post.action_list().len() == pre.action_list().len()
    &&& forall|i: int|
        0 <= i < pre.action_list().len() ==> (#[trigger] post.action_list()[i]).received_actions()
            == pre.action_list()[i].received_actions() + action_payloads(events)
    &&& post.system_list().len() == pre.system_list().len()
    &&& forall|i: int|
        0 <= i < pre.system_list().len() ==> (#[trigger] post.system_list()[i]).received_systems()
            == pre.system_list()[i].received_systems() + system_payloads(events)
    &&& key_payloads(events).len() == 0 ==> post.key_list() == pre.key_list()
    &&& action_payloads(events).len() == 0 ==> post.action_list() == pre.action_list()
    &&& system_payloads(events).len() == 0 ==> post.system_list() == pre.system_list()
    &&& post.channel() == pre.channel()
}

/// How many consumers the dispatcher has registered for the kind of `event`:
/// the length of the one list the event fans out to.
pub open spec fn registered_count<
    K: KeyEventReceiver,
    A: ActionEventReceiver,
    S: SystemEventReceiver,
>(manager: DefaultEventManager<K, A, S>, event: Event) -> nat {
    match event {
        Event::Key(_) => manager.key_list().len(),
        Event::Action(_) => manager.action_list().len(),
        Event::System(_) => manager.system_list().len(),
    }
}

impl<K: KeyEventReceiver, A: ActionEventReceiver, S: SystemEventReceiver> DefaultEventManager<
    K,
    A,
    S,
> {
    /// Fans one key payload out to every key consumer, in list order, each
    /// receiving its own duplicate of the payload.
    fn dispatch_key(&mut self, payload: KeyEvent)
        ensures
            final(self).key_list().len() == old(self).key_list().len(),
            forall|i: int|
                0 <= i < old(self).key_list().len() ==> (#[trigger] final(self).key_list()[i]).received_keys() == old(self).key_list()[i].received_keys().push(
                    payload,
                ),
            final(self).action_list() == old(self).action_list(),
            final(self).system_list() == old(self).system_list(),
            final(self).channel() == old(self).channel(),
    {
        let n = self.key_receivers.len();
        let mut i: usize = 0;
        while i < n
            invariant
                i <= n,
                n == self.key_list().len(),
                self.key_list().len() == old(self).key_list().len(),
                forall|j: int|
                    0 <= j < i ==> (#[trigger] self.key_list()[j]).received_keys() == old(
                        self,
                    ).key_list()[j].received_keys().push(payload),
                forall|j: int| i <= j < n ==> #[trigger] self.key_list()[j] == old(self).key_list()[j],
                self.action_list() == old(self).action_list(),
                self.system_list() == old(self).system_list(),
                self.channel() == old(self).channel(),
            decreases n - i,
        {
            self.key_receivers[i].on_key_event(payload.clone());
            i += 1;
        }
    }

    /// Fans one action payload out to every action consumer, in list order.
    fn dispatch_action(&mut self, payload: ActionEvent)
        ensures
            final(self).action_list().len() == old(self).action_list().len(),
            forall|i: int|
                0 <= i < old(self).action_list().len() ==> (#[trigger] final(self).action_list()[i]).received_actions() == old(self).action_list()[i].received_actions().push(payload),
            final(self).key_list() == old(self).key_list(),
            final(self).system_list() == old(self).system_list(),
            final(self).channel() == old(self).channel(),
    {
        let n = self.action_receivers.len();
        let mut i: usize = 0;
        while i < n
            invariant
                i <= n,
                n == self.action_list().len(),
                self.action_list().len() == old(self).action_list().len(),
                forall|j: int|
                    0 <= j < i ==> (#[trigger] self.action_list()[j]).received_actions() == old(
                        self,
                    ).action_list()[j].received_actions().push(payload),
                forall|j: int|
                    i <= j < n ==> #[trigger] self.action_list()[j] == old(self).action_list()[j],
                self.key_list() == old(self).key_list(),
                self.system_list() == old(self).system_list(),
                self.channel() == old(self).channel(),
            decreases n - i,
        {
            self.action_receivers[i].on_action_event(payload.clone());
            i += 1;
        }
    }

    /// Fans one system payload out to every system consumer, in list order.
    fn dispatch_system(&mut self, payload: SystemEvent)
        ensures
            final(self).system_list().len() == old(self).system_list().len(),
            forall|i: int|
                0 <= i < old(self).system_list().len() ==> (#[trigger] final(self).system_list()[i]).received_systems() == old(self).system_list()[i].received_systems().push(payload),
            final(self).key_list() == old(self).key_list(),
            final(self).action_list() == old(self).action_list(),
            final(self).channel() == old(self).channel(),
    {
        let n = self.system_receivers.len();
        let mut i: usize = 0;
        while i < n
            invariant
                i <= n,
                n == self.system_list().len(),
                self.system_list().len() == old(self).system_list().len(),
                forall|j: int|
                    0 <= j < i ==> (#[trigger] self.system_list()[j]).received_systems() == old(
                        self,
                    ).system_list()[j].received_systems().push(payload),
                forall|j: int|
                    i <= j < n ==> #[trigger] self.system_list()[j] == old(self).system_list()[j],
                self.key_list() == old(self).key_list(),
                self.action_list() == old(self).action_list(),
                self.channel() == old(self).channel(),
            decreases n - i,
        {
            self.system_receivers[i].on_system_event(payload.clone());
            i += 1;
        }
    }

    /// Classifies one event by its variant and fans it out to the consumers
    /// of that kind alone: exhaustive matching guarantees every kind is
    /// handled, and consumers of the other kinds observe nothing.
    pub fn dispatch_event(&mut self, event: Event)
        ensures
            dispatched(*old(self), *final(self), seq![event]),
    {
        match event {
            Event::Key(payload) => self.dispatch_key(payload),
            Event::Action(payload) => self.dispatch_action(payload),
            Event::System(payload) => self.dispatch_system(payload),
        }
        proof {
            lemma_dispatch_one(*old(self), *self, event);
        }
    }
}

/// Bridges the per-kind fan-out contract to `dispatched` over the one-event
/// trace: appending one payload is concatenating a one-payload projection,
/// and an empty projection concatenates to no change.
proof fn lemma_dispatch_one<K: KeyEventReceiver, A: ActionEventReceiver, S: SystemEventReceiver>(
    pre: DefaultEventManager<K, A, S>,
    post: DefaultEventManager<K, A, S>,
    event: Event,
)
    requires
        post.key_list().len() == pre.key_list().len(),
        post.action_list().len() == pre.action_list().len(),
        post.system_list().len() == pre.system_list().len(),
        post.channel() == pre.channel(),
        event matches Event::Key(payload) ==> forall|i: int|
            0 <= i < pre.key_list().len() ==> (#[trigger] post.key_list()[i]).received_keys()
                == pre.key_list()[i].received_keys().push(payload),
        !(event is Key) ==> post.key_list() == pre.key_list(),
        event matches Event::Action(payload) ==> forall|i: int|
            0 <= i < pre.action_list().len() ==> (#[trigger] post.action_list()[i]).received_actions()
                == pre.action_list()[i].received_actions().push(payload),
        !(event is Action) ==> post.action_list() == pre.action_list(),
        event matches Event::System(payload) ==> forall|i: int|
            0 <= i < pre.system_list().len() ==> (#[trigger] post.system_list()[i]).received_systems()
                == pre.system_list()[i].received_systems().push(payload),
        !(event is System) ==> post.system_list() == pre.system_list(),
    ensures
        dispatched(pre, post, seq![event]),
{
    lemma_payloads_singleton(event);
    assert forall|i: int| 0 <= i < pre.key_list().len() implies (#[trigger] post.key_list()[i]).received_keys()
        == pre.key_list()[i].received_keys() + key_payloads(seq![event]) by {
        match event {
            Event::Key(payload) => {
                assert(pre.key_list()[i].received_keys().push(payload)
                    =~= pre.key_list()[i].received_keys() + seq![payload]);
            },
            _ => {
                assert(pre.key_list()[i].received_keys() + key_payloads(seq![event])
                    =~= pre.key_list()[i].received_keys());
            },
        }
    }
    assert forall|i: int| 0 <= i < pre.action_list().len() implies (#[trigger] post.action_list()[i]).received_actions()
        == pre.action_list()[i].received_actions() + action_payloads(seq![event]) by {
        match event {
            Event::Action(payload) => {
                assert(pre.action_list()[i].received_actions().push(payload)
                    =~= pre.action_list()[i].received_actions() + seq![payload]);
            },
            _ => {
                assert(pre.action_list()[i].received_actions() + action_payloads(seq![event])
                    =~= pre.action_list()[i].received_actions());
            },
        }
    }
    assert forall|i: int| 0 <= i < pre.system_list().len() implies (#[trigger] post.system_list()[i]).received_systems()
        == pre.system_list()[i].received_systems() + system_payloads(seq![event]) by {
        match event {
            Event::System(payload) => {
                assert(pre.system_list()[i].received_systems().push(payload)
                    =~= pre.system_list()[i].received_systems() + seq![payload]);
            },
            _ => {
                assert(pre.system_list()[i].received_systems() + system_payloads(seq![event])
                    =~= pre.system_list()[i].received_systems());
            },
        }
    }
}

impl<K: KeyEventReceiver, A: ActionEventReceiver, S: SystemEventReceiver> DefaultEventManager<
    K,
    A,
    S,
> {
    /// One iteration of the dispatch loop: blocks on the queue until an
    /// event arrives, classifies it and fans it out to the consumers of its
    /// kind, each observing exactly that one payload; or reports the queue
    /// permanently closed, touching nothing. The loop around this step never
    /// ends on its own, so it lives with the process scaffolding, which must
    /// treat `Err` as fatal.
    pub fn receive_and_dispatch(&mut self) -> (outcome: Result<Event, ChannelClosed>)
        ensures
            outcome matches Ok(event) ==> dispatched(*old(self), *final(self), seq![event]),
            outcome is Err ==> *final(self) == *old(self),
    {
        match recv_event(&self.receive_channel) {
            Ok(event) => {
                self.dispatch_event(event);
                Ok(event)
            },
            Err(closed) => Err(closed),
        }
    }
}

} // verus!
