//! The guarantees of the dispatcher, stated over `dispatched` — the relation
//! its dispatch operations establish — and proved once for every
//! configuration, every event and every trace.

use vstd::prelude::*;

use crate::event::ActionEventReceiver;
use crate::event::Event;
use crate::event::KeyEventReceiver;
use crate::event::SystemEventReceiver;
use crate::event::action_payloads;
use crate::event::key_payloads;
use crate::event::lemma_action_payloads_concat;
use crate::event::lemma_key_payloads_concat;
use crate::event::lemma_payloads_singleton;
use crate::event::lemma_system_payloads_concat;
use crate::event::system_payloads;
use crate::manager::DefaultEventManager;
use crate::manager::dispatched;
use crate::manager::registered_count;

verus! {

/// A dispatcher that dispatches nothing changes nothing: `dispatched` is
/// reflexive on the empty trace.
pub proof fn lemma_dispatched_empty<
    K: KeyEventReceiver,
    A: ActionEventReceiver,
    S: SystemEventReceiver,
>(manager: DefaultEventManager<K, A, S>)
    ensures
        dispatched(manager, manager, Seq::<Event>::empty()),
{
    assert forall|i: int| 0 <= i < manager.key_list().len() implies (#[trigger] manager.key_list()[i]).received_keys()
        == manager.key_list()[i].received_keys() + key_payloads(Seq::<Event>::empty()) by {
        assert(manager.key_list()[i].received_keys() + key_payloads(Seq::<Event>::empty())
            =~= manager.key_list()[i].received_keys());
    }
    assert forall|i: int| 0 <= i < manager.action_list().len() implies (#[trigger] manager.action_list()[i]).received_actions()
        == manager.action_list()[i].received_actions() + action_payloads(Seq::<Event>::empty()) by {
        assert(manager.action_list()[i].received_actions() + action_payloads(Seq::<Event>::empty())
            =~= manager.action_list()[i].received_actions());
    }
    assert forall|i: int| 0 <= i < manager.system_list().len() implies (#[trigger] manager.system_list()[i]).received_systems()
        == manager.system_list()[i].received_systems() + system_payloads(Seq::<Event>::empty()) by {
        assert(manager.system_list()[i].received_systems() + system_payloads(Seq::<Event>::empty())
            =~= manager.system_list()[i].received_systems());
    }
}

/// Order preservation: dispatching trace `t1` and then trace `t2` is
/// dispatching `t1 + t2`. The dispatcher handles each event fully before the
/// next one, so traces compose sequentially, and every consumer observes the
/// payloads of its kind in exactly the order the events were delivered.
pub proof fn lemma_order_preservation<
    K: KeyEventReceiver,
    A: ActionEventReceiver,
    S: SystemEventReceiver,
>(
    first: DefaultEventManager<K, A, S>,
    middle: DefaultEventManager<K, A, S>,
    last: DefaultEventManager<K, A, S>,
    t1: Seq<Event>,
    t2: Seq<Event>,
)
    requires
        dispatched(first, middle, t1),
        dispatched(middle, last, t2),
    ensures
        dispatched(first, last, t1 + t2),
{
    lemma_key_payloads_concat(t1, t2);
    lemma_action_payloads_concat(t1, t2);
    lemma_system_payloads_concat(t1, t2);
    assert forall|i: int| 0 <= i < first.key_list().len() implies (#[trigger] last.key_list()[i]).received_keys()
        == first.key_list()[i].received_keys() + key_payloads(t1 + t2) by {
        assert((first.key_list()[i].received_keys() + key_payloads(t1)) + key_payloads(t2)
            =~= first.key_list()[i].received_keys() + (key_payloads(t1) + key_payloads(t2)));
    }
    assert forall|i: int| 0 <= i < first.action_list().len() implies (#[trigger] last.action_list()[i]).received_actions()
        == first.action_list()[i].received_actions() + action_payloads(t1 + t2) by {
        assert((first.action_list()[i].received_actions() + action_payloads(t1)) + action_payloads(
            t2,
        ) =~= first.action_list()[i].received_actions() + (action_payloads(t1) + action_payloads(
            t2,
        )));
    }
    assert forall|i: int| 0 <= i < first.system_list().len() implies (#[trigger] last.system_list()[i]).received_systems()
        == first.system_list()[i].received_systems() + system_payloads(t1 + t2) by {
        assert((first.system_list()[i].received_systems() + system_payloads(t1)) + system_payloads(
            t2,
        ) =~= first.system_list()[i].received_systems() + (system_payloads(t1) + system_payloads(
            t2,
        )));
    }
}

/// Kind isolation: dispatching one event invokes no consumer registered for
/// another kind — the other two consumer lists come out exactly as they went
/// in, every consumer in them untouched.
pub proof fn lemma_kind_isolation<
    K: KeyEventReceiver,
    A: ActionEventReceiver,
    S: SystemEventReceiver,
>(pre: DefaultEventManager<K, A, S>, post: DefaultEventManager<K, A, S>, event: Event)
    requires
        dispatched(pre, post, seq![event]),
    ensures
        !(event is Key) ==> post.key_list() == pre.key_list(),
        !(event is Action) ==> post.action_list() == pre.action_list(),
        !(event is System) ==> post.system_list() == pre.system_list(),
{
    lemma_payloads_singleton(event);
}

/// Fan-out: dispatching one event hands every consumer registered for its
/// kind exactly one new observation — the event's payload — whatever its
/// position in the list and however many stand beside it.
pub proof fn lemma_fanout<K: KeyEventReceiver, A: ActionEventReceiver, S: SystemEventReceiver>(
    pre: DefaultEventManager<K, A, S>,
    post: DefaultEventManager<K, A, S>,
    event: Event,
)
    requires
        dispatched(pre, post, seq![event]),
    ensures
        event matches Event::Key(payload) ==> forall|i: int|
            0 <= i < pre.key_list().len() ==> (#[trigger] post.key_list()[i]).received_keys()
                == pre.key_list()[i].received_keys().push(payload),
        event matches Event::Action(payload) ==> forall|i: int|
            0 <= i < pre.action_list().len() ==> (#[trigger] post.action_list()[i]).received_actions()
                == pre.action_list()[i].received_actions().push(payload),
        event matches Event::System(payload) ==> forall|i: int|
            0 <= i < pre.system_list().len() ==> (#[trigger] post.system_list()[i]).received_systems()
                == pre.system_list()[i].received_systems().push(payload),
{
    lemma_payloads_singleton(event);
    match event {
        Event::Key(payload) => {
            assert forall|i: int| 0 <= i < pre.key_list().len() implies (#[trigger] post.key_list()[i]).received_keys()
                == pre.key_list()[i].received_keys().push(payload) by {
                assert(pre.key_list()[i].received_keys() + seq![payload]
                    =~= pre.key_list()[i].received_keys().push(payload));
            }
        },
        Event::Action(payload) => {
            assert forall|i: int| 0 <= i < pre.action_list().len() implies (#[trigger] post.action_list()[i]).received_actions()
                == pre.action_list()[i].received_actions().push(payload) by {
                assert(pre.action_list()[i].received_actions() + seq![payload]
                    =~= pre.action_list()[i].received_actions().push(payload));
            }
        },
        Event::System(payload) => {
            assert forall|i: int| 0 <= i < pre.system_list().len() implies (#[trigger] post.system_list()[i]).received_systems()
                == pre.system_list()[i].received_systems().push(payload) by {
                assert(pre.system_list()[i].received_systems() + seq![payload]
                    =~= pre.system_list()[i].received_systems().push(payload));
            }
        },
    }
}

/// Payload isolation: each consumer's observation of a dispatched event is
/// its own duplicate, equal in value to the event's payload — so what any
/// one consumer does to its copy is not observable through any other
/// consumer of the same event.
pub proof fn lemma_payload_isolation<
    K: KeyEventReceiver,
    A: ActionEventReceiver,
    S: SystemEventReceiver,
>(pre: DefaultEventManager<K, A, S>, post: DefaultEventManager<K, A, S>, event: Event)
    requires
        dispatched(pre, post, seq![event]),
    ensures
        event matches Event::Key(payload) ==> forall|i: int|
            0 <= i < pre.key_list().len() ==> (#[trigger] post.key_list()[i]).received_keys().last()
                == payload,
        event matches Event::Action(payload) ==> forall|i: int|
            0 <= i < pre.action_list().len() ==> (#[trigger] post.action_list()[i]).received_actions().last()
                == payload,
        event matches Event::System(payload) ==> forall|i: int|
            0 <= i < pre.system_list().len() ==> (#[trigger] post.system_list()[i]).received_systems().last()
                == payload,
{
    lemma_fanout(pre, post, event);
}

/// Empty-list discard: an event whose kind has zero registered consumers
/// causes no invocation at all — the dispatcher comes out exactly as it went
/// in, and no error arises.
pub proof fn lemma_empty_list_discard<
    K: KeyEventReceiver,
    A: ActionEventReceiver,
    S: SystemEventReceiver,
>(pre: DefaultEventManager<K, A, S>, post: DefaultEventManager<K, A, S>, event: Event)
    requires
        dispatched(pre, post, seq![event]),
        registered_count(pre, event) == 0,
    ensures
        post.key_list() == pre.key_list(),
        post.action_list() == pre.action_list(),
        post.system_list() == pre.system_list(),
        post.channel() == pre.channel(),
{
    lemma_kind_isolation(pre, post, event);
    match event {
        Event::Key(_) => {
            assert(post.key_list() =~= pre.key_list());
        },
        Event::Action(_) => {
            assert(post.action_list() =~= pre.action_list());
        },
        Event::System(_) => {
            assert(post.system_list() =~= pre.system_list());
        },
    }
}

} // verus!
