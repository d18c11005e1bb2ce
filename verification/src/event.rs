//! The event model: a closed set of three event kinds, each carrying a
//! duplicable payload, and one capability interface per kind through which
//! consumers receive events.

use vstd::prelude::*;

verus! {

/// Payload of a keyboard event.
#[derive(Clone, Copy, PartialEq, Eq, Structural, Debug)]
pub struct KeyEvent {
    pub code: u32,
}

/// Payload of a higher-level action trigger.
#[derive(Clone, Copy, PartialEq, Eq, Structural, Debug)]
pub struct ActionEvent {
    pub action: u32,
}

/// Payload of a system-level notification.
#[derive(Clone, Copy, PartialEq, Eq, Structural, Debug)]
pub struct SystemEvent {
    pub signal: u32,
}

/// A tagged union with exactly three variants, one per event kind. Exactly
/// one variant is active per instance, and each wraps one payload value of a
/// distinct duplicable type.
#[derive(Clone, Copy, PartialEq, Eq, Structural, Debug)]
pub enum Event {
    Key(KeyEvent),
    Action(ActionEvent),
    System(SystemEvent),
}

/// The key events of `events`, in order: what the key consumers of a
/// dispatcher observe of a delivered trace.
pub open spec fn key_payloads(events: Seq<Event>) -> Seq<KeyEvent>
    decreases events.len(),
{
    if events.len() == 0 {
        Seq::empty()
    } else {
        match events.last() {
            Event::Key(payload) => key_payloads(events.drop_last()).push(payload),
            _ => key_payloads(events.drop_last()),
        }
    }
}

/// The action events of `events`, in order.
pub open spec fn action_payloads(events: Seq<Event>) -> Seq<ActionEvent>
    decreases events.len(),
{
    if events.len() == 0 {
        Seq::empty()
    } else {
        match events.last() {
            Event::Action(payload) => action_payloads(events.drop_last()).push(payload),
            _ => action_payloads(events.drop_last()),
        }
    }
}

/// The system events of `events`, in order.
pub open spec fn system_payloads(events: Seq<Event>) -> Seq<SystemEvent>
    decreases events.len(),
{
    if events.len() == 0 {
        Seq::empty()
    } else {
        match events.last() {
            Event::System(payload) => system_payloads(events.drop_last()).push(payload),
            _ => system_payloads(events.drop_last()),
        }
    }
}

/// Projecting the key events of a trace distributes over concatenation.
pub proof fn lemma_key_payloads_concat(a: Seq<Event>, b: Seq<Event>)
    ensures
        key_payloads(a + b) == key_payloads(a) + key_payloads(b),
    decreases b.len(),
{
    if b.len() == 0 {
        assert(a + b =~= a);
        assert(key_payloads(a) + key_payloads(b) =~= key_payloads(a));
    } else {
        lemma_key_payloads_concat(a, b.drop_last());
        assert((a + b).drop_last() =~= a + b.drop_last());
        assert((a + b).last() == b.last());
        match b.last() {
            Event::Key(payload) => {
                assert(key_payloads(a) + key_payloads(b) =~= (key_payloads(a) + key_payloads(
                    b.drop_last(),
                )).push(payload));
            },
            _ => {},
        }
    }
}

/// Projecting the action events of a trace distributes over concatenation.
pub proof fn lemma_action_payloads_concat(a: Seq<Event>, b: Seq<Event>)
    ensures
        action_payloads(a + b) == action_payloads(a) + action_payloads(b),
    decreases b.len(),
{
    if b.len() == 0 {
        assert(a + b =~= a);
        assert(action_payloads(a) + action_payloads(b) =~= action_payloads(a));
    } else {
        lemma_action_payloads_concat(a, b.drop_last());
        assert((a + b).drop_last() =~= a + b.drop_last());
        assert((a + b).last() == b.last());
        match b.last() {
            Event::Action(payload) => {
                assert(action_payloads(a) + action_payloads(b) =~= (action_payloads(a)
                    + action_payloads(b.drop_last())).push(payload));
            },
            _ => {},
        }
    }
}

/// Projecting the system events of a trace distributes over concatenation.
pub proof fn lemma_system_payloads_concat(a: Seq<Event>, b: Seq<Event>)
    ensures
        system_payloads(a + b) == system_payloads(a) + system_payloads(b),
    decreases b.len(),
{
    if b.len() == 0 {
        assert(a + b =~= a);
        assert(system_payloads(a) + system_payloads(b) =~= system_payloads(a));
    } else {
        lemma_system_payloads_concat(a, b.drop_last());
        assert((a + b).drop_last() =~= a + b.drop_last());
        assert((a + b).last() == b.last());
        match b.last() {
            Event::System(payload) => {
                assert(system_payloads(a) + system_payloads(b) =~= (system_payloads(a)
                    + system_payloads(b.drop_last())).push(payload));
            },
            _ => {},
        }
    }
}

/// What each projection makes of a one-event trace: the event's payload for
/// the matching kind, and nothing for the other two kinds.
pub proof fn lemma_payloads_singleton(e: Event)
    ensures
        e matches Event::Key(payload) ==> key_payloads(seq![e]) == seq![payload],
        !(e is Key) ==> key_payloads(seq![e]) == Seq::<KeyEvent>::empty(),
        e matches Event::Action(payload) ==> action_payloads(seq![e]) == seq![payload],
        !(e is Action) ==> action_payloads(seq![e]) == Seq::<ActionEvent>::empty(),
        e matches Event::System(payload) ==> system_payloads(seq![e]) == seq![payload],
        !(e is System) ==> system_payloads(seq![e]) == Seq::<SystemEvent>::empty(),
{
    reveal_with_fuel(key_payloads, 2);
    reveal_with_fuel(action_payloads, 2);
    reveal_with_fuel(system_payloads, 2);
    let s = seq![e];
    assert(s.last() == e);
    assert(s.drop_last() =~= Seq::<Event>::empty());
    match e {
        Event::Key(payload) => {
            assert(key_payloads(s) =~= seq![payload]);
        },
        Event::Action(payload) => {
            assert(action_payloads(s) =~= seq![payload]);
        },
        Event::System(payload) => {
            assert(system_payloads(s) =~= seq![payload]);
        },
    }
}

/// Capability interface for the Key kind: the single operation a consumer
/// must offer to receive key events. `received_keys` is the consumer's
/// observation history; each delivery appends exactly the delivered payload.
pub trait KeyEventReceiver: Sized {
    spec fn received_keys(&self) -> Seq<KeyEvent>;

    fn on_key_event(&mut self, payload: KeyEvent)
        ensures
            final(self).received_keys() == old(self).received_keys().push(payload),
    ;
}

/// Capability interface for the Action kind.
pub trait ActionEventReceiver: Sized {
    spec fn received_actions(&self) -> Seq<ActionEvent>;

    fn on_action_event(&mut self, payload: ActionEvent)
        ensures
            final(self).received_actions() == old(self).received_actions().push(payload),
    ;
}

/// Capability interface for the System kind.
pub trait SystemEventReceiver: Sized {
    spec fn received_systems(&self) -> Seq<SystemEvent>;

    fn on_system_event(&mut self, payload: SystemEvent)
        ensures
            final(self).received_systems() == old(self).received_systems().push(payload),
    ;
}

} // verus!
