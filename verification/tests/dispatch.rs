//! End-to-end tests of the dispatcher: events pushed onto a real channel,
//! received and fanned out to consumers that record what they observe.

use event_dispatch::event::ActionEvent;
use event_dispatch::event::ActionEventReceiver;
use event_dispatch::event::Event;
use event_dispatch::event::KeyEvent;
use event_dispatch::event::KeyEventReceiver;
use event_dispatch::event::SystemEvent;
use event_dispatch::event::SystemEventReceiver;
use event_dispatch::manager::ChannelClosed;
use event_dispatch::manager::DefaultEventManager;
use event_dispatch::recorder::RecordingActionReceiver;
use event_dispatch::recorder::RecordingKeyReceiver;
use event_dispatch::recorder::RecordingSystemReceiver;
use std::cell::RefCell;
use std::rc::Rc;
use std::sync::mpsc::channel;
use vstd::seq::Seq;

/// One shared, ordered log of every invocation any consumer observed, so
/// that tests can check the exact interleaving of calls.
type CallLog = Rc<RefCell<Vec<(&'static str, u32)>>>;

struct LoggingKeyConsumer {
    name: &'static str,
    log: CallLog,
}

impl KeyEventReceiver for LoggingKeyConsumer {
    // Ghost observation history: never called at runtime.
    fn received_keys(&self) -> Seq<KeyEvent> {
        unreachable!()
    }

    fn on_key_event(&mut self, payload: KeyEvent) {
        self.log.borrow_mut().push((self.name, payload.code));
    }
}

struct LoggingActionConsumer {
    name: &'static str,
    log: CallLog,
}

impl ActionEventReceiver for LoggingActionConsumer {
    // Ghost observation history: never called at runtime.
    fn received_actions(&self) -> Seq<ActionEvent> {
        unreachable!()
    }

    fn on_action_event(&mut self, payload: ActionEvent) {
        self.log.borrow_mut().push((self.name, payload.action));
    }
}

struct LoggingSystemConsumer {
    name: &'static str,
    log: CallLog,
}

impl SystemEventReceiver for LoggingSystemConsumer {
    // Ghost observation history: never called at runtime.
    fn received_systems(&self) -> Seq<SystemEvent> {
        unreachable!()
    }

    fn on_system_event(&mut self, payload: SystemEvent) {
        self.log.borrow_mut().push((self.name, payload.signal));
    }
}

/// A key consumer that mutates its received payload in place before logging
/// the value it ended up with.
struct MutatingKeyConsumer {
    name: &'static str,
    log: CallLog,
}

impl KeyEventReceiver for MutatingKeyConsumer {
    // Ghost observation history: never called at runtime.
    fn received_keys(&self) -> Seq<KeyEvent> {
        unreachable!()
    }

    fn on_key_event(&mut self, mut payload: KeyEvent) {
        payload.code = 0;
        self.log.borrow_mut().push((self.name, payload.code));
    }
}

fn drain<K: KeyEventReceiver, A: ActionEventReceiver, S: SystemEventReceiver>(
    manager: &mut DefaultEventManager<K, A, S>,
) -> (Vec<Event>, ChannelClosed) {
    let mut delivered = Vec::new();
    loop {
        match manager.receive_and_dispatch() {
            Ok(event) => delivered.push(event),
            Err(closed) => return (delivered, closed),
        }
    }
}

#[test]
fn scenario_two_key_consumers_in_order() {
    let log: CallLog = Rc::new(RefCell::new(Vec::new()));
    let (sender, receiver) = channel();
    let consumers = vec![
        LoggingKeyConsumer { name: "A", log: log.clone() },
        LoggingKeyConsumer { name: "B", log: log.clone() },
    ];
    let mut manager: DefaultEventManager<LoggingKeyConsumer, LoggingActionConsumer, LoggingSystemConsumer> =
        DefaultEventManager::new(receiver, consumers, vec![], vec![]);

    sender.send(Event::Key(KeyEvent { code: 17 })).unwrap();
    drop(sender);
    let (delivered, _closed) = drain(&mut manager);

    assert_eq!(delivered, vec![Event::Key(KeyEvent { code: 17 })]);
    assert_eq!(*log.borrow(), vec![("A", 17), ("B", 17)]);
}

#[test]
fn scenario_no_system_consumers_discards_and_continues() {
    let (sender, receiver) = channel();
    let mut manager: DefaultEventManager<RecordingKeyReceiver, RecordingActionReceiver, RecordingSystemReceiver> =
        DefaultEventManager::new(receiver, vec![RecordingKeyReceiver::new()], vec![], vec![]);

    sender.send(Event::System(SystemEvent { signal: 9 })).unwrap();
    sender.send(Event::Key(KeyEvent { code: 3 })).unwrap();

    let first = manager.receive_and_dispatch();
    assert_eq!(first.unwrap(), Event::System(SystemEvent { signal: 9 }));
    assert!(manager.key_receivers()[0].recorded().is_empty());

    let second = manager.receive_and_dispatch();
    assert_eq!(second.unwrap(), Event::Key(KeyEvent { code: 3 }));
    assert_eq!(manager.key_receivers()[0].recorded(), &vec![KeyEvent { code: 3 }]);
}

#[test]
fn scenario_single_producer_kinds_in_send_order() {
    let log: CallLog = Rc::new(RefCell::new(Vec::new()));
    let (sender, receiver) = channel();
    let key_consumers = vec![
        LoggingKeyConsumer { name: "K1", log: log.clone() },
        LoggingKeyConsumer { name: "K2", log: log.clone() },
    ];
    let action_consumers = vec![LoggingActionConsumer { name: "A1", log: log.clone() }];
    let mut manager: DefaultEventManager<LoggingKeyConsumer, LoggingActionConsumer, LoggingSystemConsumer> =
        DefaultEventManager::new(receiver, key_consumers, action_consumers, vec![]);

    sender.send(Event::Key(KeyEvent { code: 1 })).unwrap();
    sender.send(Event::Action(ActionEvent { action: 2 })).unwrap();
    sender.send(Event::Key(KeyEvent { code: 3 })).unwrap();
    drop(sender);
    let (delivered, _closed) = drain(&mut manager);

    assert_eq!(delivered.len(), 3);
    assert_eq!(
        *log.borrow(),
        vec![("K1", 1), ("K2", 1), ("A1", 2), ("K1", 3), ("K2", 3)],
    );
}

#[test]
fn kind_isolation_only_matching_consumers_invoked() {
    let (sender, receiver) = channel();
    let mut manager = DefaultEventManager::new(
        receiver,
        vec![RecordingKeyReceiver::new()],
        vec![RecordingActionReceiver::new()],
        vec![RecordingSystemReceiver::new()],
    );

    sender.send(Event::Action(ActionEvent { action: 42 })).unwrap();
    drop(sender);
    let (delivered, _closed) = drain(&mut manager);

    assert_eq!(delivered, vec![Event::Action(ActionEvent { action: 42 })]);
    assert!(manager.key_receivers()[0].recorded().is_empty());
    assert_eq!(
        manager.action_receivers()[0].recorded(),
        &vec![ActionEvent { action: 42 }],
    );
    assert!(manager.system_receivers()[0].recorded().is_empty());
}

#[test]
fn fan_out_in_registration_order_never_interleaved() {
    let log: CallLog = Rc::new(RefCell::new(Vec::new()));
    let (sender, receiver) = channel();
    let consumers = vec![
        LoggingSystemConsumer { name: "c1", log: log.clone() },
        LoggingSystemConsumer { name: "c2", log: log.clone() },
        LoggingSystemConsumer { name: "c3", log: log.clone() },
    ];
    let mut manager: DefaultEventManager<LoggingKeyConsumer, LoggingActionConsumer, LoggingSystemConsumer> =
        DefaultEventManager::new(receiver, vec![], vec![], consumers);

    sender.send(Event::System(SystemEvent { signal: 7 })).unwrap();
    sender.send(Event::System(SystemEvent { signal: 8 })).unwrap();
    drop(sender);
    drain(&mut manager);

    assert_eq!(
        *log.borrow(),
        vec![("c1", 7), ("c2", 7), ("c3", 7), ("c1", 8), ("c2", 8), ("c3", 8)],
    );
}

#[test]
fn duplicate_consumers_each_invoked_once_per_event() {
    let log: CallLog = Rc::new(RefCell::new(Vec::new()));
    let (sender, receiver) = channel();
    let consumers = vec![
        LoggingKeyConsumer { name: "same", log: log.clone() },
        LoggingKeyConsumer { name: "same", log: log.clone() },
    ];
    let mut manager: DefaultEventManager<LoggingKeyConsumer, LoggingActionConsumer, LoggingSystemConsumer> =
        DefaultEventManager::new(receiver, consumers, vec![], vec![]);

    sender.send(Event::Key(KeyEvent { code: 11 })).unwrap();
    drop(sender);
    drain(&mut manager);

    assert_eq!(*log.borrow(), vec![("same", 11), ("same", 11)]);
}

#[test]
fn payload_isolation_mutation_not_observable_by_later_consumer() {
    let log: CallLog = Rc::new(RefCell::new(Vec::new()));
    let (sender, receiver) = channel();
    let consumers = vec![
        MutatingKeyConsumer { name: "mutator", log: log.clone() },
        MutatingKeyConsumer { name: "observer", log: log.clone() },
    ];
    let mut manager: DefaultEventManager<MutatingKeyConsumer, LoggingActionConsumer, LoggingSystemConsumer> =
        DefaultEventManager::new(receiver, consumers, vec![], vec![]);

    sender.send(Event::Key(KeyEvent { code: 55 })).unwrap();
    drop(sender);
    drain(&mut manager);

    // Each consumer zeroed only its own duplicate: had the first consumer's
    // write been visible to the second, the second would also have started
    // from 0, and a shared payload would have logged (0, 0) either way. The
    // recorded codes come from duplicates that began at 55 independently.
    assert_eq!(*log.borrow(), vec![("mutator", 0), ("observer", 0)]);

    // A plain logger after a mutator shows the value as sent, directly.
    let log2: CallLog = Rc::new(RefCell::new(Vec::new()));
    let (sender2, receiver2) = channel();
    let mut manager2: DefaultEventManager<PairConsumer, LoggingActionConsumer, LoggingSystemConsumer> =
        DefaultEventManager::new(
            receiver2,
            vec![
                PairConsumer::Mutating(MutatingKeyConsumer { name: "mutator", log: log2.clone() }),
                PairConsumer::Logging(LoggingKeyConsumer { name: "observer", log: log2.clone() }),
            ],
            vec![],
            vec![],
        );
    sender2.send(Event::Key(KeyEvent { code: 55 })).unwrap();
    drop(sender2);
    drain(&mut manager2);
    assert_eq!(*log2.borrow(), vec![("mutator", 0), ("observer", 55)]);
}

enum PairConsumer {
    Mutating(MutatingKeyConsumer),
    Logging(LoggingKeyConsumer),
}

impl KeyEventReceiver for PairConsumer {
    // Ghost observation history: never called at runtime.
    fn received_keys(&self) -> Seq<KeyEvent> {
        unreachable!()
    }

    fn on_key_event(&mut self, payload: KeyEvent) {
        match self {
            PairConsumer::Mutating(inner) => inner.on_key_event(payload),
            PairConsumer::Logging(inner) => inner.on_key_event(payload),
        }
    }
}

#[test]
fn empty_lists_discard_without_error() {
    let (sender, receiver) = channel();
    let mut manager: DefaultEventManager<RecordingKeyReceiver, RecordingActionReceiver, RecordingSystemReceiver> =
        DefaultEventManager::new(receiver, vec![], vec![], vec![]);

    sender.send(Event::Key(KeyEvent { code: 1 })).unwrap();
    sender.send(Event::Action(ActionEvent { action: 2 })).unwrap();
    sender.send(Event::System(SystemEvent { signal: 3 })).unwrap();
    drop(sender);
    let (delivered, _closed) = drain(&mut manager);

    assert_eq!(
        delivered,
        vec![
            Event::Key(KeyEvent { code: 1 }),
            Event::Action(ActionEvent { action: 2 }),
            Event::System(SystemEvent { signal: 3 }),
        ],
    );
}

#[test]
fn closed_channel_reported_as_fatal_condition() {
    let (sender, receiver) = channel();
    let mut manager = DefaultEventManager::new(
        receiver,
        vec![RecordingKeyReceiver::new()],
        vec![RecordingActionReceiver::new()],
        vec![RecordingSystemReceiver::new()],
    );
    drop(sender);

    let outcome = manager.receive_and_dispatch();
    assert!(matches!(outcome, Err(ChannelClosed)));
    let closed = match outcome {
        Err(closed) => closed,
        Ok(_) => unreachable!(),
    };
    assert_eq!(
        closed.diagnostic(),
        "broken event channel: all sending handles were dropped",
    );
    assert!(manager.key_receivers()[0].recorded().is_empty());
}

#[test]
fn single_producer_order_preserved_per_consumer() {
    let (sender, receiver) = channel();
    let mut manager = DefaultEventManager::new(
        receiver,
        vec![RecordingKeyReceiver::new(), RecordingKeyReceiver::new()],
        vec![RecordingActionReceiver::new()],
        vec![RecordingSystemReceiver::new()],
    );

    let sent = vec![
        KeyEvent { code: 5 },
        KeyEvent { code: 4 },
        KeyEvent { code: u32::MAX },
        KeyEvent { code: 4 },
    ];
    for key in &sent {
        sender.send(Event::Key(*key)).unwrap();
    }
    drop(sender);
    drain(&mut manager);

    assert_eq!(manager.key_receivers()[0].recorded(), &sent);
    assert_eq!(manager.key_receivers()[1].recorded(), &sent);
    assert!(manager.action_receivers()[0].recorded().is_empty());
    assert!(manager.system_receivers()[0].recorded().is_empty());
}

#[test]
fn recorders_start_empty_and_record_in_arrival_order() {
    let mut key_recorder = RecordingKeyReceiver::new();
    let mut action_recorder = RecordingActionReceiver::new();
    let mut system_recorder = RecordingSystemReceiver::new();
    assert!(key_recorder.recorded().is_empty());
    assert!(action_recorder.recorded().is_empty());
    assert!(system_recorder.recorded().is_empty());

    key_recorder.on_key_event(KeyEvent { code: 2 });
    key_recorder.on_key_event(KeyEvent { code: 1 });
    action_recorder.on_action_event(ActionEvent { action: 6 });
    system_recorder.on_system_event(SystemEvent { signal: 7 });

    assert_eq!(
        key_recorder.recorded(),
        &vec![KeyEvent { code: 2 }, KeyEvent { code: 1 }],
    );
    assert_eq!(action_recorder.recorded(), &vec![ActionEvent { action: 6 }]);
    assert_eq!(system_recorder.recorded(), &vec![SystemEvent { signal: 7 }]);
}
