//! Consumers that record every event they receive, in arrival order. They
//! implement the capability interfaces within the library, so the interface
//! contracts are known to be satisfiable, and they give callers a consumer
//! whose observations can be read back.

use vstd::prelude::*;

use crate::event::ActionEvent;
use crate::event::ActionEventReceiver;
use crate::event::KeyEvent;
use crate::event::KeyEventReceiver;
use crate::event::SystemEvent;
use crate::event::SystemEventReceiver;

verus! {

/// A key consumer that keeps the key events handed to it, oldest first.
pub struct RecordingKeyReceiver {
    entries: Vec<KeyEvent>,
}

impl RecordingKeyReceiver {
    /// A recorder that has observed nothing yet.
    pub fn new() -> (recorder: RecordingKeyReceiver)
        ensures
            recorder.received_keys() == Seq::<KeyEvent>::empty(),
    {
        RecordingKeyReceiver { entries: Vec::new() }
    }

    /// Every key event this consumer has been handed, in arrival order.
    pub fn recorded(&self) -> (entries: &Vec<KeyEvent>)
        ensures
            entries@ == self.received_keys(),
    {
        &self.entries
    }
}

impl KeyEventReceiver for RecordingKeyReceiver {
    closed spec fn received_keys(&self) -> Seq<KeyEvent> {
        self.entries@
    }

    fn on_key_event(&mut self, payload: KeyEvent) {
        self.entries.push(payload);
    }
}

/// An action consumer that keeps the action events handed to it.
pub struct RecordingActionReceiver {
    entries: Vec<ActionEvent>,
}

impl RecordingActionReceiver {
    /// A recorder that has observed nothing yet.
    pub fn new() -> (recorder: RecordingActionReceiver)
        ensures
            recorder.received_actions() == Seq::<ActionEvent>::empty(),
    {
        RecordingActionReceiver { entries: Vec::new() }
    }

    /// Every action event this consumer has been handed, in arrival order.
    pub fn recorded(&self) -> (entries: &Vec<ActionEvent>)
        ensures
            entries@ == self.received_actions(),
    {
        &self.entries
    }
}

impl ActionEventReceiver for RecordingActionReceiver {
    closed spec fn received_actions(&self) -> Seq<ActionEvent> {
        self.entries@
    }

    fn on_action_event(&mut self, payload: ActionEvent) {
        self.entries.push(payload);
    }
}

/// A system consumer that keeps the system events handed to it.
pub struct RecordingSystemReceiver {
    entries: Vec<SystemEvent>,
}

impl RecordingSystemReceiver {
    /// A recorder that has observed nothing yet.
    pub fn new() -> (recorder: RecordingSystemReceiver)
        ensures
            recorder.received_systems() == Seq::<SystemEvent>::empty(),
    {
        RecordingSystemReceiver { entries: Vec::new() }
    }

    /// Every system event this consumer has been handed, in arrival order.
    pub fn recorded(&self) -> (entries: &Vec<SystemEvent>)
        ensures
            entries@ == self.received_systems(),
    {
        &self.entries
    }
}

impl SystemEventReceiver for RecordingSystemReceiver {
    closed spec fn received_systems(&self) -> Seq<SystemEvent> {
        self.entries@
    }

    fn on_system_event(&mut self, payload: SystemEvent) {
        self.entries.push(payload);
    }
}

} // verus!
