//! The downstream side of the filter: an event sink, and a sink that records
//! what it is handed, for reasoning about and testing delivery order.

use crate::events::{ControlOp, Event};
use vstd::prelude::*;

verus! {

/// An event consumer (the terminal state, or any stand-in for it).
///
/// `events` is the sequence of events the sink has observed so far; each
/// entry point appends exactly one event to it. The filter wraps a sink and
/// forwards every event, after first draining its character buffer.
pub trait EventSink {
    /// The events this sink has observed, in the order they arrived.
    spec fn events(&self) -> Seq<Event>;

    /// Accept one literal character.
    fn accept_character(&mut self, c: char)
        ensures
            final(self).events() == old(self).events().push(Event::Character(c)),
    ;

    /// Accept one control operation with its arguments.
    fn accept_control_operation(&mut self, op: ControlOp)
        ensures
            final(self).events() == old(self).events().push(Event::Control(op)),
    ;
}

/// A sink that stores every event it is handed, in arrival order.
pub struct RecordingSink {
    log: Vec<Event>,
}

impl RecordingSink {
    /// An empty recording sink: nothing observed yet.
    pub fn new() -> (s: Self)
        ensures
            s.events() == Seq::<Event>::empty(),
    {
        RecordingSink { log: Vec::new() }
    }

    /// The events observed so far, in order.
    pub fn recorded(&self) -> (r: &Vec<Event>)
        ensures
            r@ == self.events(),
    {
        &self.log
    }

    /// Remove and return everything observed so far, oldest first; the sink
    /// is empty afterwards.
    pub fn take_events(&mut self) -> (r: Vec<Event>)
        ensures
            r@ == old(self).events(),
            final(self).events() == Seq::<Event>::empty(),
    {
        let mut out: Vec<Event> = Vec::new();
        core::mem::swap(&mut out, &mut self.log);
        out
    }
}

impl EventSink for RecordingSink {
    closed spec fn events(&self) -> Seq<Event> {
        self.log@
    }

    fn accept_character(&mut self, c: char) {
        self.log.push(Event::Character(c));
    }

    fn accept_control_operation(&mut self, op: ControlOp) {
        self.log.push(Event::Control(op));
    }
}

} // verus!
