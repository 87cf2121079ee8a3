//! A FIFO of window events with one producer and one consumer; the caller
//! guards each queue with its own lock, held only for a push or a drain.
use vstd::prelude::*;

use crate::event::WindowEvent;

verus! {

/// Pending events for one driver, oldest first.
pub struct EventQueue {
    events: Vec<WindowEvent>,
}

impl View for EventQueue {
    type V = Seq<WindowEvent>;

    closed spec fn view(&self) -> Seq<WindowEvent> {
        self.events@
    }
}

impl EventQueue {
    /// An empty queue.
    pub fn new() -> (r: Self)
        ensures
            r@ == Seq::<WindowEvent>::empty(),
    {
        EventQueue { events: Vec::new() }
    }

    /// Appends an event behind all pending ones.
    pub fn push(&mut self, e: WindowEvent)
        ensures
            final(self)@ == old(self)@.push(e),
    {
        self.events.push(e);
    }

    /// Removes and returns every pending event, oldest first.
    pub fn drain(&mut self) -> (r: Vec<WindowEvent>)
        ensures
            r@ == old(self)@,
            final(self)@ == Seq::<WindowEvent>::empty(),
    {
        let mut out: Vec<WindowEvent> = Vec::new();
        std::mem::swap(&mut out, &mut self.events);
        out
    }

    /// Number of pending events.
    pub fn len(&self) -> (r: usize)
        ensures
            r == self@.len(),
    {
        self.events.len()
    }

    /// Whether no event is pending.
    pub fn is_empty(&self) -> (r: bool)
        ensures
            r == (self@.len() == 0),
    {
        self.events.len() == 0
    }
}

} // verus!
