//! The ordered queue between the surface's listeners and the frame driver.

use crate::event::Event;
use vstd::prelude::*;

verus! {

/// Events in the order in which they arrived. Listeners append at the back;
/// the frame driver empties the queue once per frame.
#[derive(Debug)]
pub struct EventQueue {
    items: Vec<Event>,
}

impl View for EventQueue {
    type V = Seq<Event>;

    closed spec fn view(&self) -> Seq<Event> {
        self.items@
    }
}

impl EventQueue {
    pub fn new() -> (queue: EventQueue)
        ensures
            queue@ == Seq::<Event>::empty(),
    {
        EventQueue { items: Vec::new() }
    }

    /// Appends `event` behind everything that arrived before it.
    pub fn push(&mut self, event: Event)
        ensures
            final(self)@ == old(self)@.push(event),
    {
        self.items.push(event);
    }

    /// Empties the queue.
    pub fn clear(&mut self)
        ensures
            final(self)@ == Seq::<Event>::empty(),
    {
        self.items.clear();
    }

    pub fn len(&self) -> (n: usize)
        ensures
            n == self@.len(),
    {
        self.items.len()
    }

    pub fn is_empty(&self) -> (empty: bool)
        ensures
            empty == (self@.len() == 0),
    {
        self.items.len() == 0
    }

    /// The event at position `index` in arrival order, if there is one.
    pub fn get(&self, index: usize) -> (event: Option<Event>)
        ensures
            event == if index < self@.len() {
                Some(self@[index as int])
            } else {
                None
            },
    {
        if index < self.items.len() {
            Some(self.items[index])
        } else {
            None
        }
    }

    /// The queued events in arrival order.
    pub fn as_slice(&self) -> (events: &[Event])
        ensures
            events@ == self@,
    {
        self.items.as_slice()
    }
}

} // verus!
