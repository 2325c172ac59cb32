//! Notifications: one event per successful mutation, kept in the order in
//! which they were emitted.

use vstd::prelude::*;
use crate::domain::Pubkey;

verus! {

/// A notification about a mutation that took place.
#[derive(Debug, PartialEq, Eq)]
pub enum Event {
    /// A record was created under `id`.
    DomainCreated { id: u64, owner: Pubkey, name: String, dom_type: u8 },
    /// The type of the record under `id` was set to `dom_type`.
    DomainUpdated { id: u64, dom_type: u8 },
}

/// What an `Event` holds, as plain values.
pub enum EventView {
    DomainCreated { id: u64, owner: Pubkey, name: Seq<char>, dom_type: u8 },
    DomainUpdated { id: u64, dom_type: u8 },
}

impl View for Event {
    type V = EventView;

    open spec fn view(&self) -> EventView {
        match *self {
            Event::DomainCreated { id, owner, name, dom_type } => EventView::DomainCreated {
                id,
                owner,
                name: name@,
                dom_type,
            },
            Event::DomainUpdated { id, dom_type } => EventView::DomainUpdated { id, dom_type },
        }
    }
}

impl Clone for Event {
    fn clone(&self) -> (copy: Event)
        ensures
            copy@ == self@,
    {
        match self {
            Event::DomainCreated { id, owner, name, dom_type } => Event::DomainCreated {
                id: *id,
                owner: *owner,
                name: name.clone(),
                dom_type: *dom_type,
            },
            Event::DomainUpdated { id, dom_type } => Event::DomainUpdated {
                id: *id,
                dom_type: *dom_type,
            },
        }
    }
}

/// An append-only log of events. Nothing is ever removed or rewritten.
#[derive(Debug, PartialEq, Eq)]
pub struct EventSink {
    entries: Vec<Event>,
}

impl View for EventSink {
    type V = Seq<EventView>;

    closed spec fn view(&self) -> Seq<EventView> {
        self.entries@.map_values(|e: Event| e@)
    }
}

impl Clone for EventSink {
    /// A second sink that holds the same events in the same order.
    fn clone(&self) -> (copy: EventSink)
        ensures
            copy@ == self@,
    {
        let mut entries: Vec<Event> = Vec::new();
        let mut i: usize = 0;
        while i < self.entries.len()
            invariant
                i <= self.entries@.len(),
                entries@.len() == i,
                forall|j: int| 0 <= j < i ==> (#[trigger] entries@[j])@ == self.entries@[j]@,
            decreases self.entries@.len() - i,
        {
            entries.push(self.entries[i].clone());
            i += 1;
        }
        assert(entries@.map_values(|e: Event| e@) =~= self.entries@.map_values(|e: Event| e@));
        EventSink { entries }
    }
}

impl EventSink {
    /// A sink into which nothing was emitted yet.
    pub fn new() -> (sink: EventSink)
        ensures
            sink@ == Seq::<EventView>::empty(),
    {
        EventSink { entries: Vec::new() }
    }

    /// Appends `event` behind all events emitted so far.
    pub fn emit(&mut self, event: Event)
        ensures
            final(self)@ == old(self)@.push(event@),
    {
        self.entries.push(event);
        assert(self.entries@.map_values(|e: Event| e@) =~= old(self).entries@.map_values(
            |e: Event| e@,
        ).push(event@));
    }

    /// The number of events emitted so far.
    pub fn len(&self) -> (n: usize)
        ensures
            n == self@.len(),
    {
        self.entries.len()
    }

    /// The event emitted as number `i`, counting from 0.
    pub fn get(&self, i: usize) -> (found: Option<&Event>)
        ensures
            match found {
                Some(event) => i < self@.len() && event@ == self@[i as int],
                None => i >= self@.len(),
            },
    {
        if i < self.entries.len() {
            Some(&self.entries[i])
        } else {
            None
        }
    }

    /// All events emitted so far, oldest first.
    pub fn entries(&self) -> (all: &[Event])
        ensures
            all@.len() == self@.len(),
            forall|i: int| 0 <= i < all@.len() ==> (#[trigger] all@[i])@ == self@[i],
    {
        self.entries.as_slice()
    }
}

} // verus!
