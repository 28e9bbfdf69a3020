//! Event records.
//!
//! The service does not look inside an event: beyond its key a record is one
//! opaque payload, kept as text.

use vstd::prelude::*;

verus! {

/// A stored event as plain values.
pub struct EventView {
    pub id: i32,
    pub payload: Seq<char>,
}

/// A stored event.
#[derive(Debug, PartialEq, Eq)]
pub struct Event {
    pub id: i32,
    pub payload: String,
}

/// An event that has no key yet.
#[derive(Debug, PartialEq, Eq)]
pub struct NewEvent {
    pub payload: String,
}

impl View for Event {
    type V = EventView;

    open spec fn view(&self) -> EventView {
        EventView { id: self.id, payload: self.payload@ }
    }
}

impl View for NewEvent {
    type V = Seq<char>;

    open spec fn view(&self) -> Seq<char> {
        self.payload@
    }
}

impl Clone for Event {
    fn clone(&self) -> (r: Self)
        ensures
            r@ == self@,
    {
        Event { id: self.id, payload: self.payload.clone() }
    }
}

} // verus!
