//! The event store: rows in insertion order under keys that count up from 1
//! and are never handed out twice.

use vstd::prelude::*;
use crate::error::StoreError;
use crate::events::models::{Event, EventView, NewEvent};

verus! {

/// The rows as plain values, in order.
pub open spec fn event_views(rows: Seq<Event>) -> Seq<EventView> {
    rows.map_values(|e: Event| e@)
}

/// The row that an optional event stands for.
pub open spec fn event_view_of(e: Option<Event>) -> Option<EventView> {
    match e {
        Some(row) => Some(row@),
        None => None,
    }
}

/// The outcome of a statement with the row, if any, as plain values.
pub open spec fn outcome_of(r: Result<Event, StoreError>) -> Result<EventView, StoreError> {
    match r {
        Ok(row) => Ok(row@),
        Err(e) => Err(e),
    }
}

/// Some row of `s` has key `id`.
pub open spec fn stored(s: Seq<EventView>, id: i32) -> bool {
    exists|i: int| 0 <= i < s.len() && (#[trigger] s[i]).id == id
}

/// Where the row with key `id` stands in `s`. Meaningful when
/// `stored(s, id)`.
pub open spec fn slot(s: Seq<EventView>, id: i32) -> int {
    choose|i: int| 0 <= i < s.len() && (#[trigger] s[i]).id == id
}

/// The row with key `id`, if there is one.
pub open spec fn fetched(s: Seq<EventView>, id: i32) -> Option<EventView> {
    if stored(s, id) {
        Some(s[slot(s, id)])
    } else {
        None
    }
}

/// No two rows share a key, and every key is one of the first `issued`.
pub open spec fn keyed(s: Seq<EventView>, issued: i32) -> bool {
    &&& 0 <= issued
    &&& forall|i: int| 0 <= i < s.len() ==> 1 <= (#[trigger] s[i]).id <= issued
    &&& forall|i: int, j: int|
        0 <= i < j < s.len() ==> (#[trigger] s[i]).id != (#[trigger] s[j]).id
}

/// The event that the next create request stores, in a store that has handed
/// out `issued` keys.
pub open spec fn next_row(issued: i32, payload: Seq<char>) -> EventView {
    EventView { id: (issued + 1) as i32, payload }
}

/// What a create request with `payload` returns from a store that has handed
/// out `issued` keys: the stored row, or a refusal once the keys have run
/// out.
pub open spec fn create_event_outcome(issued: i32, payload: Seq<char>) -> Result<
    EventView,
    StoreError,
> {
    if issued < i32::MAX {
        Ok(next_row(issued, payload))
    } else {
        Err(StoreError::OutOfKeys)
    }
}

/// The rows after that create request.
pub open spec fn after_create_event(s: Seq<EventView>, issued: i32, payload: Seq<char>) -> Seq<
    EventView,
> {
    if issued < i32::MAX {
        s.push(next_row(issued, payload))
    } else {
        s
    }
}

/// The keys handed out after that create request.
pub open spec fn issued_after_create(issued: i32) -> i32 {
    if issued < i32::MAX {
        (issued + 1) as i32
    } else {
        issued
    }
}

/// What an update with `e` returns: `e`, or a refusal when no row has its
/// key.
pub open spec fn update_event_outcome(s: Seq<EventView>, e: EventView) -> Result<
    EventView,
    StoreError,
> {
    if stored(s, e.id) {
        Ok(e)
    } else {
        Err(StoreError::NoSuchRow)
    }
}

/// The rows after that update.
pub open spec fn after_update_event(s: Seq<EventView>, e: EventView) -> Seq<EventView> {
    if stored(s, e.id) {
        s.update(slot(s, e.id), e)
    } else {
        s
    }
}

/// What a delete of `id` returns: the row as it was, or a refusal when no
/// row has that key.
pub open spec fn delete_event_outcome(s: Seq<EventView>, id: i32) -> Result<
    EventView,
    StoreError,
> {
    if stored(s, id) {
        Ok(s[slot(s, id)])
    } else {
        Err(StoreError::NoSuchRow)
    }
}

/// The rows after that delete.
pub open spec fn after_delete_event(s: Seq<EventView>, id: i32) -> Seq<EventView> {
    if stored(s, id) {
        s.remove(slot(s, id))
    } else {
        s
    }
}

/// In a store without duplicates, a row found at `i` is the row that `slot`
/// and `fetched` speak of.
pub proof fn lemma_slot(s: Seq<EventView>, issued: i32, id: i32, i: int)
    requires
        keyed(s, issued),
        0 <= i < s.len(),
        s[i].id == id,
    ensures
        stored(s, id),
        slot(s, id) == i,
        fetched(s, id) == Some(s[i]),
{
    let p = slot(s, id);
    assert(0 <= p < s.len() && s[p].id == id);
    if p < i {
        assert(s[p].id != s[i].id);
    } else if i < p {
        assert(s[i].id != s[p].id);
    }
}

/// The in-memory event store.
pub struct Database {
    rows: Vec<Event>,
    issued: i32,
}

impl View for Database {
    type V = Seq<EventView>;

    closed spec fn view(&self) -> Seq<EventView> {
        event_views(self.rows@)
    }
}

impl Database {
    /// The last key handed out; 0 before the first.
    pub closed spec fn issued(&self) -> i32 {
        self.issued
    }

    /// Keys are unique and lie among those handed out. Every store that this
    /// module hands out is well formed, and every method keeps it so.
    pub open spec fn wf(&self) -> bool {
        keyed(self@, self.issued())
    }

    /// An empty store that has handed out no key.
    pub fn new() -> (db: Database)
        ensures
            db.wf(),
            db@ == Seq::<EventView>::empty(),
            db.issued() == 0,
    {
        let db = Database { rows: Vec::new(), issued: 0 };
        assert(db@ =~= Seq::<EventView>::empty());
        db
    }

    /// The index of the row with key `id`.
    fn find(&self, id: i32) -> (r: Option<usize>)
        requires
            self.wf(),
        ensures
            match r {
                Some(i) => i < self@.len() && self@[i as int].id == id && slot(self@, id) == i
                    && stored(self@, id),
                None => !stored(self@, id),
            },
    {
        let mut i: usize = 0;
        while i < self.rows.len()
            invariant
                self.wf(),
                i <= self.rows.len(),
                forall|j: int| 0 <= j < i ==> (#[trigger] self@[j]).id != id,
            decreases self.rows.len() - i,
        {
            if self.rows[i].id == id {
                proof {
                    lemma_slot(self@, self.issued(), id, i as int);
                }
                return Some(i);
            }
            i += 1;
        }
        None
    }

    /// Every row, in order.
    pub fn get_events(&self) -> (out: Vec<Event>)
        ensures
            event_views(out@) == self@,
    {
        let mut out: Vec<Event> = Vec::new();
        let mut i: usize = 0;
        while i < self.rows.len()
            invariant
                i <= self.rows.len(),
                event_views(out@) == self@.take(i as int),
            decreases self.rows.len() - i,
        {
            let ghost before = out@;
            out.push(self.rows[i].clone());
            proof {
                assert(event_views(out@) =~= event_views(before).push(self@[i as int]));
                assert(self@.take(i + 1) =~= self@.take(i as int).push(self@[i as int]));
            }
            i += 1;
        }
        proof {
            assert(self@.take(self.rows.len() as int) =~= self@);
        }
        out
    }

    /// The row with key `id`, if the store has one.
    pub fn get_event(&self, id: i32) -> (r: Option<Event>)
        requires
            self.wf(),
        ensures
            event_view_of(r) == fetched(self@, id),
    {
        match self.find(id) {
            Some(i) => Some(self.rows[i].clone()),
            None => None,
        }
    }

    /// Stores `event` under the next key and returns the stored row. Refused,
    /// with the store unchanged, once the last key has been handed out.
    pub fn create_event(&mut self, event: NewEvent) -> (r: Result<Event, StoreError>)
        requires
            old(self).wf(),
        ensures
            final(self).wf(),
            outcome_of(r) == create_event_outcome(old(self).issued(), event@),
            final(self)@ == after_create_event(old(self)@, old(self).issued(), event@),
            final(self).issued() == issued_after_create(old(self).issued()),
    {
        if self.issued == i32::MAX {
            return Err(StoreError::OutOfKeys);
        }
        let ghost before = event_views(self.rows@);
        let row = Event { id: self.issued + 1, payload: event.payload };
        let copy = row.clone();
        self.issued = self.issued + 1;
        self.rows.push(row);
        proof {
            assert(event_views(self.rows@) =~= before.push(copy@));
        }
        Ok(copy)
    }

    /// Puts `event` in place of the row that has its key and returns it.
    /// Refused, with the store unchanged, when no row has that key.
    pub fn update_event(&mut self, event: Event) -> (r: Result<Event, StoreError>)
        requires
            old(self).wf(),
        ensures
            final(self).wf(),
            final(self).issued() == old(self).issued(),
            outcome_of(r) == update_event_outcome(old(self)@, event@),
            final(self)@ == after_update_event(old(self)@, event@),
    {
        match self.find(event.id) {
            Some(i) => {
                let ghost before = event_views(self.rows@);
                let copy = event.clone();
                self.rows[i] = event;
                proof {
                    assert(event_views(self.rows@) =~= before.update(i as int, copy@));
                }
                Ok(copy)
            },
            None => Err(StoreError::NoSuchRow),
        }
    }

    /// Removes the row with key `id` and returns it as it was. Refused, with
    /// the store unchanged, when no row has that key.
    pub fn delete_event(&mut self, id: i32) -> (r: Result<Event, StoreError>)
        requires
            old(self).wf(),
        ensures
            final(self).wf(),
            final(self).issued() == old(self).issued(),
            outcome_of(r) == delete_event_outcome(old(self)@, id),
            final(self)@ == after_delete_event(old(self)@, id),
    {
        match self.find(id) {
            Some(i) => {
                let ghost before = event_views(self.rows@);
                let row = self.rows.remove(i);
                proof {
                    assert(event_views(self.rows@) =~= before.remove(i as int));
                }
                Ok(row)
            },
            None => Err(StoreError::NoSuchRow),
        }
    }
}

} // verus!
