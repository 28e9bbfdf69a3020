//! What holds of the event handlers taken together, stated over the rows of a
//! well-formed store.

use vstd::prelude::*;
use crate::events::database::{
    after_create_event, after_delete_event, after_update_event, create_event_outcome,
    delete_event_outcome, fetched, issued_after_create, keyed, lemma_slot, next_row, slot, stored,
    update_event_outcome,
};
use crate::events::handlers::{
    created_reply, found_reply, missing_reply, write_failure_reply, written_reply,
};
use crate::events::models::EventView;
use crate::response::{ok_with, BodyView, INTERNAL_SERVER_ERROR, NOT_FOUND};

verus! {

/// Create, then fetch: a create request that the store accepts is answered
/// with the stored event, which carries the submitted payload under a key
/// that no event had, and a fetch of that key returns the same event.
pub proof fn law_create_then_get_event(s: Seq<EventView>, issued: i32, payload: Seq<char>)
    requires
        keyed(s, issued),
        create_event_outcome(issued, payload) is Ok,
    ensures
        created_reply(create_event_outcome(issued, payload)) == ok_with(
            BodyView::Event(next_row(issued, payload)),
        ),
        next_row(issued, payload).payload == payload,
        !stored(s, next_row(issued, payload).id),
        keyed(after_create_event(s, issued, payload), issued_after_create(issued)),
        found_reply(fetched(after_create_event(s, issued, payload), next_row(issued, payload).id))
            == ok_with(BodyView::Event(next_row(issued, payload))),
{
    let row = next_row(issued, payload);
    let t = s.push(row);
    assert forall|i: int| 0 <= i < t.len() implies 1 <= (#[trigger] t[i]).id <= issued + 1 by {
        if i < s.len() {
            assert(t[i] == s[i]);
        }
    }
    assert forall|i: int, j: int| 0 <= i < j < t.len() implies (#[trigger] t[i]).id != (
    #[trigger] t[j]).id by {
        assert(t[i] == s[i]);
        if j < s.len() {
            assert(t[j] == s[j]);
        }
    }
    lemma_slot(t, issued_after_create(issued), row.id, s.len() as int);
}

/// Once the store has handed out its last key, a create request changes
/// nothing and is answered with 500.
pub proof fn law_create_event_exhausted(s: Seq<EventView>, payload: Seq<char>)
    ensures
        after_create_event(s, i32::MAX, payload) == s,
        issued_after_create(i32::MAX) == i32::MAX,
        created_reply(create_event_outcome(i32::MAX, payload)).status == INTERNAL_SERVER_ERROR,
{
}

/// Update of an event that is there: the answer is 200 with the submitted
/// event, and a fetch of its key returns it.
pub proof fn law_update_then_get_event(s: Seq<EventView>, issued: i32, e: EventView)
    requires
        keyed(s, issued),
        stored(s, e.id),
    ensures
        written_reply(update_event_outcome(s, e)) == ok_with(BodyView::Event(e)),
        keyed(after_update_event(s, e), issued),
        after_update_event(s, e).len() == s.len(),
        found_reply(fetched(after_update_event(s, e), e.id)) == ok_with(BodyView::Event(e)),
{
    let p = slot(s, e.id);
    let t = s.update(p, e);
    assert forall|i: int| 0 <= i < t.len() implies 1 <= (#[trigger] t[i]).id <= issued by {
        assert(t[i].id == s[i].id);
    }
    assert forall|i: int, j: int| 0 <= i < j < t.len() implies (#[trigger] t[i]).id != (
    #[trigger] t[j]).id by {
        assert(t[i].id == s[i].id);
        assert(t[j].id == s[j].id);
    }
    lemma_slot(t, issued, e.id, p);
}

/// Delete of an event that is there: the answer is 200 with the event as it
/// was, and a fetch of its key is answered with 404 from then on.
pub proof fn law_delete_then_get_event(s: Seq<EventView>, issued: i32, id: i32)
    requires
        keyed(s, issued),
        stored(s, id),
    ensures
        written_reply(delete_event_outcome(s, id)) == ok_with(BodyView::Event(s[slot(s, id)])),
        Some(s[slot(s, id)]) == fetched(s, id),
        keyed(after_delete_event(s, id), issued),
        after_delete_event(s, id).len() == s.len() - 1,
        !stored(after_delete_event(s, id), id),
        found_reply(fetched(after_delete_event(s, id), id)) == missing_reply(),
        missing_reply().status == NOT_FOUND,
{
    let p = slot(s, id);
    let t = s.remove(p);
    assert forall|i: int| 0 <= i < t.len() implies 1 <= (#[trigger] t[i]).id <= issued && t[i].id
        != id by {
        let k = if i < p {
            i
        } else {
            i + 1
        };
        assert(t[i] == s[k]);
        if s[k].id == id {
            lemma_slot(s, issued, id, k);
        }
    }
    assert forall|i: int, j: int| 0 <= i < j < t.len() implies (#[trigger] t[i]).id != (
    #[trigger] t[j]).id by {
        let a = if i < p {
            i
        } else {
            i + 1
        };
        let b = if j < p {
            j
        } else {
            j + 1
        };
        assert(t[i] == s[a]);
        assert(t[j] == s[b]);
    }
}

/// An update or a delete that names an event which is not there changes
/// nothing and is answered with 500. The answer is not 404: the store does
/// not say why it refused, and the handlers that write do not ask.
pub proof fn law_write_to_missing_event(s: Seq<EventView>, id: i32, payload: Seq<char>)
    requires
        !stored(s, id),
    ensures
        after_delete_event(s, id) == s,
        written_reply(delete_event_outcome(s, id)) == write_failure_reply(),
        after_update_event(s, EventView { id, payload }) == s,
        written_reply(update_event_outcome(s, EventView { id, payload })) == write_failure_reply(),
        write_failure_reply().status == INTERNAL_SERVER_ERROR,
        write_failure_reply().status != NOT_FOUND,
{
}

} // verus!
