//! The event handlers: what each request does to the store and what it
//! answers.
//!
//! The store reports every refusal alike, and so do the handlers that write:
//! an update or a delete that names a missing event is answered with 500, not
//! with 404. Only a fetch tells a missing event apart.

use vstd::prelude::*;
use crate::error::StoreError;
use crate::events::database::{
    after_create_event, after_delete_event, after_update_event, create_event_outcome,
    delete_event_outcome, event_view_of, event_views, fetched, issued_after_create,
    update_event_outcome, Database,
};
use crate::events::models::{Event, EventView, NewEvent};
use crate::response::{
    message, ok_with, Body, BodyView, Response, ResponseView, INTERNAL_SERVER_ERROR, NOT_FOUND,
};
use crate::routes::{route, Handler, Method, Route, RouteView, Scope};

verus! {

/// The answer to a fetch of a missing event.
pub open spec fn missing_reply() -> ResponseView {
    message(NOT_FOUND, "Not Found"@)
}

/// The answer to a create request that the store refused.
pub open spec fn create_failure_reply() -> ResponseView {
    message(INTERNAL_SERVER_ERROR, "Internal Server Error."@)
}

/// The answer to an update or delete that the store refused.
pub open spec fn write_failure_reply() -> ResponseView {
    message(INTERNAL_SERVER_ERROR, "Internal Server Error"@)
}

/// The answer to a fetch: 200 with the event, or 404.
pub open spec fn found_reply(found: Option<EventView>) -> ResponseView {
    match found {
        Some(e) => ok_with(BodyView::Event(e)),
        None => missing_reply(),
    }
}

/// The answer to a create request, given what the store said: 200 with the
/// stored event, or 500.
pub open spec fn created_reply(outcome: Result<EventView, StoreError>) -> ResponseView {
    match outcome {
        Ok(e) => ok_with(BodyView::Event(e)),
        Err(_) => create_failure_reply(),
    }
}

/// The answer to an update or delete, given what the store said: 200 with
/// the event, or 500.
pub open spec fn written_reply(outcome: Result<EventView, StoreError>) -> ResponseView {
    match outcome {
        Ok(e) => ok_with(BodyView::Event(e)),
        Err(_) => write_failure_reply(),
    }
}

/// The answer to a listing, given the rows that the store holds.
pub fn events_response(rows: Vec<Event>) -> (r: Response)
    ensures
        r@ == ok_with(BodyView::Events(event_views(rows@))),
{
    Response::ok(Body::Events(rows))
}

/// The answer to a fetch, given the row that the store found.
pub fn found_response(found: Option<Event>) -> (r: Response)
    ensures
        r@ == found_reply(event_view_of(found)),
{
    match found {
        Some(e) => Response::ok(Body::Event(e)),
        None => Response::text(NOT_FOUND, "Not Found"),
    }
}

/// The answer to a create request, given what the store said.
pub fn created_response<E>(outcome: Result<Event, E>) -> (r: Response)
    ensures
        r@ == match outcome {
            Ok(e) => ok_with(BodyView::Event(e@)),
            Err(_) => create_failure_reply(),
        },
{
    match outcome {
        Ok(e) => Response::ok(Body::Event(e)),
        Err(_) => Response::text(INTERNAL_SERVER_ERROR, "Internal Server Error."),
    }
}

/// The answer to an update or delete, given what the store said.
pub fn written_response<E>(outcome: Result<Event, E>) -> (r: Response)
    ensures
        r@ == match outcome {
            Ok(e) => ok_with(BodyView::Event(e@)),
            Err(_) => write_failure_reply(),
        },
{
    match outcome {
        Ok(e) => Response::ok(Body::Event(e)),
        Err(_) => Response::text(INTERNAL_SERVER_ERROR, "Internal Server Error"),
    }
}

/// Answers with every event, in store order.
pub fn get_events(db: &Database) -> (r: Response)
    ensures
        r@ == ok_with(BodyView::Events(db@)),
{
    events_response(db.get_events())
}

/// Answers with the event `id`, or with 404.
pub fn get_event(db: &Database, id: i32) -> (r: Response)
    requires
        db.wf(),
    ensures
        r@ == found_reply(fetched(db@, id)),
{
    found_response(db.get_event(id))
}

/// Stores `event` under the next key and answers with the stored event. Once
/// the store has handed out its last key it stays as it is, and the answer is
/// 500.
pub fn create_event(db: &mut Database, event: NewEvent) -> (r: Response)
    requires
        old(db).wf(),
    ensures
        final(db).wf(),
        final(db)@ == after_create_event(old(db)@, old(db).issued(), event@),
        final(db).issued() == issued_after_create(old(db).issued()),
        r@ == created_reply(create_event_outcome(old(db).issued(), event@)),
{
    let outcome = db.create_event(event);
    created_response(outcome)
}

/// Puts `event` in place of the stored event that has its key and answers
/// with it. When no event has that key the store stays as it is, and the
/// answer is 500.
pub fn update_event(db: &mut Database, event: Event) -> (r: Response)
    requires
        old(db).wf(),
    ensures
        final(db).wf(),
        final(db).issued() == old(db).issued(),
        final(db)@ == after_update_event(old(db)@, event@),
        r@ == written_reply(update_event_outcome(old(db)@, event@)),
{
    let outcome = db.update_event(event);
    written_response(outcome)
}

/// Removes the event `id` and answers with the event as it was. When no
/// event has that key the store stays as it is, and the answer is 500.
pub fn delete_event(db: &mut Database, id: i32) -> (r: Response)
    requires
        old(db).wf(),
    ensures
        final(db).wf(),
        final(db).issued() == old(db).issued(),
        final(db)@ == after_delete_event(old(db)@, id),
        r@ == written_reply(delete_event_outcome(old(db)@, id)),
{
    let outcome = db.delete_event(id);
    written_response(outcome)
}

/// The route table of the event service.
pub open spec fn event_routes() -> Seq<RouteView> {
    seq![
        route(Method::Get, "/events", Handler::GetEvents),
        route(Method::Get, "/event/{id}", Handler::GetEvent),
        route(Method::Post, "/event", Handler::CreateEvent),
        route(Method::Put, "/event", Handler::UpdateEvent),
        route(Method::Delete, "/event/{id}", Handler::DeleteEvent),
    ]
}

/// The routes of the event service, below `/api`.
pub fn init_routes() -> (scope: Scope)
    ensures
        scope@.prefix == "/api"@,
        scope@.routes == event_routes(),
{
    let mut routes: Vec<Route> = Vec::new();
    routes.push(Route::new(Method::Get, "/events", Handler::GetEvents));
    routes.push(Route::new(Method::Get, "/event/{id}", Handler::GetEvent));
    routes.push(Route::new(Method::Post, "/event", Handler::CreateEvent));
    routes.push(Route::new(Method::Put, "/event", Handler::UpdateEvent));
    routes.push(Route::new(Method::Delete, "/event/{id}", Handler::DeleteEvent));
    let scope = Scope { prefix: "/api", routes };
    assert(scope@.routes =~= event_routes());
    scope
}

} // verus!
