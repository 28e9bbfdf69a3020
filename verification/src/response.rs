//! What a handler answers: a status code and a body.

use vstd::prelude::*;
use crate::articles::models::{Article, ArticleView};
use crate::articles::table::views;
use crate::events::database::event_views;
use crate::events::models::{Event, EventView};

verus! {

/// The request was served.
pub const OK: u16 = 200;

/// The record that the request names is not there.
pub const NOT_FOUND: u16 = 404;

/// The store refused or failed the statement.
pub const INTERNAL_SERVER_ERROR: u16 = 500;

/// No connection to the store could be had.
pub const SERVICE_UNAVAILABLE: u16 = 503;

/// A response body as plain values.
pub enum BodyView {
    Empty,
    Text(Seq<char>),
    Id(u128),
    Article(ArticleView),
    Articles(Seq<ArticleView>),
    Event(EventView),
    Events(Seq<EventView>),
}

/// A response as plain values.
pub struct ResponseView {
    pub status: u16,
    pub body: BodyView,
}

/// A response body, before it is serialised.
#[derive(Debug, PartialEq, Eq)]
pub enum Body {
    /// Nothing.
    Empty,
    /// A plain-text message.
    Text(String),
    /// The identifier of a new article.
    Id(u128),
    /// One article.
    Article(Article),
    /// Articles, in table order.
    Articles(Vec<Article>),
    /// One event.
    Event(Event),
    /// Events, in store order.
    Events(Vec<Event>),
}

/// A status code with a body.
#[derive(Debug, PartialEq, Eq)]
pub struct Response {
    pub status: u16,
    pub body: Body,
}

impl View for Body {
    type V = BodyView;

    open spec fn view(&self) -> BodyView {
        match self {
            Body::Empty => BodyView::Empty,
            Body::Text(t) => BodyView::Text(t@),
            Body::Id(id) => BodyView::Id(*id),
            Body::Article(a) => BodyView::Article(a@),
            Body::Articles(rows) => BodyView::Articles(views(rows@)),
            Body::Event(e) => BodyView::Event(e@),
            Body::Events(rows) => BodyView::Events(event_views(rows@)),
        }
    }
}

impl View for Response {
    type V = ResponseView;

    open spec fn view(&self) -> ResponseView {
        ResponseView { status: self.status, body: self.body@ }
    }
}

/// Status 200 with `body`.
pub open spec fn ok_with(body: BodyView) -> ResponseView {
    ResponseView { status: OK, body }
}

/// Status `status` with no body.
pub open spec fn bare(status: u16) -> ResponseView {
    ResponseView { status, body: BodyView::Empty }
}

/// Status `status` with the message `text`.
pub open spec fn message(status: u16, text: Seq<char>) -> ResponseView {
    ResponseView { status, body: BodyView::Text(text) }
}

impl Response {
    /// Status 200 with `body`.
    pub fn ok(body: Body) -> (r: Response)
        ensures
            r@ == ok_with(body@),
    {
        Response { status: OK, body }
    }

    /// Status `status` with no body.
    pub fn empty(status: u16) -> (r: Response)
        ensures
            r@ == bare(status),
    {
        Response { status, body: Body::Empty }
    }

    /// Status `status` with the message `text`.
    pub fn text(status: u16, text: &str) -> (r: Response)
        ensures
            r@ == message(status, text@),
    {
        Response { status, body: Body::Text(text.to_owned()) }
    }

    /// The answer when no connection to the store could be had: 503, no
    /// body.
    pub fn unavailable() -> (r: Response)
        ensures
            r@ == bare(SERVICE_UNAVAILABLE),
    {
        Response::empty(SERVICE_UNAVAILABLE)
    }
}

} // verus!
