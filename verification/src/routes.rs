//! Route tables: which method and path reach which handler.

use vstd::prelude::*;

verus! {

/// An HTTP method that the services route.
#[derive(Clone, Copy, Debug, PartialEq, Eq, Structural)]
pub enum Method {
    Get,
    Post,
    Put,
    Delete,
}

/// The handlers, by name.
#[derive(Clone, Copy, Debug, PartialEq, Eq, Structural)]
pub enum Handler {
    CreatePost,
    GetPost,
    ListPosts,
    ListAllPosts,
    ListDeletedPosts,
    UpdatePost,
    DeletePost,
    RemovePost,
    GetEvents,
    GetEvent,
    CreateEvent,
    UpdateEvent,
    DeleteEvent,
}

/// One line of a route table as plain values.
pub struct RouteView {
    pub method: Method,
    pub path: Seq<char>,
    pub handler: Handler,
}

/// One line of a route table. In `path` a segment in braces stands for a
/// parameter.
#[derive(Clone, Copy, Debug, PartialEq, Eq)]
pub struct Route {
    pub method: Method,
    pub path: &'static str,
    pub handler: Handler,
}

/// The routes of one service as plain values.
pub struct ScopeView {
    pub prefix: Seq<char>,
    pub routes: Seq<RouteView>,
}

/// The routes of one service, all below one path prefix.
#[derive(Debug, PartialEq, Eq)]
pub struct Scope {
    pub prefix: &'static str,
    pub routes: Vec<Route>,
}

impl View for Route {
    type V = RouteView;

    open spec fn view(&self) -> RouteView {
        RouteView { method: self.method, path: self.path@, handler: self.handler }
    }
}

impl View for Scope {
    type V = ScopeView;

    open spec fn view(&self) -> ScopeView {
        ScopeView { prefix: self.prefix@, routes: self.routes@.map_values(|r: Route| r@) }
    }
}

/// The line that sends `method` on `path` to `handler`.
pub open spec fn route(method: Method, path: &str, handler: Handler) -> RouteView {
    RouteView { method, path: path@, handler }
}

impl Route {
    /// The line that sends `method` on `path` to `handler`.
    pub fn new(method: Method, path: &'static str, handler: Handler) -> (r: Route)
        ensures
            r@ == route(method, path, handler),
    {
        Route { method, path, handler }
    }
}

} // verus!
