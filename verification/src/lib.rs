//! Request handling for two small record services, articles and events.
//!
//! Each service keeps one table. The handlers are stated over an in-memory
//! model of that table, so that what a request does to the rows and what it
//! answers are both part of a handler's contract.

pub mod ambient;
pub mod articles;
pub mod error;
pub mod events;
pub mod response;
pub mod routes;
