//! The event service: records with an opaque payload, addressed by an
//! integer key that the store hands out.

pub mod database;
pub mod handlers;
pub mod laws;
pub mod models;
