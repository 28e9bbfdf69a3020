//! The article service: records with a soft-delete flag, addressed by a
//! 128-bit identifier.

pub mod handlers;
pub mod laws;
pub mod models;
pub mod table;
