//! The data-access layer: the store, its capabilities and their results.

pub mod base;
pub mod database;
pub mod laws;
pub mod post;
pub mod profile;
pub mod schema;
pub mod semantics;
pub mod statement;
mod tables;
