//! Helpers that make data for trying the repository out.

pub mod fixtures;
pub mod multipart;
