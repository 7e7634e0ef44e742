//! Profiles: what callers hand in, what the store hands back, and the
//! capabilities that insert, update and look up a profile.

pub mod model;
pub mod profile;
