//! Posts and the responses between them: what the store hands back, the
//! capabilities that insert and read posts, and the unit of work that keeps
//! a response post and its link together.

pub mod model;
pub mod post;
pub mod transaction;
