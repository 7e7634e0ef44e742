//! A social-graph repository: profiles, posts and the responses between
//! posts, kept in a relational store whose rules are proved to hold.
//!
//! * [`repo::schema`] gives the tables as mathematical values and the rules
//!   that every store obeys: identifiers in order, user names unique, every
//!   post owned by a profile, every response link between two posts.
//! * [`repo::semantics`] says what each operation does to a store and what
//!   it answers, and [`repo::laws`] proves what follows for every store and
//!   every request.
//! * [`repo::database`] is the executable store, proved against the
//!   semantics; [`repo::base`] wraps it in the repository handle and names
//!   the failures.
//! * [`repo::profile`] and [`repo::post`] hold the capabilities, one narrow
//!   trait for each operation, and the unit of work that writes a response
//!   post and its link together or not at all.
//! * [`repo::statement`] gives the SQL statements, with their bound values,
//!   for a driver that sends them to a store outside the process.
//! * [`test_helpers`] makes data for trying all of this out.

pub mod repo;
pub mod test_helpers;
