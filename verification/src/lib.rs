//! Entity persistence and relation resolution for a hotel reservation domain.
//!
//! Two entities, bookings and guests, live in a [`store::Store`] together with
//! the association that links them, many to many.
//!
//! - [`timestamp`] parses texts of the form `YYYY-MM-DD HH:MM:SS ±HHMM` into
//!   instants.
//! - [`booking`] and [`guest`] hold the rows and the rule by which an update
//!   merges into a stored row: a field the caller leaves out keeps its value.
//! - [`store`] holds the tables and the operations on them: list, get,
//!   create, update and delete for each entity, and the two directions of
//!   the relation.
//! - [`facade`] is the set of entry points a caller invokes.
//! - [`laws`] states what holds of the operations taken together.
//! - [`error`] names the four kinds of failure.
//!
//! The store reads no clock: an operation that stamps a row takes the
//! instant as an argument.

pub mod booking;
pub mod error;
pub mod facade;
pub mod guest;
pub mod laws;
pub mod store;
pub mod timestamp;
