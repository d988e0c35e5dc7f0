//! An in-memory store of todo items with filtering, search and statistics,
//! and the request handlers that sit on top of it.
//!
//! The store ([`service::TodoService`]) keeps its records in a vector in
//! which no identifier stands twice. Its contracts speak of the records as a
//! sequence of plain values ([`models::TodoView`]); [`records`] says what
//! each operation makes of that sequence and proves what holds of all of
//! them. [`query`] decides which records a listing shows, [`stats`] takes
//! the figures, and [`handlers`] turn the outcome of an operation into a
//! status and a body. [`routes`] lays out which request reaches which
//! handler.
//!
//! What the library takes from elsewhere stands in three small modules:
//! [`clock`] reads the time and the calendar, [`ident`] draws identifiers,
//! and [`text`] folds case and searches. What is said there of a function
//! from outside is believed, not proved; everything else is proved.

pub mod clock;
pub mod handlers;
pub mod ident;
pub mod models;
pub mod query;
pub mod records;
pub mod routes;
pub mod samples;
pub mod service;
pub mod stats;
pub mod text;
