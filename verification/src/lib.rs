//! Core of a terminal client for a ranked-story feed.
//!
//! The crate holds the logic of the client that is worth stating exactly:
//! the batch resolver that turns identifier lists into story collections in
//! bounded concurrent waves, the pagination controller, the application
//! state machine with its cursor and scroll rules, and the pure text
//! helpers (domain extraction, tag stripping, relative-age formatting).
//! Network transport and terminal drawing live outside the library and
//! speak to it through plain values.

pub mod app;
pub mod numfmt;
pub mod resolver;
pub mod story;
pub mod text;
