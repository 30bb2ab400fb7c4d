//! The logic of a read-only observability client for a virtualization
//! cluster: which requests to make, what their replies mean, and how nodes
//! and guests are shown.
//!
//! The library performs no I/O. Its caller carries out each HTTP exchange
//! and hands in the outcome; the library decides what follows.
//!
//! - [`negotiate`] chooses between encrypted and plaintext transport.
//! - [`session`] turns the reply of the ticket endpoint into a session and
//!   puts the ticket on every request.
//! - [`api`] names the resources and reads the documents that come back;
//!   [`collect`] orders the address lookups, one at a time.
//! - [`normalize`] merges machines and containers into one list, sorted by
//!   name.
//! - [`render`] shows nodes and guests as a table, as comma-separated lines
//!   or as a JSON document; [`commands`] selects among the three.
//! - [`units`] and [`text`] hold the arithmetic and the numerals of the
//!   presentation, [`models`] the records, [`cli`] the option values and
//!   [`vlog`] the verbosity.
//! - [`json`] and [`grid`] hold the calls into `serde_json` and
//!   `comfy_table`.

pub mod api;
pub mod cli;
pub mod collect;
pub mod commands;
pub mod grid;
pub mod json;
pub mod models;
pub mod negotiate;
pub mod normalize;
pub mod render;
pub mod session;
pub mod text;
pub mod units;
pub mod vlog;
