//! Verified core of a database client: a backend-independent value model,
//! the pure logic of a MySQL-family backend driver (type mapping, SQL text
//! construction, introspection row parsing), a connection factory, and the
//! state machines behind an asynchronous, poll-driven task bridge.
//!
//! Network I/O, the GUI, and on-disk persistence live outside this library;
//! they drive it by handing in plain values and polling for results.

pub mod bridge;
pub mod config;
pub mod db;
pub mod ext;
pub mod models;
pub mod session;
pub mod store;
pub mod text;
pub mod ui_state;
