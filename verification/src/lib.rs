//! A minimal, verified core for a dependency-injected data service.
//!
//! The library holds the logic of a small HTTP service: a `DataRepo`
//! capability with a production id-range policy, two ways for a handler to
//! obtain that capability (whole-state access and per-request extraction),
//! and the handlers that map capability outcomes to HTTP status codes and
//! JSON bodies. Process startup, routing and socket I/O live outside the
//! library and call into it with plain values.

pub mod body;
pub mod handlers;
pub mod laws;
pub mod model;
pub mod repo;
pub mod state;

pub use model::Data;
pub use model::DataRepoError;
