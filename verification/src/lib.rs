//! A verified model of a small Cassandra CRUD script.
//!
//! The library holds everything the script decides or computes: the fixed
//! CQL statements, validation of the connection settings, parsing and
//! formatting of the user id, a model of the keyspace/table state with the
//! exact semantics of the five statements, and the step-by-step plan that a
//! driver loop follows. The network driver itself runs outside the library
//! and is handed plain values.

pub mod config;
pub mod script;
pub mod statements;
pub mod store;
pub mod user_id;
