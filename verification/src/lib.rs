//! A PostgreSQL-to-SQLite gateway library.
//!
//! The library holds the verified core of a network gateway that speaks the
//! PostgreSQL v3 wire protocol towards clients and executes SQL against local
//! SQLite database files: the startup and authentication state machine, the
//! simple and extended query processing, the per-database backend pool and
//! worker, and the type bridge between SQLite storage classes and PostgreSQL
//! wire types. Socket handling, TLS, and the async runtime live outside the
//! library and drive it through plain values.

pub mod auth;
pub mod backend;
pub mod bridge;
pub mod config;
pub mod connection;
pub mod decltype;
pub mod errors;
pub mod query_handler;
pub mod server;
pub mod wire;
