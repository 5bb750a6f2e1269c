//! A verified transaction/savepoint state machine for database connections.
//!
//! The manager sits between an application's logical `begin`/`commit`/
//! `rollback` calls and the raw statement-execution channel of a connection.
//! It emulates nested transactions with ANSI savepoints, keeps an in-memory
//! depth counter consistent with the server-side transaction stack even when
//! statements fail, and recovers from the commit failures after which the
//! backend guarantees a `ROLLBACK` to succeed.

pub mod connection;
pub mod error;
pub mod laws;
pub mod manager;
pub mod sql;
