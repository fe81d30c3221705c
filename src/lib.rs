//! Host routing-table management: listing and searching the live table,
//! adding and removing routes with duplicate detection and operator
//! confirmation, and reconciling a declarative configuration with the
//! table. The system (routing table, adapters, name resolution, console)
//! stays with the caller, which hands this library snapshots and answers.
pub mod command;
pub mod config;
pub mod error;
pub mod input;
pub mod interface;
pub mod mutation;
pub mod ping;
pub mod route;
pub mod session;
pub mod text;
