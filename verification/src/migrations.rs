//! Zero-loss schema migration: what a model expects of its table is compared
//! with what the live table is, and a table that drifted is rebuilt beside
//! itself and swapped in, the old one kept as a backup.

pub mod catalog;
pub mod compare;
pub mod config;
pub mod ddl;
pub mod dialect;
pub mod diff_facts;
pub mod executor;
pub mod executor_facts;
pub mod model;
pub mod retention;
pub mod retention_facts;
pub mod schema;
pub mod statements;
pub mod zero_loss;
