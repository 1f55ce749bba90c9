//! How to reach a database, per engine. Connecting is not this library's
//! part; these are the settings a connection is made from.

pub mod postgres;
pub mod sqlite;
