//! Settings for the client/server engine.

use vstd::prelude::*;
use vstd::string::*;

verus! {

/// Connections a pool holds when nothing else is configured.
pub const DEFAULT_POOL_SIZE: usize = 16;

/// Connection settings of the client/server engine.
#[derive(Debug, Clone, PartialEq, Eq)]
pub struct DatabaseConfig {
    pub connection_string: String,
    pub max_pool_size: usize,
}

impl DatabaseConfig {
    /// Settings for `connection_string`, with the default pool size.
    pub fn new(connection_string: &str) -> (c: Self)
        ensures
            c.connection_string@ == connection_string@,
            c.max_pool_size == DEFAULT_POOL_SIZE,
    {
        DatabaseConfig {
            connection_string: connection_string.to_owned(),
            max_pool_size: DEFAULT_POOL_SIZE,
        }
    }

    /// The same as [`DatabaseConfig::new`].
    pub fn postgres(connection_string: &str) -> (c: Self)
        ensures
            c.connection_string@ == connection_string@,
            c.max_pool_size == DEFAULT_POOL_SIZE,
    {
        DatabaseConfig::new(connection_string)
    }

    /// The same settings with the pool holding at most `size` connections.
    pub fn with_pool_size(self, size: usize) -> (c: Self)
        ensures
            c == (DatabaseConfig { max_pool_size: size, ..self }),
    {
        let mut c = self;
        c.max_pool_size = size;
        c
    }
}

} // verus!
