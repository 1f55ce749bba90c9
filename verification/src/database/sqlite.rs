//! Settings for the embedded engine and its remote variants.

use crate::text::{lowercase, str_eq, to_lower};
use vstd::prelude::*;
use vstd::string::*;

verus! {

/// Where the embedded engine keeps its data.
#[derive(Debug, Clone, Copy, PartialEq, Eq, Structural)]
pub enum TursoMode {
    /// In memory only.
    Memory,
    /// A local file.
    Local,
    /// A local file synced with a remote database.
    Sync,
    /// A remote database.
    Remote,
    /// A local replica of a remote database.
    Embed,
}

/// The mode that a word in lower case names: `sync`, `remote`, `embed`, and
/// local for `local` and for every other word.
pub open spec fn mode_named(lower: Seq<char>) -> TursoMode {
    if lower == "sync"@ {
        TursoMode::Sync
    } else if lower == "remote"@ {
        TursoMode::Remote
    } else if lower == "embed"@ {
        TursoMode::Embed
    } else {
        TursoMode::Local
    }
}

impl TursoMode {
    /// The mode that a word names, whatever its letter case, as a setting
    /// read from the environment gives it.
    pub fn from_name(word: &str) -> (mode: Self)
        ensures
            mode == mode_named(lowercase(word@)),
    {
        TursoMode::from_lower(to_lower(word).as_str())
    }

    /// The mode that a word in lower case names.
    pub fn from_lower(lower: &str) -> (mode: Self)
        ensures
            mode == mode_named(lower@),
    {
        if str_eq(lower, "sync") {
            TursoMode::Sync
        } else if str_eq(lower, "remote") {
            TursoMode::Remote
        } else if str_eq(lower, "embed") {
            TursoMode::Embed
        } else {
            TursoMode::Local
        }
    }
}

/// Connection settings of the embedded engine. Fields that a mode does not
/// use are empty.
#[derive(Debug, Clone, PartialEq, Eq)]
pub struct DatabaseConfig {
    pub mode: TursoMode,
    pub local_db_path: String,
    pub db_url: String,
    pub db_token: String,
}

impl DatabaseConfig {
    /// Settings from all four parts.
    pub fn new(mode: TursoMode, local_db_path: String, db_url: String, db_token: String) -> (c:
        Self)
        ensures
            c == (DatabaseConfig { mode, local_db_path, db_url, db_token }),
    {
        DatabaseConfig { mode, local_db_path, db_url, db_token }
    }

    /// An in-memory database.
    pub fn memory() -> (c: Self)
        ensures
            c.mode == TursoMode::Memory,
            c.local_db_path@.len() == 0,
            c.db_url@.len() == 0,
            c.db_token@.len() == 0,
    {
        DatabaseConfig {
            mode: TursoMode::Memory,
            local_db_path: String::new(),
            db_url: String::new(),
            db_token: String::new(),
        }
    }

    /// A database in the local file `db_path`.
    pub fn local(db_path: &str) -> (c: Self)
        ensures
            c.mode == TursoMode::Local,
            c.local_db_path@ == db_path@,
            c.db_url@.len() == 0,
            c.db_token@.len() == 0,
    {
        DatabaseConfig {
            mode: TursoMode::Local,
            local_db_path: db_path.to_owned(),
            db_url: String::new(),
            db_token: String::new(),
        }
    }

    /// A plain SQLite database in the local file `db_path`.
    pub fn sqlite(db_path: &str) -> (c: Self)
        ensures
            c.mode == TursoMode::Local,
            c.local_db_path@ == db_path@,
            c.db_url@.len() == 0,
            c.db_token@.len() == 0,
    {
        DatabaseConfig {
            mode: TursoMode::Local,
            local_db_path: db_path.to_owned(),
            db_url: String::new(),
            db_token: String::new(),
        }
    }

    /// A remote database at `db_url`, opened with `db_token`.
    pub fn remote(db_url: &str, db_token: &str) -> (c: Self)
        ensures
            c.mode == TursoMode::Remote,
            c.local_db_path@.len() == 0,
            c.db_url@ == db_url@,
            c.db_token@ == db_token@,
    {
        DatabaseConfig {
            mode: TursoMode::Remote,
            local_db_path: String::new(),
            db_url: db_url.to_owned(),
            db_token: db_token.to_owned(),
        }
    }

    /// A local file kept in sync with the remote database at `db_url`.
    pub fn sync(local_db_path: &str, db_url: &str, db_token: &str) -> (c: Self)
        ensures
            c.mode == TursoMode::Sync,
            c.local_db_path@ == local_db_path@,
            c.db_url@ == db_url@,
            c.db_token@ == db_token@,
    {
        DatabaseConfig {
            mode: TursoMode::Sync,
            local_db_path: local_db_path.to_owned(),
            db_url: db_url.to_owned(),
            db_token: db_token.to_owned(),
        }
    }

    /// A local replica of the remote database at `db_url`.
    pub fn embed(local_db_path: &str, db_url: &str, db_token: &str) -> (c: Self)
        ensures
            c.mode == TursoMode::Embed,
            c.local_db_path@ == local_db_path@,
            c.db_url@ == db_url@,
            c.db_token@ == db_token@,
    {
        DatabaseConfig {
            mode: TursoMode::Embed,
            local_db_path: local_db_path.to_owned(),
            db_url: db_url.to_owned(),
            db_token: db_token.to_owned(),
        }
    }
}

} // verus!
