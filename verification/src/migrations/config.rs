//! How many backups a migration keeps, for how long, and under which name.

use vstd::prelude::*;
use vstd::string::*;

verus! {

/// Backups kept for a table when nothing else is configured.
pub const DEFAULT_MAX_BACKUPS: u8 = 5;

/// Days a backup is kept when nothing else is configured.
pub const DEFAULT_RETENTION_DAYS: u8 = 30;

/// The name part of a backup table when nothing else is configured.
pub open spec fn default_suffix() -> Seq<char> {
    "migration"@
}

/// Retention settings of the migration engine. A setting left out falls back
/// to its default.
#[derive(Debug)]
pub struct MigrationConfig {
    max_backups_per_table: Option<u8>,
    backup_retention_days: Option<u8>,
    backup_suffix: Option<String>,
}

impl Default for MigrationConfig {
    fn default() -> (c: Self)
        ensures
            c.spec_max_backups() == DEFAULT_MAX_BACKUPS,
            c.spec_retention_days() == DEFAULT_RETENTION_DAYS,
            c.spec_suffix() == default_suffix(),
    {
        MigrationConfig {
            max_backups_per_table: Some(5),
            backup_retention_days: Some(30),
            backup_suffix: Some("migration".to_owned()),
        }
    }
}

impl Clone for MigrationConfig {
    fn clone(&self) -> (c: Self)
        ensures
            c.spec_max_backups() == self.spec_max_backups(),
            c.spec_retention_days() == self.spec_retention_days(),
            c.spec_suffix() == self.spec_suffix(),
    {
        MigrationConfig {
            max_backups_per_table: self.max_backups_per_table,
            backup_retention_days: self.backup_retention_days,
            backup_suffix: match &self.backup_suffix {
                Some(s) => Some(s.clone()),
                None => None,
            },
        }
    }
}

impl MigrationConfig {
    /// Settings as given; `None` stands for the default.
    pub fn new(max_backups: Option<u8>, retention_days: Option<u8>, suffix: Option<String>) -> (c:
        Self)
        ensures
            c.spec_max_backups() == match max_backups {
                Some(n) => n,
                None => DEFAULT_MAX_BACKUPS,
            },
            c.spec_retention_days() == match retention_days {
                Some(n) => n,
                None => DEFAULT_RETENTION_DAYS,
            },
            c.spec_suffix() == match suffix {
                Some(s) => s@,
                None => default_suffix(),
            },
    {
        MigrationConfig {
            max_backups_per_table: max_backups,
            backup_retention_days: retention_days,
            backup_suffix: suffix,
        }
    }

    /// Most backups kept for one table.
    pub closed spec fn spec_max_backups(&self) -> u8 {
        match self.max_backups_per_table {
            Some(n) => n,
            None => DEFAULT_MAX_BACKUPS,
        }
    }

    /// Days after which a backup is removed.
    pub closed spec fn spec_retention_days(&self) -> u8 {
        match self.backup_retention_days {
            Some(n) => n,
            None => DEFAULT_RETENTION_DAYS,
        }
    }

    /// The part of a backup table's name between the table's name and the
    /// timestamp.
    pub closed spec fn spec_suffix(&self) -> Seq<char> {
        match self.backup_suffix {
            Some(s) => s@,
            None => default_suffix(),
        }
    }

    /// Most backups kept for one table.
    pub fn max_backups(&self) -> (n: u8)
        ensures
            n == self.spec_max_backups(),
    {
        match self.max_backups_per_table {
            Some(n) => n,
            None => DEFAULT_MAX_BACKUPS,
        }
    }

    /// Days after which a backup is removed.
    pub fn retention_days(&self) -> (n: u8)
        ensures
            n == self.spec_retention_days(),
    {
        match self.backup_retention_days {
            Some(n) => n,
            None => DEFAULT_RETENTION_DAYS,
        }
    }

    /// The part of a backup table's name between the table's name and the
    /// timestamp.
    pub fn suffix(&self) -> (s: &str)
        ensures
            s@ == self.spec_suffix(),
    {
        match &self.backup_suffix {
            Some(s) => s.as_str(),
            None => "migration",
        }
    }
}

} // verus!
