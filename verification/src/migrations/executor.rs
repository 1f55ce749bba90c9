//! The migration executor: the decisions of one migration call, as a state
//! machine.
//!
//! The executor never touches a database. It hands out one command at a
//! time; its driver carries the command out and hands back the reply; the
//! executor then decides what comes next. A table that is not there is
//! created. A table that matches the model is left alone. A table that
//! drifted is rebuilt: the new table is made under a temporary name, the
//! rows are copied in one statement, the old table is renamed to a backup,
//! the new one takes its name, the rows are counted, and old backups are
//! swept. The old table is renamed, never dropped.

use crate::migrations::compare::compare_schemas;
use crate::migrations::config::MigrationConfig;
use crate::migrations::ddl::{
    copy_sql, create_table_sql, generate_create_table_sql, generate_data_migration_sql,
};
use crate::migrations::dialect::Dialect;
use crate::migrations::model::MigrationError;
use crate::migrations::retention::{
    backup_name, backup_table_name, backups_among, check_backups_retention,
    get_all_migration_tables, sweep, temp_name, temp_table_name,
};
use crate::migrations::schema::{
    column_specs, render_all, schema_diff, ActionSpec, ColumnInfo, ColumnSpec, MigrationAction,
    MigrationResult, ResultSpec,
};
use crate::migrations::statements::{
    backups_query, count_rows, count_sql, drop_sql, drop_table, foreign_keys_on, list_backups,
    rename_sql, rename_table, table_exists, table_exists_query, CatalogQuery, QuerySpec,
};
use crate::text::views;
use vstd::prelude::*;
use vstd::string::*;

verus! {

/// What the executor waits for.
#[derive(Debug, Clone, Copy, PartialEq, Eq, Structural)]
pub enum Stage {
    /// Whether the table exists.
    CheckingExists,
    /// That foreign keys are enforced.
    EnablingForeignKeys,
    /// That the table is created.
    Creating,
    /// The live table's columns.
    ReadingSchema,
    /// The time of the migration.
    ReadingClock,
    /// That the new table is created under its temporary name.
    CreatingTemp,
    /// That the rows are copied.
    Copying,
    /// That the old table is renamed to the backup.
    RenamingToBackup,
    /// That the new table is renamed to the table's name.
    RenamingToTable,
    /// The number of rows in the rebuilt table.
    Counting,
    /// The names of the tables that may be backups.
    ListingBackups,
    /// The time of the sweep.
    ReadingSweepClock,
    /// That a backup is dropped.
    Dropping,
    /// Nothing: the migration is over.
    Finished,
}

/// What the driver is to do next.
#[derive(Debug)]
pub enum Command {
    /// Run the query; the table exists if it returns a row.
    TableExists(CatalogQuery),
    /// Run the statement.
    Execute(String),
    /// Read the columns of the table from the catalog.
    ReadSchema(String),
    /// Read the clock, in seconds since the Unix epoch.
    ReadClock,
    /// Run the query and read the count it returns.
    CountRows(String),
    /// Run the query and read the table names it returns.
    ListBackups(CatalogQuery),
    /// Stop and return the outcome.
    Finish(MigrationResult),
}

/// What the driver found.
#[derive(Debug)]
pub enum Reply {
    /// Whether the table exists.
    Exists(bool),
    /// The statement ran.
    Done,
    /// The live table's columns.
    Schema(Vec<ColumnInfo>),
    /// Seconds since the Unix epoch.
    Clock(u64),
    /// A row count.
    Count(i64),
    /// Table names.
    Names(Vec<String>),
}

/// A command as a mathematical value.
pub enum CommandSpec {
    TableExists(QuerySpec),
    Execute(Seq<char>),
    ReadSchema(Seq<char>),
    ReadClock,
    CountRows(Seq<char>),
    ListBackups(QuerySpec),
    Finish(ResultSpec),
}

/// A reply as a mathematical value.
pub enum ReplySpec {
    Exists(bool),
    Done,
    Schema(Seq<ColumnSpec>),
    Clock(nat),
    Count(int),
    Names(Seq<Seq<char>>),
}

impl View for Command {
    type V = CommandSpec;

    open spec fn view(&self) -> CommandSpec {
        match self {
            Command::TableExists(q) => CommandSpec::TableExists(q@),
            Command::Execute(sql) => CommandSpec::Execute(sql@),
            Command::ReadSchema(table) => CommandSpec::ReadSchema(table@),
            Command::ReadClock => CommandSpec::ReadClock,
            Command::CountRows(sql) => CommandSpec::CountRows(sql@),
            Command::ListBackups(q) => CommandSpec::ListBackups(q@),
            Command::Finish(result) => CommandSpec::Finish(result@),
        }
    }
}

impl View for Reply {
    type V = ReplySpec;

    open spec fn view(&self) -> ReplySpec {
        match self {
            Reply::Exists(b) => ReplySpec::Exists(*b),
            Reply::Done => ReplySpec::Done,
            Reply::Schema(columns) => ReplySpec::Schema(column_specs(columns@)),
            Reply::Clock(seconds) => ReplySpec::Clock(*seconds as nat),
            Reply::Count(n) => ReplySpec::Count(*n as int),
            Reply::Names(names) => ReplySpec::Names(views(names@)),
        }
    }
}

/// One migration call in progress.
#[derive(Debug)]
pub struct Migration {
    pub dialect: Dialect,
    /// The table to migrate.
    pub table: String,
    /// The columns the model asks for.
    pub expected: Vec<ColumnInfo>,
    pub config: MigrationConfig,
    pub stage: Stage,
    /// The live table's columns, once read.
    pub current: Vec<ColumnInfo>,
    /// The comparator's messages, once compared.
    pub changes: Vec<String>,
    /// The time of the migration, once read.
    pub timestamp: u64,
    /// The rows of the rebuilt table, once counted.
    pub rows: u64,
    /// The tables that may be backups, once listed.
    pub candidates: Vec<String>,
    /// The backups to drop, once planned.
    pub drops: Vec<String>,
    /// How many of them the driver was told to drop.
    pub dropped: usize,
}

/// A migration in progress as a mathematical value.
pub struct MigrationSpec {
    pub dialect: Dialect,
    pub table: Seq<char>,
    pub expected: Seq<ColumnSpec>,
    pub keep: nat,
    pub days: nat,
    pub suffix: Seq<char>,
    pub stage: Stage,
    pub current: Seq<ColumnSpec>,
    pub changes: Seq<Seq<char>>,
    pub timestamp: nat,
    pub rows: nat,
    pub candidates: Seq<Seq<char>>,
    pub drops: Seq<Seq<char>>,
    pub dropped: nat,
}

impl View for Migration {
    type V = MigrationSpec;

    open spec fn view(&self) -> MigrationSpec {
        MigrationSpec {
            dialect: self.dialect,
            table: self.table@,
            expected: column_specs(self.expected@),
            keep: self.config.spec_max_backups() as nat,
            days: self.config.spec_retention_days() as nat,
            suffix: self.config.spec_suffix(),
            stage: self.stage,
            current: column_specs(self.current@),
            changes: views(self.changes@),
            timestamp: self.timestamp as nat,
            rows: self.rows as nat,
            candidates: views(self.candidates@),
            drops: views(self.drops@),
            dropped: self.dropped as nat,
        }
    }
}

/// The state a migration starts in.
pub open spec fn initial(
    dialect: Dialect,
    table: Seq<char>,
    expected: Seq<ColumnSpec>,
    keep: nat,
    days: nat,
    suffix: Seq<char>,
) -> MigrationSpec {
    MigrationSpec {
        dialect,
        table,
        expected,
        keep,
        days,
        suffix,
        stage: Stage::CheckingExists,
        current: Seq::empty(),
        changes: Seq::empty(),
        timestamp: 0,
        rows: 0,
        candidates: Seq::empty(),
        drops: Seq::empty(),
        dropped: 0,
    }
}

/// Whether `reply` is the kind of reply that `stage` waits for.
pub open spec fn expects(stage: Stage, reply: ReplySpec) -> bool {
    match stage {
        Stage::CheckingExists => reply is Exists,
        Stage::ReadingSchema => reply is Schema,
        Stage::ReadingClock => reply is Clock,
        Stage::ReadingSweepClock => reply is Clock,
        Stage::Counting => reply is Count,
        Stage::ListingBackups => reply is Names,
        Stage::Finished => false,
        _ => reply is Done,
    }
}

/// The message of a created table.
pub open spec fn created_message(table: Seq<char>) -> Seq<char> {
    "Created table "@ + table + " from schema"@
}

/// The outcome for a table that was created.
pub open spec fn created(m: MigrationSpec) -> ResultSpec {
    ResultSpec {
        action: ActionSpec::TableCreated,
        backup_table: None,
        rows_migrated: None,
        schema_changes: seq![created_message(m.table)],
    }
}

/// The outcome for a table that matched.
pub open spec fn matched() -> ResultSpec {
    ResultSpec {
        action: ActionSpec::SchemaMatched,
        backup_table: None,
        rows_migrated: None,
        schema_changes: Seq::empty(),
    }
}

/// The name of the backup that this migration makes.
pub open spec fn backup_of(m: MigrationSpec) -> Seq<char> {
    backup_name(m.table, m.suffix, m.timestamp)
}

/// The name under which this migration builds the new table.
pub open spec fn temp_of(m: MigrationSpec) -> Seq<char> {
    temp_name(m.table, m.timestamp)
}

/// The outcome for a table that was rebuilt.
pub open spec fn migrated(m: MigrationSpec) -> ResultSpec {
    ResultSpec {
        action: ActionSpec::DataMigrated { from: backup_of(m), to: m.table },
        backup_table: Some(backup_of(m)),
        rows_migrated: Some(m.rows as u64),
        schema_changes: m.changes,
    }
}

/// What comes after a drop, or after the plan where nothing is left to drop:
/// the next drop, or the outcome.
pub open spec fn next_drop(m: MigrationSpec) -> (MigrationSpec, CommandSpec) {
    if m.dropped < m.drops.len() {
        (
            MigrationSpec { stage: Stage::Dropping, dropped: m.dropped + 1, ..m },
            CommandSpec::Execute(drop_sql(m.drops[m.dropped as int])),
        )
    } else {
        (MigrationSpec { stage: Stage::Finished, ..m }, CommandSpec::Finish(migrated(m)))
    }
}

/// A row count as the number of rows: a negative count is none.
pub open spec fn rows_of(count: int) -> nat {
    if count < 0 {
        0
    } else {
        count as nat
    }
}

/// What the executor does on a reply: the state it goes to and the command
/// it hands out.
pub open spec fn next(m: MigrationSpec, reply: ReplySpec) -> (MigrationSpec, CommandSpec) {
    match m.stage {
        Stage::CheckingExists => if reply->Exists_0 {
            (MigrationSpec { stage: Stage::ReadingSchema, ..m }, CommandSpec::ReadSchema(m.table))
        } else if m.dialect == Dialect::Sqlite {
            (
                MigrationSpec { stage: Stage::EnablingForeignKeys, ..m },
                CommandSpec::Execute(foreign_keys_on()),
            )
        } else {
            (
                MigrationSpec { stage: Stage::Creating, ..m },
                CommandSpec::Execute(create_table_sql(m.dialect, m.table, m.expected)),
            )
        },
        Stage::EnablingForeignKeys => (
            MigrationSpec { stage: Stage::Creating, ..m },
            CommandSpec::Execute(create_table_sql(m.dialect, m.table, m.expected)),
        ),
        Stage::Creating => (
            MigrationSpec { stage: Stage::Finished, ..m },
            CommandSpec::Finish(created(m)),
        ),
        Stage::ReadingSchema => {
            let current = reply->Schema_0;
            let diff = schema_diff(current, m.expected);
            if diff.len() == 0 {
                (
                    MigrationSpec { stage: Stage::Finished, current, ..m },
                    CommandSpec::Finish(matched()),
                )
            } else {
                (
                    MigrationSpec {
                        stage: Stage::ReadingClock,
                        current,
                        changes: render_all(diff),
                        ..m
                    },
                    CommandSpec::ReadClock,
                )
            }
        },
        Stage::ReadingClock => {
            let after = MigrationSpec {
                stage: Stage::CreatingTemp,
                timestamp: reply->Clock_0,
                ..m
            };
            (after, CommandSpec::Execute(create_table_sql(m.dialect, temp_of(after), m.expected)))
        },
        Stage::CreatingTemp => (
            MigrationSpec { stage: Stage::Copying, ..m },
            CommandSpec::Execute(copy_sql(m.dialect, m.table, temp_of(m), m.current, m.expected)),
        ),
        Stage::Copying => (
            MigrationSpec { stage: Stage::RenamingToBackup, ..m },
            CommandSpec::Execute(rename_sql(m.table, backup_of(m))),
        ),
        Stage::RenamingToBackup => (
            MigrationSpec { stage: Stage::RenamingToTable, ..m },
            CommandSpec::Execute(rename_sql(temp_of(m), m.table)),
        ),
        Stage::RenamingToTable => (
            MigrationSpec { stage: Stage::Counting, ..m },
            CommandSpec::CountRows(count_sql(m.table)),
        ),
        Stage::Counting => (
            MigrationSpec { stage: Stage::ListingBackups, rows: rows_of(reply->Count_0), ..m },
            CommandSpec::ListBackups(backups_query(m.dialect, m.table, m.suffix)),
        ),
        Stage::ListingBackups => {
            let names = reply->Names_0;
            (
                MigrationSpec { stage: Stage::ReadingSweepClock, candidates: names, ..m },
                CommandSpec::ReadClock,
            )
        },
        Stage::ReadingSweepClock => next_drop(
            MigrationSpec {
                drops: sweep(
                    backups_among(m.candidates, m.suffix, m.candidates.len()),
                    reply->Clock_0,
                    m.keep,
                    m.days,
                ),
                dropped: 0,
                ..m
            },
        ),
        Stage::Dropping => next_drop(m),
        Stage::Finished => (m, CommandSpec::ReadClock),
    }
}

/// What is said of a failure at a stage.
pub open spec fn failure_label(stage: Stage) -> Seq<char> {
    match stage {
        Stage::CheckingExists => "Failed to check table existence"@,
        Stage::EnablingForeignKeys => "Failed to enable foreign keys"@,
        Stage::Creating => "Failed to create table"@,
        Stage::ReadingSchema => "Failed to get table info"@,
        Stage::ReadingClock => "Failed to read the clock"@,
        Stage::CreatingTemp => "Failed to create temp table"@,
        Stage::Copying => "Failed to migrate data"@,
        Stage::RenamingToBackup => "Failed to create backup"@,
        Stage::RenamingToTable => "Failed to rename new table"@,
        Stage::Counting => "Failed to verify migration"@,
        Stage::ListingBackups => "Failed to query migration tables"@,
        Stage::ReadingSweepClock => "Failed to read the clock"@,
        Stage::Dropping => "Failed to drop old migration table"@,
        Stage::Finished => "Migration already finished"@,
    }
}

impl Migration {
    /// A migration of `table` to the columns `expected`, and its first
    /// command: to find out whether the table exists.
    pub fn begin(dialect: Dialect, table: &str, expected: Vec<ColumnInfo>, config: MigrationConfig) -> (r:
        (Migration, Command))
        ensures
            r.0@ == initial(
                dialect,
                table@,
                column_specs(expected@),
                config.spec_max_backups() as nat,
                config.spec_retention_days() as nat,
                config.spec_suffix(),
            ),
            r.0.well_formed(),
            r.1@ == CommandSpec::TableExists(table_exists_query(dialect, table@)),
    {
        let m = Migration {
            dialect,
            table: table.to_owned(),
            expected,
            config,
            stage: Stage::CheckingExists,
            current: Vec::new(),
            changes: Vec::new(),
            timestamp: 0,
            rows: 0,
            candidates: Vec::new(),
            drops: Vec::new(),
            dropped: 0,
        };
        proof {
            assert(column_specs(m.current@) =~= Seq::<ColumnSpec>::empty());
            assert(views(m.changes@) =~= Seq::<Seq<char>>::empty());
            assert(views(m.candidates@) =~= Seq::<Seq<char>>::empty());
            assert(views(m.drops@) =~= Seq::<Seq<char>>::empty());
        }
        (m, Command::TableExists(table_exists(dialect, table)))
    }

    /// The error for a command that failed: what the executor was waiting
    /// for, and what the driver says went wrong.
    pub fn failure(&self, detail: String) -> (e: MigrationError)
        ensures
            e matches MigrationError::Database { label, detail: d } && label@ == failure_label(
                self.stage,
            ) && d == detail,
    {
        let label = match self.stage {
            Stage::CheckingExists => "Failed to check table existence",
            Stage::EnablingForeignKeys => "Failed to enable foreign keys",
            Stage::Creating => "Failed to create table",
            Stage::ReadingSchema => "Failed to get table info",
            Stage::ReadingClock => "Failed to read the clock",
            Stage::CreatingTemp => "Failed to create temp table",
            Stage::Copying => "Failed to migrate data",
            Stage::RenamingToBackup => "Failed to create backup",
            Stage::RenamingToTable => "Failed to rename new table",
            Stage::Counting => "Failed to verify migration",
            Stage::ListingBackups => "Failed to query migration tables",
            Stage::ReadingSweepClock => "Failed to read the clock",
            Stage::Dropping => "Failed to drop old migration table",
            Stage::Finished => "Migration already finished",
        };
        MigrationError::Database { label: label.to_owned(), detail }
    }

    /// The statement that creates the table under `name`.
    fn create_command(&self, name: &str) -> (c: Command)
        ensures
            c@ == CommandSpec::Execute(
                create_table_sql(self.dialect, name@, column_specs(self.expected@)),
            ),
    {
        Command::Execute(generate_create_table_sql(self.dialect, name, self.expected.as_slice()))
    }

    /// The outcome of a rebuild.
    fn migrated_result(&self) -> (r: MigrationResult)
        ensures
            r@ == migrated(self@),
    {
        let backup = backup_table_name(
            self.table.as_str(),
            self.config.suffix(),
            self.timestamp,
        );
        let mut changes: Vec<String> = Vec::new();
        let mut i: usize = 0;
        while i < self.changes.len()
            invariant
                i <= self.changes@.len(),
                views(changes@) == views(self.changes@).take(i as int),
            decreases self.changes@.len() - i,
        {
            let ghost before = changes@;
            let message = self.changes[i].clone();
            proof {
                crate::text::lemma_views_push(before, message);
            }
            changes.push(message);
            assert(views(changes@) =~= views(self.changes@).take(i + 1));
            i = i + 1;
        }
        assert(views(self.changes@).take(self.changes@.len() as int) =~= views(self.changes@));
        MigrationResult {
            action: MigrationAction::DataMigrated {
                from: backup.clone(),
                to: self.table.clone(),
            },
            backup_table: Some(backup),
            rows_migrated: Some(self.rows),
            schema_changes: changes,
        }
    }

    /// The next drop, or the outcome where nothing is left to drop.
    fn drop_next(self) -> (r: (Migration, Command))
        requires
            self.dropped <= self.drops@.len(),
        ensures
            (r.0@, r.1@) == next_drop(self@),
            r.0.dropped <= r.0.drops@.len(),
    {
        if self.dropped < self.drops.len() {
            let command = Command::Execute(drop_table(self.drops[self.dropped].as_str()));
            let dropped = self.dropped + 1;
            assert(views(self.drops@)[self.dropped as int] == self.drops@[self.dropped as int]@);
            (Migration { stage: Stage::Dropping, dropped, ..self }, command)
        } else {
            let result = self.migrated_result();
            (Migration { stage: Stage::Finished, ..self }, Command::Finish(result))
        }
    }

    /// Whether the count of drops handed out is within the plan. It is, in
    /// every state that `begin` and `step` give.
    pub open spec fn well_formed(&self) -> bool {
        self.dropped <= self.drops@.len()
    }

    /// Whether `reply` can be handed to `step` now: it is of the kind that
    /// the executor waits for, and the state is one that `begin` or `step`
    /// gave.
    pub fn accepts(&self, reply: &Reply) -> (ok: bool)
        ensures
            ok == (expects(self.stage, reply@) && self.well_formed()),
    {
        let kind = match self.stage {
            Stage::CheckingExists => match reply {
                Reply::Exists(_) => true,
                _ => false,
            },
            Stage::ReadingSchema => match reply {
                Reply::Schema(_) => true,
                _ => false,
            },
            Stage::ReadingClock => match reply {
                Reply::Clock(_) => true,
                _ => false,
            },
            Stage::ReadingSweepClock => match reply {
                Reply::Clock(_) => true,
                _ => false,
            },
            Stage::Counting => match reply {
                Reply::Count(_) => true,
                _ => false,
            },
            Stage::ListingBackups => match reply {
                Reply::Names(_) => true,
                _ => false,
            },
            Stage::Finished => false,
            _ => match reply {
                Reply::Done => true,
                _ => false,
            },
        };
        kind && self.dropped <= self.drops.len()
    }

    /// Takes the driver's reply to the last command and decides what comes
    /// next.
    pub fn step(self, reply: Reply) -> (r: (Migration, Command))
        requires
            expects(self.stage, reply@),
            self.well_formed(),
        ensures
            (r.0@, r.1@) == next(self@, reply@),
            r.0.well_formed(),
    {
        match self.stage {
            Stage::CheckingExists => {
                let exists = match reply {
                    Reply::Exists(b) => b,
                    _ => false,
                };
                if exists {
                    let command = Command::ReadSchema(self.table.clone());
                    (Migration { stage: Stage::ReadingSchema, ..self }, command)
                } else {
                    match self.dialect {
                        Dialect::Sqlite => (
                            Migration { stage: Stage::EnablingForeignKeys, ..self },
                            Command::Execute("PRAGMA foreign_keys = ON".to_owned()),
                        ),
                        Dialect::Postgres => {
                            let command = self.create_command(self.table.as_str());
                            (Migration { stage: Stage::Creating, ..self }, command)
                        },
                    }
                }
            },
            Stage::EnablingForeignKeys => {
                let command = self.create_command(self.table.as_str());
                (Migration { stage: Stage::Creating, ..self }, command)
            },
            Stage::Creating => {
                let mut message = "Created table ".to_owned();
                message.append(self.table.as_str());
                message.append(" from schema");
                let mut changes: Vec<String> = Vec::new();
                changes.push(message);
                assert(views(changes@) =~= seq![created_message(self.table@)]);
                let result = MigrationResult {
                    action: MigrationAction::TableCreated,
                    backup_table: None,
                    rows_migrated: None,
                    schema_changes: changes,
                };
                (Migration { stage: Stage::Finished, ..self }, Command::Finish(result))
            },
            Stage::ReadingSchema => {
                let current = match reply {
                    Reply::Schema(columns) => columns,
                    _ => Vec::new(),
                };
                let comparison = compare_schemas(current.as_slice(), self.expected.as_slice());
                if !comparison.needs_migration {
                    let result = MigrationResult {
                        action: MigrationAction::SchemaMatched,
                        backup_table: None,
                        rows_migrated: None,
                        schema_changes: Vec::new(),
                    };
                    assert(views(result.schema_changes@) =~= Seq::<Seq<char>>::empty());
                    (Migration { stage: Stage::Finished, current, ..self }, Command::Finish(result))
                } else {
                    (
                        Migration {
                            stage: Stage::ReadingClock,
                            current,
                            changes: comparison.changes,
                            ..self
                        },
                        Command::ReadClock,
                    )
                }
            },
            Stage::ReadingClock => {
                let timestamp = match reply {
                    Reply::Clock(seconds) => seconds,
                    _ => 0,
                };
                let temp = temp_table_name(self.table.as_str(), timestamp);
                let command = self.create_command(temp.as_str());
                (Migration { stage: Stage::CreatingTemp, timestamp, ..self }, command)
            },
            Stage::CreatingTemp => {
                let temp = temp_table_name(self.table.as_str(), self.timestamp);
                let command = Command::Execute(
                    generate_data_migration_sql(
                        self.dialect,
                        self.table.as_str(),
                        temp.as_str(),
                        self.current.as_slice(),
                        self.expected.as_slice(),
                    ),
                );
                (Migration { stage: Stage::Copying, ..self }, command)
            },
            Stage::Copying => {
                let backup = backup_table_name(
                    self.table.as_str(),
                    self.config.suffix(),
                    self.timestamp,
                );
                let command = Command::Execute(rename_table(self.table.as_str(), backup.as_str()));
                (Migration { stage: Stage::RenamingToBackup, ..self }, command)
            },
            Stage::RenamingToBackup => {
                let temp = temp_table_name(self.table.as_str(), self.timestamp);
                let command = Command::Execute(rename_table(temp.as_str(), self.table.as_str()));
                (Migration { stage: Stage::RenamingToTable, ..self }, command)
            },
            Stage::RenamingToTable => {
                let command = Command::CountRows(count_rows(self.table.as_str()));
                (Migration { stage: Stage::Counting, ..self }, command)
            },
            Stage::Counting => {
                let count = match reply {
                    Reply::Count(n) => n,
                    _ => 0,
                };
                let rows: u64 = if count < 0 {
                    0
                } else {
                    count as u64
                };
                let command = Command::ListBackups(
                    list_backups(self.dialect, self.table.as_str(), self.config.suffix()),
                );
                (Migration { stage: Stage::ListingBackups, rows, ..self }, command)
            },
            Stage::ListingBackups => {
                let names = match reply {
                    Reply::Names(names) => names,
                    _ => Vec::new(),
                };
                (
                    Migration { stage: Stage::ReadingSweepClock, candidates: names, ..self },
                    Command::ReadClock,
                )
            },
            Stage::ReadingSweepClock => {
                let now = match reply {
                    Reply::Clock(seconds) => seconds,
                    _ => 0,
                };
                let tables = get_all_migration_tables(&self.candidates, self.config.suffix());
                let drops = check_backups_retention(tables, now, &self.config);
                let planned = Migration { drops, dropped: 0, ..self };
                planned.drop_next()
            },
            Stage::Dropping => self.drop_next(),
            // A finished migration waits for no reply, so this is never
            // reached.
            Stage::Finished => (self, Command::ReadClock),
        }
    }
}

} // verus!
