//! Why a rebuild loses nothing.
//!
//! The executor's statements are text for an engine that this library does
//! not see. This module says what the statements are taken to mean, on a
//! model of a database as a map from table names to tables, and proves of
//! that model that a rebuild keeps the old table whole under the backup's
//! name and carries every row's shared columns over into the new table.

use crate::migrations::ddl::{copy_sql, create_table_sql};
use crate::migrations::dialect::Dialect;
use crate::migrations::executor::{
    backup_of, created, matched, rows_of, temp_of, CommandSpec, MigrationSpec, ReplySpec, Stage,
};
use crate::migrations::diff_facts::lemma_gained_unique_is_one_change;
use crate::migrations::executor_facts::{
    commands, done_times, lemma_migrated_table_is_left_alone, lemma_missing_table_is_created,
    lemma_rebuild_run, lemma_rebuild_steps, rebuild_replies, replies_without_table,
};
use crate::migrations::retention::{
    backup_name, backups_among, sweep, temp_name, too_old, BackupSpec,
};
use crate::migrations::retention_facts::{
    lemma_dropped_are_listed, lemma_newest_backup_stays, lemma_unlisted_table_stays,
};
use crate::migrations::schema::{
    find_column, names_unique, schema_diff, ActionSpec, ColumnSpec, ResultSpec,
};
use crate::migrations::statements::{drop_sql, rename_sql};
use crate::text::decimal;
use vstd::prelude::*;

verus! {

/// What a row holds in one column.
pub enum Cell {
    Null,
    Integer(int),
    /// A float, by its bit pattern.
    Real(int),
    Text(Seq<char>),
    /// Bytes, such as a codec blob.
    Blob(Seq<u8>),
    Boolean(bool),
}

/// A table: its columns and its rows in row order, each row a map from
/// column names to cells.
pub struct TableData {
    pub columns: Seq<ColumnSpec>,
    pub rows: Seq<Map<Seq<char>, Cell>>,
}

/// A statement of a migration.
pub enum Statement {
    /// Create the table with these columns, unless it exists.
    CreateTable { table: Seq<char>, columns: Seq<ColumnSpec> },
    /// Copy all rows of the source table into the target table.
    CopyRows {
        source_table: Seq<char>,
        target_table: Seq<char>,
        source: Seq<ColumnSpec>,
        target: Seq<ColumnSpec>,
    },
    /// Give the table another name.
    RenameTable { from: Seq<char>, to: Seq<char> },
    /// Drop the table if it exists.
    DropTable { table: Seq<char> },
}

impl Statement {
    /// The statement as the executor writes it.
    pub open spec fn sql(self, dialect: Dialect) -> Seq<char> {
        match self {
            Statement::CreateTable { table, columns } => create_table_sql(dialect, table, columns),
            Statement::CopyRows { source_table, target_table, source, target } => copy_sql(
                dialect,
                source_table,
                target_table,
                source,
                target,
            ),
            Statement::RenameTable { from, to } => rename_sql(from, to),
            Statement::DropTable { table } => drop_sql(table),
        }
    }
}

/// What fills a column that the old table lacks: null for a nullable
/// column, else a value of the column's type, which is what the copy's
/// literal for that type denotes.
pub open spec fn filled(t: ColumnSpec) -> Cell {
    if t.nullable {
        Cell::Null
    } else if t.sql_type == "INTEGER"@ || t.sql_type == "BIGINT"@ {
        Cell::Integer(0)
    } else if t.sql_type == "REAL"@ || t.sql_type == "DOUBLE PRECISION"@ {
        Cell::Real(0)
    } else if t.sql_type == "BOOLEAN"@ {
        Cell::Boolean(false)
    } else if t.sql_type == "BLOB"@ || t.sql_type == "BYTEA"@ {
        Cell::Blob(Seq::empty())
    } else if t.sql_type == "JSONB"@ {
        Cell::Text("{}"@)
    } else if t.sql_type == "TIMESTAMP WITH TIME ZONE"@ {
        Cell::Text("1970-01-01T00:00:00Z"@)
    } else {
        Cell::Text(Seq::empty())
    }
}

/// Whether the table has a column of that name that may not be null.
pub open spec fn required(cols: Seq<ColumnSpec>, name: Seq<char>) -> bool {
    find_column(cols, name) matches Some(k) && !cols[k].nullable
}

/// The row that the copy makes of a row of the old table: for every column
/// of the new table, the old row's cell of that name where the old table has
/// such a column, else what fills the column.
pub open spec fn copied_row(
    row: Map<Seq<char>, Cell>,
    source: Seq<ColumnSpec>,
    target: Seq<ColumnSpec>,
) -> Map<Seq<char>, Cell> {
    Map::new(
        |name: Seq<char>| find_column(target, name) is Some,
        |name: Seq<char>|
            if find_column(source, name) is Some {
                row[name]
            } else {
                filled(target[find_column(target, name)->Some_0])
            },
    )
}

/// The rows that the copy makes of the rows of the old table, in their
/// order.
pub open spec fn copied_rows(
    rows: Seq<Map<Seq<char>, Cell>>,
    source: Seq<ColumnSpec>,
    target: Seq<ColumnSpec>,
) -> Seq<Map<Seq<char>, Cell>> {
    Seq::new(rows.len(), |i: int| copied_row(rows[i], source, target))
}

/// What a statement makes of a database; `None` where the engine refuses
/// it: a copy from or into a table that is not there, a rename of a table
/// that is not there or to a name that is taken.
pub open spec fn apply(db: Map<Seq<char>, TableData>, statement: Statement) -> Option<
    Map<Seq<char>, TableData>,
> {
    match statement {
        Statement::CreateTable { table, columns } => if db.dom().contains(table) {
            Some(db)
        } else {
            Some(db.insert(table, TableData { columns, rows: Seq::empty() }))
        },
        Statement::CopyRows { source_table, target_table, source, target } => if db.dom().contains(
            source_table,
        ) && db.dom().contains(target_table) {
            Some(
                db.insert(
                    target_table,
                    TableData {
                        columns: db[target_table].columns,
                        rows: db[target_table].rows + copied_rows(
                            db[source_table].rows,
                            source,
                            target,
                        ),
                    },
                ),
            )
        } else {
            None
        },
        Statement::RenameTable { from, to } => if db.dom().contains(from) && !db.dom().contains(to) {
            Some(db.remove(from).insert(to, db[from]))
        } else {
            None
        },
        Statement::DropTable { table } => Some(db.remove(table)),
    }
}

/// What a run of statements makes of a database; `None` as soon as one is
/// refused.
pub open spec fn run(db: Map<Seq<char>, TableData>, statements: Seq<Statement>) -> Option<
    Map<Seq<char>, TableData>,
>
    decreases statements.len(),
{
    if statements.len() == 0 {
        Some(db)
    } else {
        match apply(db, statements[0]) {
            None => None,
            Some(after) => run(after, statements.drop_first()),
        }
    }
}

/// The four statements of a rebuild, in order: create the new table under
/// the temporary name, copy the rows, rename the old table to the backup,
/// rename the new table to the table's name.
pub open spec fn rebuild(
    table: Seq<char>,
    temp: Seq<char>,
    backup: Seq<char>,
    current: Seq<ColumnSpec>,
    expected: Seq<ColumnSpec>,
) -> Seq<Statement> {
    seq![
        Statement::CreateTable { table: temp, columns: expected },
        Statement::CopyRows { source_table: table, target_table: temp, source: current, target: expected },
        Statement::RenameTable { from: table, to: backup },
        Statement::RenameTable { from: temp, to: table },
    ]
}

/// The drop statements of a sweep.
pub open spec fn drop_all(names: Seq<Seq<char>>) -> Seq<Statement> {
    Seq::new(names.len(), |i: int| Statement::DropTable { table: names[i] })
}

/// A rebuild loses nothing. In a database that has the table, and no table
/// under the temporary name or the backup's name, the four statements all
/// run, and afterwards:
/// the backup is the old table, with every row and every cell as it was;
/// the table has the model's columns and as many rows as before;
/// in every row, every column that both the old table and the model have
/// holds what it held, blobs included;
/// in every row, a non-nullable column that the old table lacks holds a
/// value and not null;
/// the temporary name is free again, and no other table was touched.
pub proof fn lemma_rebuild_loses_nothing(
    db: Map<Seq<char>, TableData>,
    table: Seq<char>,
    temp: Seq<char>,
    backup: Seq<char>,
    current: Seq<ColumnSpec>,
    expected: Seq<ColumnSpec>,
)
    requires
        db.dom().contains(table),
        !db.dom().contains(temp),
        !db.dom().contains(backup),
        table != temp,
        table != backup,
        temp != backup,
    ensures
        run(db, rebuild(table, temp, backup, current, expected)) matches Some(after) && {
            &&& after.dom().contains(backup)
            &&& after[backup] == db[table]
            &&& after.dom().contains(table)
            &&& after[table].columns == expected
            &&& after[table].rows.len() == db[table].rows.len()
            &&& forall|i: int, name: Seq<char>|
                0 <= i < db[table].rows.len() && find_column(current, name) is Some && find_column(
                    expected,
                    name,
                ) is Some ==> #[trigger] after[table].rows[i][name] == db[table].rows[i][name]
            &&& forall|i: int, name: Seq<char>|
                0 <= i < db[table].rows.len() && find_column(current, name) is None && required(
                    expected,
                    name,
                ) ==> !(#[trigger] after[table].rows[i][name] is Null)
            &&& !after.dom().contains(temp)
            &&& forall|other: Seq<char>|
                other != table && other != temp && other != backup ==> (after.dom().contains(other)
                    <==> db.dom().contains(other)) && after[other] == db[other]
        },
{
    let steps = rebuild(table, temp, backup, current, expected);
    let old = db[table];
    let db1 = db.insert(temp, TableData { columns: expected, rows: Seq::empty() });
    let rows = copied_rows(old.rows, current, expected);
    let db2 = db1.insert(temp, TableData { columns: expected, rows: Seq::empty() + rows });
    let db3 = db2.remove(table).insert(backup, old);
    let db4 = db3.remove(temp).insert(table, db3[temp]);
    let s1 = steps.drop_first();
    let s2 = s1.drop_first();
    let s3 = s2.drop_first();
    let s4 = s3.drop_first();
    assert(s4.len() == 0);
    assert(apply(db, steps[0]) == Some(db1));
    assert(db1[table] == old);
    assert(apply(db1, s1[0]) == Some(db2));
    assert(db2[table] == old);
    assert(apply(db2, s2[0]) == Some(db3));
    assert(db3.dom().contains(temp) && !db3.dom().contains(table));
    assert(apply(db3, s3[0]) == Some(db4));
    assert(run(db4, s4) == Some(db4));
    assert(run(db3, s3) == Some(db4));
    assert(run(db2, s2) == Some(db4));
    assert(run(db1, s1) == Some(db4));
    assert(run(db, steps) == Some(db4));
    assert(db4[table].rows =~= rows);
    assert forall|i: int, name: Seq<char>|
        0 <= i < old.rows.len() && find_column(current, name) is Some && find_column(
            expected,
            name,
        ) is Some implies #[trigger] db4[table].rows[i][name] == old.rows[i][name] by {
        assert(rows[i] == copied_row(old.rows[i], current, expected));
    }
    assert forall|i: int, name: Seq<char>|
        0 <= i < old.rows.len() && find_column(current, name) is None && required(
            expected,
            name,
        ) implies !(#[trigger] db4[table].rows[i][name] is Null) by {
        assert(rows[i] == copied_row(old.rows[i], current, expected));
    }
}

/// Dropping tables leaves every other table as it was.
pub proof fn lemma_drops_touch_nothing_else(
    db: Map<Seq<char>, TableData>,
    names: Seq<Seq<char>>,
    kept: Seq<char>,
)
    requires
        forall|i: int| 0 <= i < names.len() ==> names[i] != kept,
    ensures
        run(db, drop_all(names)) matches Some(after) && (after.dom().contains(kept)
            <==> db.dom().contains(kept)) && after[kept] == db[kept],
    decreases names.len(),
{
    let steps = drop_all(names);
    if names.len() > 0 {
        let rest = names.drop_first();
        assert(steps.drop_first() =~= drop_all(rest));
        assert(steps[0] == Statement::DropTable { table: names[0] });
        assert forall|i: int| 0 <= i < rest.len() implies rest[i] != kept by {
            assert(rest[i] == names[i + 1]);
        }
        lemma_drops_touch_nothing_else(db.remove(names[0]), rest, kept);
    }
}

/// A whole migration loses nothing: rebuild and sweep together. Where the
/// sweep drops neither the backup just made nor the table, the backup is the
/// old table after the last statement, and the table holds the copied rows.
pub proof fn lemma_migration_loses_nothing(
    db: Map<Seq<char>, TableData>,
    table: Seq<char>,
    temp: Seq<char>,
    backup: Seq<char>,
    current: Seq<ColumnSpec>,
    expected: Seq<ColumnSpec>,
    drops: Seq<Seq<char>>,
)
    requires
        db.dom().contains(table),
        !db.dom().contains(temp),
        !db.dom().contains(backup),
        table != temp,
        table != backup,
        temp != backup,
        forall|i: int| 0 <= i < drops.len() ==> drops[i] != backup && drops[i] != table,
    ensures
        run(db, rebuild(table, temp, backup, current, expected) + drop_all(drops)) matches Some(
            after,
        ) && {
            &&& after.dom().contains(backup)
            &&& after[backup] == db[table]
            &&& after[backup].rows.len() == db[table].rows.len()
            &&& after.dom().contains(table)
            &&& after[table].rows.len() == db[table].rows.len()
            &&& forall|i: int, name: Seq<char>|
                0 <= i < db[table].rows.len() && find_column(current, name) is Some && find_column(
                    expected,
                    name,
                ) is Some ==> #[trigger] after[table].rows[i][name] == db[table].rows[i][name]
            &&& forall|i: int, name: Seq<char>|
                0 <= i < db[table].rows.len() && find_column(current, name) is None && required(
                    expected,
                    name,
                ) ==> !(#[trigger] after[table].rows[i][name] is Null)
        },
{
    let first = rebuild(table, temp, backup, current, expected);
    let rest = drop_all(drops);
    lemma_rebuild_loses_nothing(db, table, temp, backup, current, expected);
    let mid = run(db, first)->Some_0;
    lemma_run_split(db, first, rest);
    lemma_drops_touch_nothing_else(mid, drops, backup);
    lemma_drops_touch_nothing_else(mid, drops, table);
}

/// A run is split at any point.
pub proof fn lemma_run_split(
    db: Map<Seq<char>, TableData>,
    first: Seq<Statement>,
    rest: Seq<Statement>,
)
    ensures
        run(db, first + rest) == match run(db, first) {
            Some(mid) => run(mid, rest),
            None => None,
        },
    decreases first.len(),
{
    if first.len() == 0 {
        assert(first + rest =~= rest);
    } else {
        assert((first + rest)[0] == first[0]);
        assert((first + rest).drop_first() =~= first.drop_first() + rest);
        match apply(db, first[0]) {
            Some(after) => {
                lemma_run_split(after, first.drop_first(), rest);
            },
            None => {},
        }
    }
}

/// The texts of a run of statements.
pub open spec fn statement_texts(dialect: Dialect, statements: Seq<Statement>) -> Seq<Seq<char>> {
    Seq::new(statements.len(), |i: int| statements[i].sql(dialect))
}

/// The statements that the executor runs for a rebuild are those of the
/// model, in the model's order: the executor's run of a drifted table holds,
/// behind the two readings it starts with, the four statements of `rebuild`
/// under the names of this migration.
pub proof fn lemma_executor_runs_rebuild(
    m: MigrationSpec,
    current: Seq<ColumnSpec>,
    seconds: nat,
    count: int,
    names: Seq<Seq<char>>,
    now: nat,
)
    requires
        m.stage == Stage::CheckingExists,
        schema_diff(current, m.expected).len() > 0,
    ensures
        ({
            let at = MigrationSpec { timestamp: seconds, ..m };
            let run = commands(m, rebuild_replies(current, seconds, count, names, now));
            let texts = statement_texts(
                m.dialect,
                rebuild(m.table, temp_of(at), backup_of(at), current, m.expected),
            );
            run.len() == 10 && forall|i: int|
                0 <= i < 4 ==> #[trigger] run[2 + i] == CommandSpec::Execute(texts[i])
        }),
{
    lemma_rebuild_steps(m, current, seconds, count, names, now);
}

/// A numeral has at least one digit.
pub proof fn lemma_decimal_not_empty(n: nat)
    ensures
        decimal(n).len() >= 1,
    decreases n,
{
    if n >= 10 {
        lemma_decimal_not_empty(n / 10);
    }
}

/// The names of a migration do not collide: the temporary name and the
/// backup's name both differ from the table's name, and from one another
/// unless the backups' suffix is `temp`.
pub proof fn lemma_names_distinct(table: Seq<char>, suffix: Seq<char>, seconds: nat)
    ensures
        temp_name(table, seconds) != table,
        backup_name(table, suffix, seconds) != table,
        suffix != "temp"@ ==> temp_name(table, seconds) != backup_name(table, suffix, seconds),
{
    reveal_strlit("_temp_");
    reveal_strlit("_");
    reveal_strlit("temp");
    lemma_decimal_not_empty(seconds);
    let d = decimal(seconds);
    let temp = temp_name(table, seconds);
    let backup = backup_name(table, suffix, seconds);
    assert(temp.len() == table.len() + 6 + d.len());
    assert(backup.len() == table.len() + 2 + suffix.len() + d.len());
    if temp == backup {
        assert(suffix.len() == 4);
        assert forall|k: int| 0 <= k < 4 implies suffix[k] == "temp"@[k] by {
            assert(backup[table.len() + 1 + k] == suffix[k]);
            assert(temp[table.len() + 1 + k] == "_temp_"@[1 + k]);
        }
        assert(suffix =~= "temp"@);
    }
}

/// The statements of a whole rebuild with its sweep, as the executor runs
/// them for a migration at `seconds` whose sweep plans `drops`.
pub open spec fn migration_statements(
    m: MigrationSpec,
    current: Seq<ColumnSpec>,
    seconds: nat,
    drops: Seq<Seq<char>>,
) -> Seq<Statement> {
    let at = MigrationSpec { timestamp: seconds, ..m };
    rebuild(m.table, temp_of(at), backup_of(at), current, m.expected) + drop_all(drops)
}

/// Zero loss. A migration that rebuilds a table keeps the old table whole:
/// in a database that has the table and has no table under the names this
/// migration makes up, every statement of the rebuild and of the sweep runs,
/// and afterwards the backup holds the old table with every row and every
/// cell as it was, so as many rows as before; the table has as many rows as
/// before; in every row every column that the old table and the model
/// share holds what it held, a blob byte for byte; and a non-nullable column
/// that the old table lacks holds a value in every row.
///
/// This is what the executor's statements do on the model of this module.
/// It asks that the backups' suffix is not `temp`, with which the temporary
/// name and the backup's name would be one, and that the sweep drops neither
/// the backup just made nor the table, for which `lemma_newest_backup_stays`
/// and `lemma_unlisted_table_stays` say when that is so.
pub proof fn lemma_zero_loss(
    db: Map<Seq<char>, TableData>,
    m: MigrationSpec,
    current: Seq<ColumnSpec>,
    seconds: nat,
    drops: Seq<Seq<char>>,
)
    requires
        m.suffix != "temp"@,
        db.dom().contains(m.table),
        !db.dom().contains(temp_name(m.table, seconds)),
        !db.dom().contains(backup_name(m.table, m.suffix, seconds)),
        forall|i: int|
            0 <= i < drops.len() ==> drops[i] != backup_name(m.table, m.suffix, seconds)
                && drops[i] != m.table,
    ensures
        run(db, migration_statements(m, current, seconds, drops)) matches Some(after) && {
            let backup = backup_name(m.table, m.suffix, seconds);
            &&& after.dom().contains(backup)
            &&& after[backup] == db[m.table]
            &&& after[backup].rows.len() == db[m.table].rows.len()
            &&& after.dom().contains(m.table)
            &&& after[m.table].rows.len() == db[m.table].rows.len()
            &&& forall|i: int, name: Seq<char>|
                0 <= i < db[m.table].rows.len() && find_column(current, name) is Some
                    && find_column(m.expected, name) is Some
                    ==> #[trigger] after[m.table].rows[i][name] == db[m.table].rows[i][name]
            &&& forall|i: int, name: Seq<char>|
                0 <= i < db[m.table].rows.len() && find_column(current, name) is None && required(
                    m.expected,
                    name,
                ) ==> !(#[trigger] after[m.table].rows[i][name] is Null)
        },
{
    lemma_names_distinct(m.table, m.suffix, seconds);
    lemma_migration_loses_nothing(
        db,
        m.table,
        temp_name(m.table, seconds),
        backup_name(m.table, m.suffix, seconds),
        current,
        m.expected,
        drops,
    );
}

/// Whether the backup named `name`, where the list holds it, is newer than
/// every other backup of the list, alone under its name, and not too old at
/// `now`.
pub open spec fn newest_and_fresh(backups: Seq<BackupSpec>, name: Seq<char>, now: nat, days: nat) -> bool {
    forall|j: int|
        0 <= j < backups.len() && (#[trigger] backups[j]).name == name ==> !too_old(
            now,
            backups[j].timestamp,
            days,
        ) && forall|k: int|
            0 <= k < backups.len() && k != j ==> (#[trigger] backups[k]).timestamp
                < backups[j].timestamp && backups[k].name != name
}

/// With the backups' suffix `temp` the temporary name and the backup's name
/// are one.
pub proof fn lemma_names_collide(table: Seq<char>, seconds: nat)
    ensures
        temp_name(table, seconds) == backup_name(table, "temp"@, seconds),
{
    reveal_strlit("_temp_");
    reveal_strlit("_");
    reveal_strlit("temp");
    assert("_temp_"@ =~= "_"@ + "temp"@ + "_"@);
    assert(temp_name(table, seconds) =~= backup_name(table, "temp"@, seconds));
}

/// Zero loss of a whole migration, the sweep that ends it included. The
/// executor plans the sweep from the names that the engine lists and the
/// time it reads. Where at least one backup is kept, the listing does not
/// hold the table itself, and the backup just made is the newest of the
/// listed backups and not too old, the sweep drops neither the backup nor
/// the table. So wherever the engine runs every statement of the migration,
/// the backup holds the old table with every row and every cell as it was,
/// the table has as many rows as before, every column that the old table and
/// the model share holds what it held, and a non-nullable column that the
/// old table lacks holds a value. Every statement runs unless the backups'
/// suffix is `temp`; with that suffix the engine refuses the rename to the
/// backup, and the old table stays where it was.
pub proof fn lemma_zero_loss_with_sweep(
    db: Map<Seq<char>, TableData>,
    m: MigrationSpec,
    current: Seq<ColumnSpec>,
    seconds: nat,
    names: Seq<Seq<char>>,
    now: nat,
)
    requires
        db.dom().contains(m.table),
        !db.dom().contains(temp_name(m.table, seconds)),
        !db.dom().contains(backup_name(m.table, m.suffix, seconds)),
        m.keep >= 1,
        forall|i: int| 0 <= i < names.len() ==> #[trigger] names[i] != m.table,
        newest_and_fresh(
            backups_among(names, m.suffix, names.len()),
            backup_name(m.table, m.suffix, seconds),
            now,
            m.days,
        ),
    ensures
        ({
            let drops = sweep(backups_among(names, m.suffix, names.len()), now, m.keep, m.days);
            let end = run(db, migration_statements(m, current, seconds, drops));
            let backup = backup_name(m.table, m.suffix, seconds);
            &&& m.suffix != "temp"@ ==> end is Some
            &&& end matches Some(after) ==> {
                &&& after.dom().contains(backup)
                &&& after[backup] == db[m.table]
                &&& after[backup].rows.len() == db[m.table].rows.len()
                &&& after.dom().contains(m.table)
                &&& after[m.table].rows.len() == db[m.table].rows.len()
                &&& forall|i: int, name: Seq<char>|
                    0 <= i < db[m.table].rows.len() && find_column(current, name) is Some
                        && find_column(m.expected, name) is Some
                        ==> #[trigger] after[m.table].rows[i][name] == db[m.table].rows[i][name]
                &&& forall|i: int, name: Seq<char>|
                    0 <= i < db[m.table].rows.len() && find_column(current, name) is None
                        && required(m.expected, name) ==> !(
                    #[trigger] after[m.table].rows[i][name] is Null)
            }
        }),
{
    let backups = backups_among(names, m.suffix, names.len());
    let drops = sweep(backups, now, m.keep, m.days);
    let backup = backup_name(m.table, m.suffix, seconds);
    let temp = temp_name(m.table, seconds);
    if m.suffix != "temp"@ {
        lemma_unlisted_table_stays(names, m.suffix, now, m.keep, m.days, m.table);
        if drops.contains(backup) {
            let x = choose|x: int| 0 <= x < drops.len() && drops[x] == backup;
            lemma_dropped_are_listed(backups, now, m.keep, m.days, x);
            let j = choose|j: int| 0 <= j < backups.len() && (#[trigger] backups[j]).name == drops[x];
            lemma_newest_backup_stays(backups, j, now, m.keep, m.days);
        }
        assert forall|i: int| 0 <= i < drops.len() implies drops[i] != backup && drops[i]
            != m.table by {
            assert(drops.contains(drops[i]));
        }
        lemma_zero_loss(db, m, current, seconds, drops);
    } else {
        lemma_names_collide(m.table, seconds);
        lemma_names_distinct(m.table, m.suffix, seconds);
        let first = rebuild(m.table, temp, backup, current, m.expected);
        let db1 = db.insert(temp, TableData { columns: m.expected, rows: Seq::empty() });
        let s1 = first.drop_first();
        let s2 = s1.drop_first();
        assert(apply(db, first[0]) == Some(db1));
        assert(apply(db1, s1[0]) is Some);
        let db2 = apply(db1, s1[0])->Some_0;
        assert(db2.dom().contains(backup));
        assert(apply(db2, s2[0]) is None);
        assert(run(db2, s2) is None);
        assert(run(db1, s1) is None);
        assert(run(db, first) is None);
        lemma_run_split(db, first, drop_all(drops));
    }
}

/// A column that gains uniqueness has its table rebuilt, and the row stays.
/// Where the model is the live table but for one column that the model
/// makes unique, the executor's run ends with `DataMigrated` from the backup
/// to the table, names the backup, gives the row count as it was read, and
/// holds the one message of the one change. On the model of the database,
/// wherever the engine runs every statement, the backup and the table both
/// hold as many rows as the table held, the backup's rows as they were. This
/// holds for every table whose column names are unique and every column of
/// it, under what `lemma_zero_loss_with_sweep` asks.
pub proof fn lemma_gained_unique_is_rebuilt(
    db: Map<Seq<char>, TableData>,
    m: MigrationSpec,
    current: Seq<ColumnSpec>,
    k: int,
    seconds: nat,
    count: int,
    names: Seq<Seq<char>>,
    now: nat,
)
    requires
        m.stage == Stage::CheckingExists,
        names_unique(current),
        0 <= k < current.len(),
        !current[k].is_unique,
        m.expected == current.update(k, ColumnSpec { is_unique: true, ..current[k] }),
        db.dom().contains(m.table),
        !db.dom().contains(temp_name(m.table, seconds)),
        !db.dom().contains(backup_name(m.table, m.suffix, seconds)),
        m.keep >= 1,
        forall|i: int| 0 <= i < names.len() ==> #[trigger] names[i] != m.table,
        newest_and_fresh(
            backups_among(names, m.suffix, names.len()),
            backup_name(m.table, m.suffix, seconds),
            now,
            m.days,
        ),
    ensures
        ({
            let drops = sweep(backups_among(names, m.suffix, names.len()), now, m.keep, m.days);
            let backup = backup_name(m.table, m.suffix, seconds);
            &&& commands(
                m,
                rebuild_replies(current, seconds, count, names, now) + done_times(drops.len()),
            ).last() == CommandSpec::Finish(
                ResultSpec {
                    action: ActionSpec::DataMigrated { from: backup, to: m.table },
                    backup_table: Some(backup),
                    rows_migrated: Some(rows_of(count) as u64),
                    schema_changes: seq![
                        "Unique constraint mismatch"@ + " for "@ + current[k].name + ": "@
                            + "false"@ + " vs "@ + "true"@,
                    ],
                },
            )
            &&& run(db, migration_statements(m, current, seconds, drops)) matches Some(after)
                ==> after.dom().contains(backup) && after[backup] == db[m.table]
                && after.dom().contains(m.table) && after[m.table].rows.len()
                == db[m.table].rows.len()
        }),
{
    lemma_gained_unique_is_one_change(current, k);
    lemma_rebuild_run(m, current, seconds, count, names, now);
    lemma_zero_loss_with_sweep(db, m, current, seconds, names, now);
}

/// Migrating twice is migrating once. Where there is no table, the first
/// migration creates it and ends with `TableCreated`; the table then has the
/// model's columns; and a second migration of the same model, which finds
/// the table and reads those columns, ends with `SchemaMatched` without
/// running a statement, so that no backup is made. This holds for every
/// model with unique column names, on the reading that a table has the
/// columns it was created with.
pub proof fn lemma_second_migration_matches(db: Map<Seq<char>, TableData>, m: MigrationSpec)
    requires
        m.stage == Stage::CheckingExists,
        names_unique(m.expected),
        !db.dom().contains(m.table),
    ensures
        commands(m, replies_without_table(m.dialect)).last() == CommandSpec::Finish(created(m)),
        apply(db, Statement::CreateTable { table: m.table, columns: m.expected }) matches Some(
            after,
        ) && after.dom().contains(m.table) && after[m.table].columns == m.expected && commands(
            m,
            seq![
                ReplySpec::Exists(after.dom().contains(m.table)),
                ReplySpec::Schema(after[m.table].columns),
            ],
        ) == seq![CommandSpec::ReadSchema(m.table), CommandSpec::Finish(matched())],
{
    lemma_missing_table_is_created(m);
    lemma_migrated_table_is_left_alone(m);
}

} // verus!
