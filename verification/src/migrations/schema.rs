//! Column descriptors and the schema comparator.
//!
//! A table is an ordered list of column descriptors. The comparator takes the
//! list a model expects and the list the live table has, and reports every
//! difference on its own: nothing is short-circuited, so one column can give
//! several changes.

use crate::text::{bool_text, decimal, signed_decimal, views};
use vstd::prelude::*;
use vstd::string::*;

verus! {

/// What is known of one column, be it from a model or from the catalog.
#[derive(Debug)]
pub struct ColumnInfo {
    /// Column name; no two columns of a table share one.
    pub name: String,
    /// Column type as the dialect writes it, in upper case.
    pub sql_type: String,
    pub nullable: bool,
    /// Ordinal of the column, from 0.
    pub position: i32,
    pub is_unique: bool,
    pub is_primary_key: bool,
    /// The table that the column refers to, where it is a foreign key.
    pub foreign_key_reference: Option<String>,
    pub has_default: bool,
    /// Whether the column holds codec blobs.
    pub is_compressed: bool,
}

/// A column descriptor as a mathematical value.
pub struct ColumnSpec {
    pub name: Seq<char>,
    pub sql_type: Seq<char>,
    pub nullable: bool,
    pub position: int,
    pub is_unique: bool,
    pub is_primary_key: bool,
    pub foreign_key_reference: Option<Seq<char>>,
    pub has_default: bool,
    pub is_compressed: bool,
}

impl View for ColumnInfo {
    type V = ColumnSpec;

    open spec fn view(&self) -> ColumnSpec {
        ColumnSpec {
            name: self.name@,
            sql_type: self.sql_type@,
            nullable: self.nullable,
            position: self.position as int,
            is_unique: self.is_unique,
            is_primary_key: self.is_primary_key,
            foreign_key_reference: match self.foreign_key_reference {
                Some(s) => Some(s@),
                None => None,
            },
            has_default: self.has_default,
            is_compressed: self.is_compressed,
        }
    }
}

impl Clone for ColumnInfo {
    fn clone(&self) -> (c: Self)
        ensures
            c@ == self@,
    {
        ColumnInfo {
            name: self.name.clone(),
            sql_type: self.sql_type.clone(),
            nullable: self.nullable,
            position: self.position,
            is_unique: self.is_unique,
            is_primary_key: self.is_primary_key,
            foreign_key_reference: match &self.foreign_key_reference {
                Some(s) => Some(s.clone()),
                None => None,
            },
            has_default: self.has_default,
            is_compressed: self.is_compressed,
        }
    }
}

/// The columns of a list as mathematical values.
pub open spec fn column_specs(cols: Seq<ColumnInfo>) -> Seq<ColumnSpec> {
    Seq::new(cols.len(), |i: int| cols[i]@)
}

/// No two columns share a name.
pub open spec fn names_unique(cols: Seq<ColumnSpec>) -> bool {
    forall|i: int, j: int|
        0 <= i < cols.len() && 0 <= j < cols.len() && i != j ==> (#[trigger] cols[i]).name != (
        #[trigger] cols[j]).name
}

/// At most one column is the primary key.
pub open spec fn at_most_one_primary_key(cols: Seq<ColumnSpec>) -> bool {
    forall|i: int, j: int|
        0 <= i < cols.len() && 0 <= j < cols.len() && (#[trigger] cols[i]).is_primary_key && (
        #[trigger] cols[j]).is_primary_key ==> i == j
}

/// A valid table: names are unique and there is at most one primary key.
pub open spec fn valid_schema(cols: Seq<ColumnSpec>) -> bool {
    names_unique(cols) && at_most_one_primary_key(cols)
}

/// The index of the column named `name`: the last one, should several share
/// the name.
pub open spec fn find_column(cols: Seq<ColumnSpec>, name: Seq<char>) -> Option<int>
    decreases cols.len(),
{
    if cols.len() == 0 {
        None
    } else if cols.last().name == name {
        Some(cols.len() - 1)
    } else {
        find_column(cols.drop_last(), name)
    }
}

/// What `find_column` finds: a column of that name with none of that name
/// behind it, or that there is none at all.
pub proof fn lemma_find_column(cols: Seq<ColumnSpec>, name: Seq<char>)
    ensures
        match find_column(cols, name) {
            Some(j) => 0 <= j < cols.len() && cols[j].name == name && forall|k: int|
                j < k < cols.len() ==> (#[trigger] cols[k]).name != name,
            None => forall|k: int| 0 <= k < cols.len() ==> (#[trigger] cols[k]).name != name,
        },
    decreases cols.len(),
{
    if cols.len() > 0 && cols.last().name != name {
        lemma_find_column(cols.drop_last(), name);
        assert forall|k: int| 0 <= k < cols.len() - 1 implies cols.drop_last()[k] == cols[k] by {}
        match find_column(cols.drop_last(), name) {
            Some(j) => {
                assert forall|k: int| j < k < cols.len() implies (#[trigger] cols[k]).name
                    != name by {
                    if k < cols.len() - 1 {
                        assert(cols.drop_last()[k] == cols[k]);
                    }
                }
            },
            None => {
                assert forall|k: int| 0 <= k < cols.len() implies (#[trigger] cols[k]).name
                    != name by {
                    if k < cols.len() - 1 {
                        assert(cols.drop_last()[k] == cols[k]);
                    }
                }
            },
        }
    }
}

/// Where names are unique, a column is found at its own index.
pub proof fn lemma_find_own(cols: Seq<ColumnSpec>, i: int)
    requires
        names_unique(cols),
        0 <= i < cols.len(),
    ensures
        find_column(cols, cols[i].name) == Some(i),
{
    lemma_find_column(cols, cols[i].name);
}

/// What a change is about.
#[derive(Debug, Clone, Copy, PartialEq, Eq, Structural)]
pub enum ChangeKind {
    ColumnCount,
    Type,
    Nullability,
    Position,
    Unique,
    PrimaryKey,
    Compression,
    Missing,
    Extra,
}

/// One difference between the live table and the model: its kind, the column
/// it is about (none for the column count), and both values as text, the live
/// table's first.
pub struct Change {
    pub kind: ChangeKind,
    pub column: Seq<char>,
    pub current: Seq<char>,
    pub expected: Seq<char>,
}

/// The message of a change.
pub open spec fn render(change: Change) -> Seq<char> {
    match change.kind {
        ChangeKind::ColumnCount => "Column count differs: "@ + change.current + " vs "@
            + change.expected,
        ChangeKind::Missing => "Missing column: "@ + change.column,
        ChangeKind::Extra => "Extra column: "@ + change.column,
        ChangeKind::Type => mismatch("Type mismatch"@, change),
        ChangeKind::Nullability => mismatch("Nullability mismatch"@, change),
        ChangeKind::Position => mismatch("Position mismatch"@, change),
        ChangeKind::Unique => mismatch("Unique constraint mismatch"@, change),
        ChangeKind::PrimaryKey => mismatch("Primary key mismatch"@, change),
        ChangeKind::Compression => mismatch("Compression mismatch"@, change),
    }
}

/// `<label> for <column>: <current> vs <expected>`.
pub open spec fn mismatch(label: Seq<char>, change: Change) -> Seq<char> {
    label + " for "@ + change.column + ": "@ + change.current + " vs "@ + change.expected
}

/// The messages of a list of changes, in order.
pub open spec fn render_all(changes: Seq<Change>) -> Seq<Seq<char>> {
    Seq::new(changes.len(), |i: int| render(changes[i]))
}

/// One change where `differs` holds, none where it does not.
pub open spec fn change_if(differs: bool, change: Change) -> Seq<Change> {
    if differs {
        seq![change]
    } else {
        Seq::empty()
    }
}

/// The differences between a live column and the model's column of the same
/// name, field by field: type, nullability, position, uniqueness, primary
/// key, compression.
pub open spec fn field_diffs(c: ColumnSpec, e: ColumnSpec) -> Seq<Change> {
    change_if(
        c.sql_type != e.sql_type,
        Change {
            kind: ChangeKind::Type,
            column: e.name,
            current: c.sql_type,
            expected: e.sql_type,
        },
    ) + change_if(
        c.nullable != e.nullable,
        Change {
            kind: ChangeKind::Nullability,
            column: e.name,
            current: bool_text(c.nullable),
            expected: bool_text(e.nullable),
        },
    ) + change_if(
        c.position != e.position,
        Change {
            kind: ChangeKind::Position,
            column: e.name,
            current: signed_decimal(c.position),
            expected: signed_decimal(e.position),
        },
    ) + change_if(
        c.is_unique != e.is_unique,
        Change {
            kind: ChangeKind::Unique,
            column: e.name,
            current: bool_text(c.is_unique),
            expected: bool_text(e.is_unique),
        },
    ) + change_if(
        c.is_primary_key != e.is_primary_key,
        Change {
            kind: ChangeKind::PrimaryKey,
            column: e.name,
            current: bool_text(c.is_primary_key),
            expected: bool_text(e.is_primary_key),
        },
    ) + change_if(
        c.is_compressed != e.is_compressed,
        Change {
            kind: ChangeKind::Compression,
            column: e.name,
            current: bool_text(c.is_compressed),
            expected: bool_text(e.is_compressed),
        },
    )
}

/// The changes that one column of the model gives: that it is missing from
/// the live table, or how the live column of its name differs.
pub open spec fn column_diff(current: Seq<ColumnSpec>, e: ColumnSpec) -> Seq<Change> {
    match find_column(current, e.name) {
        None => seq![
            Change {
                kind: ChangeKind::Missing,
                column: e.name,
                current: Seq::empty(),
                expected: Seq::empty(),
            },
        ],
        Some(j) => field_diffs(current[j], e),
    }
}

/// The changes of the first `k` columns of the model, in the model's order.
pub open spec fn expected_diffs(current: Seq<ColumnSpec>, expected: Seq<ColumnSpec>, k: nat) -> Seq<
    Change,
>
    decreases k,
{
    if k == 0 {
        Seq::empty()
    } else {
        expected_diffs(current, expected, (k - 1) as nat) + column_diff(current, expected[k - 1])
    }
}

/// One change for each of the first `k` live columns that the model does not
/// name, in the live table's order.
pub open spec fn extra_diffs(current: Seq<ColumnSpec>, expected: Seq<ColumnSpec>, k: nat) -> Seq<
    Change,
>
    decreases k,
{
    if k == 0 {
        Seq::empty()
    } else {
        extra_diffs(current, expected, (k - 1) as nat) + change_if(
            find_column(expected, current[k - 1].name) is None,
            Change {
                kind: ChangeKind::Extra,
                column: current[k - 1].name,
                current: Seq::empty(),
                expected: Seq::empty(),
            },
        )
    }
}

/// The change for differing column counts.
pub open spec fn count_diff(current: Seq<ColumnSpec>, expected: Seq<ColumnSpec>) -> Seq<Change> {
    change_if(
        current.len() != expected.len(),
        Change {
            kind: ChangeKind::ColumnCount,
            column: Seq::empty(),
            current: decimal(current.len()),
            expected: decimal(expected.len()),
        },
    )
}

/// All changes between the live table and the model: the column count first,
/// then the model's columns in order, then the live table's extra columns.
pub open spec fn schema_diff(current: Seq<ColumnSpec>, expected: Seq<ColumnSpec>) -> Seq<Change> {
    count_diff(current, expected) + expected_diffs(current, expected, expected.len())
        + extra_diffs(current, expected, current.len())
}

/// The comparator's verdict.
#[derive(Debug, Clone)]
pub struct SchemaComparison {
    /// Whether anything differs.
    pub needs_migration: bool,
    /// One message for each difference.
    pub changes: Vec<String>,
    /// The live table's columns, as given.
    pub current_columns: Vec<ColumnInfo>,
    /// The model's columns, as given.
    pub expected_columns: Vec<ColumnInfo>,
}

/// What a migration did.
#[derive(Debug, Clone)]
pub enum MigrationAction {
    /// There was no table; it was created.
    TableCreated,
    /// The table matched the model; nothing was done.
    SchemaMatched,
    /// The table was rebuilt; `from` is the backup that holds the old table,
    /// `to` the table's name.
    DataMigrated { from: String, to: String },
}

/// The outcome of a migration call.
#[derive(Debug, Clone)]
pub struct MigrationResult {
    pub action: MigrationAction,
    /// The backup table, where one was made.
    pub backup_table: Option<String>,
    /// Rows in the rebuilt table, where it was rebuilt.
    pub rows_migrated: Option<u64>,
    /// What was changed, as messages.
    pub schema_changes: Vec<String>,
}

/// What a migration did, as a mathematical value.
pub enum ActionSpec {
    TableCreated,
    SchemaMatched,
    DataMigrated { from: Seq<char>, to: Seq<char> },
}

/// The outcome of a migration call as a mathematical value.
pub struct ResultSpec {
    pub action: ActionSpec,
    pub backup_table: Option<Seq<char>>,
    pub rows_migrated: Option<u64>,
    pub schema_changes: Seq<Seq<char>>,
}

impl View for MigrationAction {
    type V = ActionSpec;

    open spec fn view(&self) -> ActionSpec {
        match self {
            MigrationAction::TableCreated => ActionSpec::TableCreated,
            MigrationAction::SchemaMatched => ActionSpec::SchemaMatched,
            MigrationAction::DataMigrated { from, to } => ActionSpec::DataMigrated {
                from: from@,
                to: to@,
            },
        }
    }
}

impl View for MigrationResult {
    type V = ResultSpec;

    open spec fn view(&self) -> ResultSpec {
        ResultSpec {
            action: self.action@,
            backup_table: match self.backup_table {
                Some(name) => Some(name@),
                None => None,
            },
            rows_migrated: self.rows_migrated,
            schema_changes: views(self.schema_changes@),
        }
    }
}

impl MigrationAction {
    /// The action as text.
    pub open spec fn text(self) -> Seq<char> {
        match self {
            MigrationAction::TableCreated => "TableCreated"@,
            MigrationAction::SchemaMatched => "SchemaMatched"@,
            MigrationAction::DataMigrated { from, to } => "DataMigrated from "@ + from@ + " to "@
                + to@,
        }
    }

    /// The action as text.
    pub fn to_string(&self) -> (s: String)
        ensures
            s@ == self.text(),
    {
        match self {
            MigrationAction::TableCreated => "TableCreated".to_owned(),
            MigrationAction::SchemaMatched => "SchemaMatched".to_owned(),
            MigrationAction::DataMigrated { from, to } => {
                let mut s = "DataMigrated from ".to_owned();
                s.append(from.as_str());
                s.append(" to ");
                s.append(to.as_str());
                s
            },
        }
    }
}

} // verus!
